# carbon

The render-tree runtime of Carbon, verified with Verus.

- `src/stack_frame.rs`: the frame a component pushes while its template is
  rendered; it hands out the component's adoptees one by one, in order.
- `src/rendering.rs`: the runtime's stack of frames (push, pop, peek at the
  top frame), the `Yield` node that adopts the next adoptee of the top frame,
  and the laws that tie these operations together.
- `app/`: the render nodes whose geometry is floating point and the drawing
  through `piet`, plus the example root component.
- `tests/`: tests of the library on concrete values.
