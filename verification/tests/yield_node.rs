use carbon::{wrap_render_node_ptr_into_list, If, RenderTree, Repeat, Runtime, Size, Yield};
use kurbo::Affine;

fn new_yield(id: &str) -> Yield {
    Yield::new(id.to_string(), Affine::IDENTITY)
}

#[test]
fn new_yield_has_no_children() {
    let node = new_yield("slot");
    assert!(node.get_children().is_empty());
    assert_eq!(node.get_id(), "slot");
    assert_eq!(*node.get_transform(), Affine::IDENTITY);
}

#[test]
fn yield_without_frame_adopts_nothing() {
    let mut runtime = Runtime::new();
    let mut node = new_yield("slot");
    node.pre_render(&mut runtime);
    assert!(node.get_children().is_empty());
}

#[test]
fn yields_adopt_the_adoptees_in_order() {
    let mut runtime = Runtime::new();
    runtime.push_stack_frame(vec![31, 32]);
    let mut first = new_yield("first");
    let mut second = new_yield("second");
    let mut third = new_yield("third");
    first.pre_render(&mut runtime);
    second.pre_render(&mut runtime);
    third.pre_render(&mut runtime);
    assert_eq!(first.get_children(), vec![31]);
    assert_eq!(second.get_children(), vec![32]);
    assert!(third.get_children().is_empty());
}

#[test]
fn yield_adopts_from_the_top_frame_only() {
    let mut runtime = Runtime::new();
    runtime.push_stack_frame(vec![1, 2]);
    runtime.push_stack_frame(vec![50]);
    let mut inner = new_yield("inner");
    inner.pre_render(&mut runtime);
    assert_eq!(inner.get_children(), vec![50]);
    runtime.pop_stack_frame();
    let mut outer = new_yield("outer");
    outer.pre_render(&mut runtime);
    assert_eq!(outer.get_children(), vec![1]);
}

#[test]
fn rendering_again_replaces_the_children() {
    let mut runtime = Runtime::new();
    runtime.push_stack_frame(vec![5]);
    let mut node = new_yield("slot");
    node.pre_render(&mut runtime);
    assert_eq!(node.get_children(), vec![5]);
    node.pre_render(&mut runtime);
    assert!(node.get_children().is_empty());
    assert_eq!(node.get_id(), "slot");
}

#[test]
fn pre_render_keeps_id_and_transform() {
    let mut runtime = Runtime::new();
    runtime.push_stack_frame(vec![8]);
    let shift = Affine::translate((3.0, 4.0));
    let mut node = Yield::new("moved".to_string(), shift);
    node.pre_render(&mut runtime);
    assert_eq!(node.get_id(), "moved");
    assert_eq!(*node.get_transform(), shift);
}

#[test]
fn wrapped_pointer_is_the_only_element() {
    assert_eq!(wrap_render_node_ptr_into_list(12), vec![12]);
}

#[test]
fn sizes_copy_their_value() {
    let width: Size<f64> = Size::Percent(50.0);
    let copy = width;
    assert!(matches!(copy, Size::Percent(v) if v == 50.0));
    let height: Size<u32> = Size::Pixel(20);
    assert!(matches!(height.clone(), Size::Pixel(20)));
}

#[test]
fn tree_is_known_by_its_root() {
    let tree = RenderTree { root: 3 };
    assert_eq!(tree.root, 3);
    let _ = Repeat {};
    let _ = If {};
}
