use vstd::prelude::*;

use crate::stack_frame::{
    advanced, advanced_times, fresh_frame, fresh_frame_after_calls, next_adoptee_of, FrameState,
    StackFrame,
};

verus! {

/// An opaque handle to a render node. The library never looks inside it: the
/// code that owns the nodes maps each handle to its node. Two handles denote
/// the same node exactly when they are equal.
pub type RenderNodePtr = usize;

/// An ordered list of render nodes, such as a node's children. It is an
/// owned value: a copy handed out by a getter does not share later changes.
pub type RenderNodePtrList = Vec<RenderNodePtr>;

/// Lets a `kurbo` transform stand in a field of a render node. Verus sees
/// nothing inside it: nodes only carry their transform.
#[verifier::external_type_specification]
#[verifier::external_body]
pub struct ExAffine(kurbo::Affine);

/// A list that holds `rnp` and nothing else.
pub fn wrap_render_node_ptr_into_list(rnp: RenderNodePtr) -> (list: RenderNodePtrList)
    ensures
        list@ == seq![rnp],
{
    let mut list: RenderNodePtrList = Vec::new();
    list.push(rnp);
    list
}

/// A render tree, known by its root node.
pub struct RenderTree {
    pub root: RenderNodePtr,
}

/// A length, either in pixels or as a percentage of the length of the
/// parent's bounds.
#[derive(Copy, Clone)]
pub enum Size<T> {
    Pixel(T),
    Percent(T),
}

pub struct Repeat {}

pub struct If {}

/// The stack after a frame for `adoptees` has been pushed onto `stack`.
pub open spec fn pushed(stack: Seq<FrameState>, adoptees: Seq<RenderNodePtr>) -> Seq<FrameState> {
    stack.push(fresh_frame(adoptees))
}

/// The stack after its top frame, if it has one, has been removed.
pub open spec fn popped(stack: Seq<FrameState>) -> Seq<FrameState> {
    if stack.len() > 0 {
        stack.drop_last()
    } else {
        stack
    }
}

/// The top frame of `stack`, if it has one.
pub open spec fn top_frame(stack: Seq<FrameState>) -> Option<FrameState> {
    if stack.len() > 0 {
        Some(stack.last())
    } else {
        None
    }
}

/// Pushing a frame and then popping it leaves the stack as it was.
pub proof fn push_then_pop_restores(stack: Seq<FrameState>, adoptees: Seq<RenderNodePtr>)
    ensures
        popped(pushed(stack, adoptees)) == stack,
{
    assert(pushed(stack, adoptees).drop_last() =~= stack);
}

/// The frame pushed last is the top frame, and has handed out nothing yet.
pub proof fn pushed_frame_is_top(stack: Seq<FrameState>, adoptees: Seq<RenderNodePtr>)
    ensures
        top_frame(pushed(stack, adoptees)) == Some(fresh_frame(adoptees)),
{
}

/// Peeking at the top frame without changing it leaves the stack as it was.
pub proof fn peek_keeps_stack(stack: Seq<FrameState>)
    requires
        stack.len() > 0,
    ensures
        stack.update(stack.len() - 1, top_frame(stack).unwrap()) == stack,
{
    assert(stack.update(stack.len() - 1, top_frame(stack).unwrap()) =~= stack);
}

/// `Runtime` is a container for data and logic needed by the `Engine`,
/// explicitly aside from rendering.  For example, logic for managing
/// scopes, stack frames, and properties should live here.
pub struct Runtime {
    stack: Vec<StackFrame>,
}

impl View for Runtime {
    type V = Seq<FrameState>;

    /// The stack of frames, bottom first: its last element is the top.
    closed spec fn view(&self) -> Seq<FrameState> {
        self.stack@.map_values(|frame: StackFrame| frame@)
    }
}

impl Runtime {
    /// A runtime whose stack holds no frame.
    pub fn new() -> (runtime: Self)
        ensures
            runtime@ == Seq::<FrameState>::empty(),
    {
        let runtime = Runtime { stack: Vec::new() };
        assert(runtime@ =~= Seq::<FrameState>::empty());
        runtime
    }

    /// Return a pointer to the top StackFrame on the stack,
    /// without mutating the stack or consuming the value
    pub fn peek_stack_frame(&mut self) -> (frame: Option<&mut StackFrame>)
        ensures
            frame is Some <==> old(self)@.len() > 0,
            frame is None ==> final(self)@ == old(self)@,
            frame is Some ==> Some(frame.unwrap()@) == top_frame(old(self)@),
            frame is Some ==> final(self)@ == old(self)@.update(
                old(self)@.len() - 1,
                final(frame.unwrap())@,
            ),
    {
        let len = self.stack.len();
        if len > 0 {
            Some(&mut self.stack[len - 1])
        } else {
            None
        }
    }

    /// Remove the top element from the stack.  Currently does
    /// nothing with the value of the popped StackFrame.
    pub fn pop_stack_frame(&mut self)
        ensures
            final(self)@ == popped(old(self)@),
    {
        self.stack.pop();
        assert(self@ =~= popped(old(self)@));
    }

    /// Add a new frame to the stack, passing a list of adoptees
    /// that may be handled by `Yield`
    pub fn push_stack_frame(&mut self, adoptees: RenderNodePtrList)
        ensures
            final(self)@ == pushed(old(self)@, adoptees@),
    {
        self.stack.push(StackFrame::new(adoptees));
        assert(self@ =~= pushed(old(self)@, adoptees@));
    }
}

/// The children that a `Yield` adopts when it is pre-rendered under `stack`:
/// the next adoptee of the top frame, or none when there is no frame or the
/// top frame has handed out all of its adoptees.
pub open spec fn adopted(stack: Seq<FrameState>) -> Seq<RenderNodePtr> {
    match top_frame(stack) {
        Some(frame) => match next_adoptee_of(frame) {
            Some(adoptee) => seq![adoptee],
            None => Seq::empty(),
        },
        None => Seq::empty(),
    }
}

/// The stack after a `Yield` has been pre-rendered under `stack`: the top
/// frame, if there is one, has handed out one more adoptee.
pub open spec fn after_adoption(stack: Seq<FrameState>) -> Seq<FrameState> {
    match top_frame(stack) {
        Some(frame) => stack.update(stack.len() - 1, advanced(frame)),
        None => stack,
    }
}

/// The stack after `n` `Yield`s have been pre-rendered in turn under `stack`.
pub open spec fn after_adoptions(stack: Seq<FrameState>, n: nat) -> Seq<FrameState>
    decreases n,
{
    if n == 0 {
        stack
    } else {
        after_adoption(after_adoptions(stack, (n - 1) as nat))
    }
}

/// While a component's frame is on top, the `Yield`s pre-rendered one after
/// another receive its adoptees in order, one each; those that come after the
/// last adoptee receive nothing; and popping the frame afterwards gives back
/// the stack from before the push.
pub proof fn yields_adopt_in_order(
    stack: Seq<FrameState>,
    adoptees: Seq<RenderNodePtr>,
    n: nat,
)
    ensures
        adopted(after_adoptions(pushed(stack, adoptees), n)) == (if n < adoptees.len() {
            seq![adoptees[n as int]]
        } else {
            Seq::<RenderNodePtr>::empty()
        }),
        popped(after_adoptions(pushed(stack, adoptees), n)) == stack,
{
    adoptions_advance_pushed_frame(stack, adoptees, n);
    fresh_frame_after_calls(adoptees, n);
    assert(stack.push(advanced_times(fresh_frame(adoptees), n)).drop_last() =~= stack);
}

/// `n` pre-renderings under a freshly pushed frame advance that frame `n`
/// times and touch nothing below it.
proof fn adoptions_advance_pushed_frame(
    stack: Seq<FrameState>,
    adoptees: Seq<RenderNodePtr>,
    n: nat,
)
    ensures
        after_adoptions(pushed(stack, adoptees), n) == stack.push(
            advanced_times(fresh_frame(adoptees), n),
        ),
    decreases n,
{
    if n > 0 {
        adoptions_advance_pushed_frame(stack, adoptees, (n - 1) as nat);
        let prev = stack.push(advanced_times(fresh_frame(adoptees), (n - 1) as nat));
        assert(prev.update(prev.len() - 1, advanced(prev.last())) =~= stack.push(
            advanced_times(fresh_frame(adoptees), n),
        ));
    }
}

/// Pre-rendering a `Yield` never pushes or pops a frame. With no frame on the
/// stack it adopts nothing and leaves the stack as it was. With a frame on
/// top, every frame below it is untouched and the top frame keeps its
/// adoptees; the `Yield` adopts at most one node, and it adopts one exactly
/// when the top frame still has an adoptee it has not handed out: that
/// adoptee, after which the top frame counts one more handed out. Otherwise
/// the stack is left as it was.
pub proof fn pre_render_touches_only_the_top_frame(stack: Seq<FrameState>)
    ensures
        after_adoption(stack).len() == stack.len(),
        adopted(stack).len() <= 1,
        stack.len() == 0 ==> after_adoption(stack) == stack && adopted(stack) == Seq::<
            RenderNodePtr,
        >::empty(),
        forall|i: int|
            0 <= i < stack.len() - 1 ==> #[trigger] after_adoption(stack)[i] == stack[i],
        stack.len() > 0 ==> after_adoption(stack).last().adoptees == stack.last().adoptees,
        stack.len() > 0 && stack.last().next < stack.last().adoptees.len() ==> {
            &&& adopted(stack) == seq![stack.last().adoptees[stack.last().next as int]]
            &&& after_adoption(stack).last().next == stack.last().next + 1
        },
        stack.len() > 0 && stack.last().next >= stack.last().adoptees.len() ==> {
            &&& adopted(stack) == Seq::<RenderNodePtr>::empty()
            &&& after_adoption(stack) == stack
        },
{
}

/// The place in a component's template where the nodes that the component
/// adopts from its caller are rendered. Each `Yield` takes the next adoptee
/// of the frame that its component pushed.
pub struct Yield {
    pub id: String,
    pub transform: kurbo::Affine,
    children: RenderNodePtrList,
}

/// The abstract state of a `Yield`: its id, its transform, and the children
/// it has adopted.
pub struct YieldState {
    pub id: Seq<char>,
    pub transform: kurbo::Affine,
    pub children: Seq<RenderNodePtr>,
}

impl View for Yield {
    type V = YieldState;

    closed spec fn view(&self) -> YieldState {
        YieldState { id: self.id@, transform: self.transform, children: self.children@ }
    }
}

impl Yield {
    /// A `Yield` that has adopted nothing yet.
    pub fn new(id: String, transform: kurbo::Affine) -> (node: Self)
        ensures
            node@ == (YieldState { id: id@, transform, children: Seq::empty() }),
    {
        Yield { id, transform, children: Vec::new() }
    }

    /// A copy of the children this `Yield` has adopted.
    pub fn get_children(&self) -> (children: RenderNodePtrList)
        ensures
            children@ == self@.children,
    {
        self.children.clone()
    }

    pub fn get_id(&self) -> (id: &str)
        ensures
            id@ == self@.id,
    {
        self.id.as_str()
    }

    pub fn get_transform(&self) -> (transform: &kurbo::Affine)
        ensures
            *transform == self@.transform,
    {
        &self.transform
    }

    /// Grabs the first adoptee of the current stack frame that no `Yield`
    /// has taken yet, and makes it this `Yield`'s own child.
    pub fn pre_render(&mut self, runtime: &mut Runtime)
        ensures
            final(self)@ == (YieldState { children: adopted(old(runtime)@), ..old(self)@ }),
            final(runtime)@ == after_adoption(old(runtime)@),
            final(runtime)@.len() == old(runtime)@.len(),
            old(runtime)@.len() == 0 ==> final(runtime)@ == old(runtime)@ && final(self)@.children
                == Seq::<RenderNodePtr>::empty(),
    {
        proof {
            pre_render_touches_only_the_top_frame(old(runtime)@);
        }
        self.children = match runtime.peek_stack_frame() {
            Some(stack_frame) => {
                match stack_frame.next_adoptee() {
                    Some(adoptee) => wrap_render_node_ptr_into_list(adoptee),
                    None => Vec::new(),
                }
            },
            None => Vec::new(),
        };
    }
}

} // verus!
