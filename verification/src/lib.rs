//! Carbon's render-tree runtime: the stack of frames that components push
//! while they are rendered, and the `Yield` node that adopts the children
//! handed to the component it stands in.

pub mod rendering;
pub mod stack_frame;

pub use rendering::{
    wrap_render_node_ptr_into_list, If, RenderNodePtr, RenderNodePtrList, RenderTree, Repeat,
    Runtime, Size, Yield, YieldState,
};
pub use stack_frame::{FrameState, StackFrame};
