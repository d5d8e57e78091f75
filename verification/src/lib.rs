//! Live-preview core: a verified document-frame model, a frame-to-draw-call
//! renderer, a bounded FIFO hand-off queue, and the compile-worker result
//! normalization. The windowing shell and the external document compiler are
//! collaborators outside this crate; they exchange plain values with it.

pub mod doc;
pub mod render;
pub mod channel;
pub mod worker;
pub mod shell;
