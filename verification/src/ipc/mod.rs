//! The conversation with one connected editor.
//!
//! Text frames carry control messages, binary frames the pixels of rendered
//! frames. The editor says hello, configures the size of the stream, sends
//! scenes and parameters, and starts and stops the rendering. The engine
//! answers hello, announces the size of the stream, and reports errors, none
//! of which ends the conversation.
pub mod laws;
pub mod model;
pub mod protocol;
pub mod session;
