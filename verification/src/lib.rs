//! Decision logic that lets a compio runtime live inside a platform event
//! loop (glib on Linux, the Win32 message queue on Windows, Core Foundation
//! run loops on Apple platforms).

pub mod timing;
pub mod runtime;
pub mod glib_source;
pub mod message_loop;
pub mod run_loop;
