//! Verified cores of four browser components: the crash helper's
//! inter-process event queue, the decisions of the crash reporter client,
//! the decisions of the JPEG XL decoder driver, and the URL pattern glue.
//!
//! Everything that touches the operating system stays with the embedding
//! program. The functions here take what the system answered as plain values
//! and decide what happens next.

pub mod errors;
pub mod messages;
pub mod platform;
pub mod ipc_connector;
pub mod ipc_queue;
pub mod jxl;
pub mod urlpattern_glue;
pub mod client;
