//! Session logic of the BroSDK binding: the requests handed to the native
//! library, how its replies are turned into results, and the decisions of the
//! desktop commands around it.

pub mod commands;
pub mod manager;
pub mod text;

pub use commands::AppState;
pub use manager::{SdkEvent, SdkReply, SdkSession};
