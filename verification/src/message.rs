//! Typed messages exchanged over the local-domain sockets that connect the
//! data-center, the backend and the roster tool.

use vstd::prelude::*;

verus! {

/// Path of the data-center's message socket.
pub const DATA_CENTER_SOCKET: &'static str = "/tmp/acfunlivedata.sock";

/// Path of the backend's message socket.
pub const BACKEND_SOCKET: &'static str = "/tmp/acfunlivedata_backend.sock";

/// Path of the tool's message socket.
pub const TOOL_SOCKET: &'static str = "/tmp/acfunlivedata_tool.sock";

/// Well-known password of the tool's socket.
pub const TOOL_PASSWORD: &'static str = "acfunlivedata-tool";

/// A mutation of the data-center's capture set.  The flag says whether the
/// request came from the tool, so that the reply goes back to it.
#[derive(Clone, Copy, Debug, PartialEq, Eq, Structural)]
pub enum DataCenterMessage {
    AddLiver(i64, bool),
    DeleteLiver(i64, bool),
}

/// A mutation of the backend's token roster.
#[derive(Clone, Copy, Debug, PartialEq, Eq, Structural)]
pub enum BackendMessage {
    AddLiver(i64),
    DeleteLiver(i64),
}

/// A reply to the tool: which server applied which mutation, whether the
/// streamer was already present, and the freshly issued token if any.
#[derive(Clone, Debug, PartialEq)]
pub enum ToolMessage {
    DataCenterAddLiver(i64, bool),
    DataCenterDeleteLiver(i64, bool),
    BackendAddLiver(i64, bool, String),
    BackendDeleteLiver(i64, bool),
}

} // verus!
