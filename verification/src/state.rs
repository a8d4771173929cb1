//! The process-wide context that every handler works in.
use vstd::prelude::*;
use crate::http::{HttpReply, HttpReplyView, ReplyBody, ReplyBodyView, STATUS_OK};
use crate::models::HashingParameters;
use crate::store::Store;

verus! {

/// The process-wide context: fixed when the process starts, but for the
/// store, which the handlers write to.
pub struct AppState {
    pub version: String,
    pub pepper: String,
    pub store: Store,
    pub createRoot: bool,
    pub hashingParameters: HashingParameters,
}

impl AppState {
    /// Whether a handler left everything but the store as it was.
    pub open spec fn same_settings(&self, other: &AppState) -> bool {
        &&& self.version@ == other.version@
        &&& self.pepper@ == other.pepper@
        &&& self.createRoot == other.createRoot
        &&& self.hashingParameters == other.hashingParameters
    }
}

/// The reply that tells the version of the service.
pub open spec fn version_reply(version: Seq<char>) -> HttpReplyView {
    HttpReplyView { status: STATUS_OK, body: ReplyBodyView::Text(version) }
}

/// Tells the version of the service.
pub fn version(data: &AppState) -> (reply: HttpReply)
    ensures
        reply@ == version_reply(data.version@),
{
    HttpReply { status: STATUS_OK, body: ReplyBody::Text(data.version.clone()) }
}

} // verus!
