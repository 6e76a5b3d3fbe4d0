//! Internal events and the structured shape of scanner output lines.

use vstd::prelude::*;

verus! {

/// A completion signal produced by a background task and consumed exactly
/// once by the coordination loop.
#[derive(Clone, Copy, PartialEq, Eq, Structural, Debug)]
pub enum AppEvent {
    ScanComplete,
}

/// The optional fields of a structured scanner output line. A line may carry
/// the shape `{"type", "message"}` or the shape `{"level", "msg"}`; absent or
/// null fields are `None`.
pub struct BackendEvent {
    pub kind: Option<String>,
    pub message: Option<String>,
    pub level: Option<String>,
    pub msg: Option<String>,
}

impl View for BackendEvent {
    type V = (Option<Seq<char>>, Option<Seq<char>>, Option<Seq<char>>, Option<Seq<char>>);

    open spec fn view(&self) -> (
        Option<Seq<char>>,
        Option<Seq<char>>,
        Option<Seq<char>>,
        Option<Seq<char>>,
    ) {
        (self.kind.deep_view(), self.message.deep_view(), self.level.deep_view(), self.msg.deep_view())
    }
}

} // verus!
