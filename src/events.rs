//! Messages that background tasks send to the interface.
use vstd::prelude::*;

verus! {

/// Progress of a playlist initialisation.
#[derive(Debug, Clone, Copy, PartialEq, Eq, Structural)]
pub enum PlaylistInitStatus {
    Progress { current: u32, total: u32 },
    Complete,
    Fail,
}

/// A reply streamed back by a task.
#[derive(Debug, Clone, Copy, PartialEq, Eq, Structural)]
pub enum TaskResponse {
    PlaylistInitStatus(PlaylistInitStatus),
}

/// An application-wide message.
#[derive(Debug, Clone, Copy, PartialEq, Eq, Structural)]
pub enum EventMessage {
    TaskResponse(TaskResponse),
    Count(usize),
}

/// The interface service; its event loop lives outside the library.
#[derive(Debug, Clone, Copy)]
pub struct GuiService {}

impl GuiService {
    pub fn new() -> (r: GuiService) {
        GuiService {  }
    }
}

} // verus!
