//! Decisions of the compositor's main loop: frame sequence numbers, relaying
//! window events to the network side, and the one-shot snapshot.

use vstd::prelude::*;

use crate::protocol::message::WindowEventKind;
use crate::server::bridge::{events_view, NetCommand, NetCommandV};
use crate::server::window::WindowManager;

verus! {

/// Hands out the monotonic frame sequence numbers that travel as
/// `frame_id`, starting at 1.
#[derive(Debug)]
pub struct FrameSequencer {
    issued: u64,
}

impl FrameSequencer {
    /// How many ids have been handed out.
    pub closed spec fn issued_count(self) -> u64 {
        self.issued
    }

    /// No ids handed out yet.
    pub fn new() -> (s: Self)
        ensures
            s.issued_count() == 0,
    {
        FrameSequencer { issued: 0 }
    }

    /// The next frame id: one more than the previous one.
    pub fn next_frame_id(&mut self) -> (id: u64)
        requires
            old(self).issued_count() < u64::MAX,
        ensures
            id == old(self).issued_count() + 1,
            final(self).issued_count() == id,
    {
        self.issued = self.issued + 1;
        self.issued
    }
}

/// Take the window manager's queued events for the network side: a
/// `WindowEvents` command when there are any, nothing otherwise. The queue
/// is left empty either way.
pub fn relay_window_events(wm: &mut WindowManager) -> (cmd: Option<NetCommand>)
    requires
        old(wm).wf(),
    ensures
        final(wm).wf(),
        final(wm).pending().len() == 0,
        final(wm).windows() == old(wm).windows(),
        final(wm).focus() == old(wm).focus(),
        old(wm).pending().len() == 0 ==> cmd is None,
        old(wm).pending().len() > 0 ==> (cmd matches Some(c) && c@ == NetCommandV::WindowEvents(old(wm).pending())),
{
    let events = wm.drain_events();
    if events.len() == 0 {
        None
    } else {
        Some(NetCommand::WindowEvents(events))
    }
}

/// Whether the one-shot `--snapshot` frame is due: a snapshot path was
/// given, none has been written yet, and some surface has committed.
pub fn snapshot_due(has_snapshot_path: bool, snapshot_done: bool, surface_count: usize) -> (due: bool)
    ensures
        due == (has_snapshot_path && !snapshot_done && surface_count > 0),
{
    has_snapshot_path && !snapshot_done && surface_count > 0
}

} // verus!
