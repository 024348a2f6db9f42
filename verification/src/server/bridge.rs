//! Commands exchanged between the compositor thread and the network side.

use vstd::prelude::*;

use crate::protocol::message::{InputEvent, WindowEventKind, WindowEventKindV};
use crate::server::rendering::{FrameBuffer, FrameBufferV, RenderRequest};

verus! {

/// A command from the compositor thread to the network side.
#[derive(Debug)]
pub enum NetCommand {
    /// A rendered frame to stream to connected viewers, with its
    /// compositor-assigned monotonic sequence number.
    Frame { frame: FrameBuffer, frame_id: u64 },
    /// Window lifecycle events to relay to every viewer's control stream.
    WindowEvents(Vec<(u64, WindowEventKind)>),
    /// Stop the server and drop all sessions.
    Shutdown,
}

/// Mathematical value of a [`NetCommand`].
pub enum NetCommandV {
    Frame { frame: FrameBufferV, frame_id: u64 },
    WindowEvents(Seq<(u64, WindowEventKindV)>),
    Shutdown,
}

/// Mathematical value of a list of window events.
pub open spec fn events_view(e: Seq<(u64, WindowEventKind)>) -> Seq<(u64, WindowEventKindV)> {
    e.map_values(|x: (u64, WindowEventKind)| (x.0, x.1@))
}

impl View for NetCommand {
    type V = NetCommandV;

    open spec fn view(&self) -> NetCommandV {
        match self {
            NetCommand::Frame { frame, frame_id } => NetCommandV::Frame { frame: frame@, frame_id: *frame_id },
            NetCommand::WindowEvents(e) => NetCommandV::WindowEvents(events_view(e@)),
            NetCommand::Shutdown => NetCommandV::Shutdown,
        }
    }
}

/// A command from the network side to the compositor thread.
#[derive(Debug)]
pub enum CompositorCommand {
    /// An input event to dispatch into the Wayland seat.
    Input { window_id: u64, event: InputEvent },
    /// A viewer focus request: activate the given window.
    SetFocus { window_id: u64 },
    /// A viewer resize request: configure the given window to a new size.
    ConfigureWindow { window_id: u64, width: u32, height: u32 },
    /// A viewer close request: send the xdg close event to the window.
    CloseWindow { window_id: u64 },
    /// A render request handled on the compositor thread.
    RenderRequest(RenderRequest),
}

} // verus!
