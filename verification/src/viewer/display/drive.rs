//! The scripted drive client's decisions: which input events an action
//! sends, when frames are captured and a pixel change recorded, and the
//! RGBA conversion of captured frames for PNG output.

use vstd::prelude::*;

use crate::protocol::message::{ButtonState, InputEvent};
use crate::server::rendering::{swap_pixel_channels, swap_red_blue};

verus! {

/// A single scripted action. Click coordinates are `f64` bit patterns.
#[derive(Debug, Clone, Copy, PartialEq, Eq, Structural)]
pub enum DriveAction {
    Click { x: u64, y: u64, button: u32 },
    KeyPress { scancode: u16 },
    Wait { ms: u64 },
}

/// The input events an action sends, in order: a click moves the pointer
/// and presses and releases the button; a key press sends key down and up;
/// a wait sends nothing.
pub open spec fn inputs_of(action: DriveAction) -> Seq<InputEvent> {
    match action {
        DriveAction::Click { x, y, button } => seq![
            InputEvent::PointerMove { x, y },
            InputEvent::PointerButton { button, state: ButtonState::Pressed },
            InputEvent::PointerButton { button, state: ButtonState::Released },
        ],
        DriveAction::KeyPress { scancode } => seq![
            InputEvent::KeyDown { scancode },
            InputEvent::KeyUp { scancode },
        ],
        DriveAction::Wait { .. } => Seq::empty(),
    }
}

/// The input events to send for an action.
pub fn action_inputs(action: &DriveAction) -> (events: Vec<InputEvent>)
    ensures
        events@ == inputs_of(*action),
{
    let mut events: Vec<InputEvent> = Vec::new();
    match action {
        DriveAction::Click { x, y, button } => {
            events.push(InputEvent::PointerMove { x: *x, y: *y });
            events.push(InputEvent::PointerButton { button: *button, state: ButtonState::Pressed });
            events.push(InputEvent::PointerButton { button: *button, state: ButtonState::Released });
        },
        DriveAction::KeyPress { scancode } => {
            events.push(InputEvent::KeyDown { scancode: *scancode });
            events.push(InputEvent::KeyUp { scancode: *scancode });
        },
        DriveAction::Wait { .. } => {},
    }
    assert(events@ =~= inputs_of(*action));
    events
}

/// The first pixel change seen after an action: its frame number and the
/// milliseconds since the actions started.
#[derive(Debug, Clone, Copy, PartialEq, Eq, Structural)]
pub struct PixelChange {
    pub frame: u64,
    pub ms: u64,
}

/// Frame capture bookkeeping of a drive run.
#[derive(Debug, Clone, Copy, PartialEq, Eq, Structural)]
pub struct CaptureState {
    /// Frames still allowed by the budget.
    pub remaining: usize,
    /// Frames captured after the baseline.
    pub frame_seq: u64,
    /// Frames received in all, the baseline included.
    pub total_frames: u64,
    /// The first pixel change, once seen.
    pub changed_at: Option<PixelChange>,
}

impl CaptureState {
    /// After the baseline frame, with a budget of `max_frames` more.
    pub fn new(max_frames: usize) -> (s: Self)
        ensures
            s == (CaptureState { remaining: max_frames, frame_seq: 0, total_frames: 1, changed_at: None }),
    {
        CaptureState { remaining: max_frames, frame_seq: 0, total_frames: 1, changed_at: None }
    }

    /// Whether to wait for another frame: budget left and no change seen yet.
    pub fn wants_frame(&self) -> (b: bool)
        ensures
            b == (self.remaining > 0 && self.changed_at is None),
    {
        self.remaining > 0 && self.changed_at.is_none()
    }

    /// A frame arrived `elapsed_ms` after the actions started; `changed`
    /// tells whether its pixels differ from the baseline. Returns whether
    /// the frame is the recorded change (and is to be written out).
    pub fn record_frame(&mut self, changed: bool, elapsed_ms: u64) -> (record: bool)
        requires
            old(self).remaining > 0,
            old(self).frame_seq < u64::MAX,
            old(self).total_frames < u64::MAX,
        ensures
            record == changed,
            final(self).remaining == old(self).remaining - 1,
            final(self).frame_seq == old(self).frame_seq + 1,
            final(self).total_frames == old(self).total_frames + 1,
            final(self).changed_at == (if changed {
                Some(PixelChange { frame: final(self).frame_seq, ms: elapsed_ms })
            } else {
                old(self).changed_at
            }),
    {
        self.frame_seq = self.frame_seq + 1;
        self.total_frames = self.total_frames + 1;
        self.remaining = self.remaining - 1;
        if changed {
            self.changed_at = Some(PixelChange { frame: self.frame_seq, ms: elapsed_ms });
        }
        changed
    }
}

/// Whether two frames' pixels differ.
pub fn frames_differ(a: &[u8], b: &[u8]) -> (d: bool)
    ensures
        d == (a@ != b@),
{
    if a.len() != b.len() {
        return true;
    }
    let mut i: usize = 0;
    while i < a.len()
        invariant
            a@.len() == b@.len(),
            i <= a@.len(),
            forall|j: int| 0 <= j < i ==> a@[j] == b@[j],
        decreases a@.len() - i,
    {
        if a[i] != b[i] {
            assert(a@[i as int] != b@[i as int]);
            return true;
        }
        i = i + 1;
    }
    assert(a@ =~= b@);
    false
}

/// The RGBA bytes of the first `rows` rows of a BGRA frame with `row_bytes`
/// pixel bytes per row and rows `stride` bytes apart; `None` when a row
/// runs past the data.
pub open spec fn rows_rgba(data: Seq<u8>, row_bytes: int, stride: int, rows: nat) -> Option<Seq<u8>>
    decreases rows,
{
    if rows == 0 {
        Some(Seq::empty())
    } else {
        match rows_rgba(data, row_bytes, stride, (rows - 1) as nat) {
            Some(prefix) => {
                let start = (rows - 1) * stride;
                if start + row_bytes <= data.len() {
                    Some(prefix + swap_red_blue(data.subrange(start, start + row_bytes)))
                } else {
                    None
                }
            },
            None => None,
        }
    }
}

/// The RGBA image of a BGRA frame for PNG output. A contiguous frame
/// (`stride == width × 4`) converts all its whole pixels; a padded one is
/// converted row by row, and a row running past the data gives `None`.
pub fn frame_rgba(data: &[u8], width: u32, height: u32, stride: u32) -> (r: Option<Vec<u8>>)
    requires
        height * stride + width * 4 <= usize::MAX,
    ensures
        stride == width * 4 ==> (r matches Some(v) && v@ == swap_red_blue(data@)),
        stride != width * 4 ==> match rows_rgba(data@, width * 4, stride as int, height as nat) {
            Some(s) => r matches Some(v) && v@ == s,
            None => r is None,
        },
{
    let w = width as usize;
    let h = height as usize;
    let row_bytes = w * 4;
    let stride_b = stride as usize;
    if stride_b == row_bytes {
        let pixels = data.len() / 4;
        let out = swap_pixel_channels(data, pixels);
        assert(swap_red_blue(data@.take(pixels * 4)) =~= swap_red_blue(data@));
        return Some(out);
    }
    let mut out: Vec<u8> = Vec::new();
    let mut y: usize = 0;
    while y < h
        invariant
            y <= h,
            h == height,
            w == width,
            row_bytes == width * 4,
            stride_b == stride,
            stride_b != row_bytes,
            h * stride_b + row_bytes <= usize::MAX,
            rows_rgba(data@, row_bytes as int, stride_b as int, y as nat) == Some(out@),
        decreases h - y,
    {
        assert(y * stride_b <= h * stride_b) by (nonlinear_arith)
            requires
                y < h,
        ;
        let row_start = y * stride_b;
        if row_start + row_bytes > data.len() {
            proof {
                assert(rows_rgba(data@, row_bytes as int, stride_b as int, (y + 1) as nat) is None);
                lemma_rows_rgba_stays_none(data@, row_bytes as int, stride_b as int, (y + 1) as nat, h as nat);
            }
            return None;
        }
        let row = vstd::slice::slice_subrange(data, row_start, row_start + row_bytes);
        let px = swap_pixel_channels(row, w);
        assert(row@.take(w * 4) =~= row@);
        let mut k: usize = 0;
        let ghost before = out@;
        while k < px.len()
            invariant
                k <= px@.len(),
                out@ == before + px@.take(k as int),
            decreases px@.len() - k,
        {
            out.push(px[k]);
            k = k + 1;
            assert(out@ =~= before + px@.take(k as int));
        }
        assert(px@.take(k as int) =~= px@);
        y = y + 1;
    }
    Some(out)
}

/// Once a row runs past the data, every longer prefix of rows fails too.
proof fn lemma_rows_rgba_stays_none(data: Seq<u8>, row_bytes: int, stride: int, from: nat, to: nat)
    requires
        from <= to,
        rows_rgba(data, row_bytes, stride, from) is None,
    ensures
        rows_rgba(data, row_bytes, stride, to) is None,
    decreases to - from,
{
    if from < to {
        lemma_rows_rgba_stays_none(data, row_bytes, stride, from, (to - 1) as nat);
    }
}

} // verus!
