//! Frame storage for the viewer: the network side stores frames, the
//! display side takes the latest one.

use vstd::prelude::*;

verus! {

/// A decoded frame ready for display.
#[derive(Debug, Clone)]
pub struct FrameBuffer {
    pub data: Vec<u8>,
    pub width: u32,
    pub height: u32,
    pub stride: u32,
    pub frame_id: u64,
    pub timestamp_ns: u64,
    pub window_id: u64,
}

/// Mathematical value of a [`FrameBuffer`].
pub struct FrameV {
    pub data: Seq<u8>,
    pub width: u32,
    pub height: u32,
    pub stride: u32,
    pub frame_id: u64,
    pub timestamp_ns: u64,
    pub window_id: u64,
}

impl View for FrameBuffer {
    type V = FrameV;

    open spec fn view(&self) -> FrameV {
        FrameV {
            data: self.data@,
            width: self.width,
            height: self.height,
            stride: self.stride,
            frame_id: self.frame_id,
            timestamp_ns: self.timestamp_ns,
            window_id: self.window_id,
        }
    }
}

impl FrameBuffer {
    /// A copy of the frame.
    pub fn duplicate(&self) -> (f: Self)
        ensures
            f@ == self@,
    {
        let mut data: Vec<u8> = Vec::new();
        let mut i: usize = 0;
        while i < self.data.len()
            invariant
                i <= self.data@.len(),
                data@ == self.data@.take(i as int),
            decreases self.data@.len() - i,
        {
            data.push(self.data[i]);
            i = i + 1;
            assert(data@ =~= self.data@.take(i as int));
        }
        assert(self.data@.take(i as int) =~= self.data@);
        FrameBuffer {
            data,
            width: self.width,
            height: self.height,
            stride: self.stride,
            frame_id: self.frame_id,
            timestamp_ns: self.timestamp_ns,
            window_id: self.window_id,
        }
    }
}

/// Double-buffered frame store: storing a frame replaces the front frame
/// and raises the new-frame flag; borrowing takes a copy and lowers it.
pub struct FrameStore {
    front: Option<FrameBuffer>,
    has_new: bool,
}

impl FrameStore {
    /// The front frame.
    pub closed spec fn front_frame(self) -> Option<FrameV> {
        match self.front {
            Some(f) => Some(f@),
            None => None,
        }
    }

    /// Whether a frame arrived since the last borrow.
    pub closed spec fn fresh(self) -> bool {
        self.has_new
    }

    /// An empty store.
    pub fn new() -> (s: Self)
        ensures
            s.front_frame() is None,
            !s.fresh(),
    {
        Self { front: None, has_new: false }
    }

    /// Store a new frame (from the network side).
    pub fn swap(&mut self, frame: FrameBuffer)
        ensures
            final(self).front_frame() == Some(frame@),
            final(self).fresh(),
    {
        self.front = Some(frame);
        self.has_new = true;
    }

    /// A copy of the front frame if a new one arrived since the last call;
    /// the new-frame flag is lowered either way.
    pub fn borrow(&mut self) -> (r: Option<FrameBuffer>)
        ensures
            !final(self).fresh(),
            final(self).front_frame() == old(self).front_frame(),
            old(self).fresh() ==> match old(self).front_frame() {
                Some(f) => r matches Some(g) && g@ == f,
                None => r is None,
            },
            !old(self).fresh() ==> r is None,
    {
        if !self.has_new {
            return None;
        }
        self.has_new = false;
        self.latest()
    }

    /// A copy of the front frame, leaving the new-frame flag as it is.
    pub fn latest(&self) -> (r: Option<FrameBuffer>)
        ensures
            match self.front_frame() {
                Some(f) => r matches Some(g) && g@ == f,
                None => r is None,
            },
    {
        match &self.front {
            Some(f) => Some(f.duplicate()),
            None => None,
        }
    }

    /// The dimensions of the front frame, if any frame has been stored.
    pub fn size(&self) -> (r: Option<(u32, u32)>)
        ensures
            r == (match self.front_frame() {
                Some(f) => Some((f.width, f.height)),
                None => None,
            }),
    {
        match &self.front {
            Some(f) => Some((f.width, f.height)),
            None => None,
        }
    }
}

impl Default for FrameStore {
    fn default() -> (s: Self)
        ensures
            s.front_frame() is None,
            !s.fresh(),
    {
        Self::new()
    }
}

} // verus!
