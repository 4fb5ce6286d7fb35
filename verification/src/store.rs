//! Single-slot holder of the latest processed frame, with a wrapping tick
//! counter and an FPS value published at most once per elapsed second. Time
//! enters as a millisecond timestamp supplied by the caller, so the
//! accounting itself is pure and fully specified.
use vstd::prelude::*;

verus! {

/// The latest processed frame as delivered to a consumer: pixel bytes in
/// R,G,B,A order, the frame's dimensions, and the last published FPS value.
#[derive(Default, Clone)]
pub struct FrameBuffer {
    pub data: Vec<u8>,
    pub width: u32,
    pub height: u32,
    pub fps: u32,
}

/// Single-slot mailbox state: the current frame (meaningful only once
/// `written` is set), plus the per-second FPS accounting.
#[derive(Clone)]
pub struct FrameStore {
    pub buffer: FrameBuffer,
    pub written: bool,
    pub tick_count: u32,
    pub last_publish_ms: u64,
}

/// Mathematical model of a `FrameStore`.
#[verifier::ext_equal]
pub struct StoreState {
    pub data: Seq<u8>,
    pub width: u32,
    pub height: u32,
    pub fps: u32,
    pub written: bool,
    pub tick_count: u32,
    pub last_publish_ms: u64,
}

impl View for FrameStore {
    type V = StoreState;

    open spec fn view(&self) -> StoreState {
        StoreState {
            data: self.buffer.data@,
            width: self.buffer.width,
            height: self.buffer.height,
            fps: self.buffer.fps,
            written: self.written,
            tick_count: self.tick_count,
            last_publish_ms: self.last_publish_ms,
        }
    }
}

/// Increment that wraps to 0 from the largest representable value.
pub open spec fn wrap_inc(x: u32) -> u32 {
    if x == u32::MAX {
        0
    } else {
        (x + 1) as u32
    }
}

/// A store that has never been written.
pub open spec fn spec_init() -> StoreState {
    StoreState {
        data: Seq::empty(),
        width: 0,
        height: 0,
        fps: 0,
        written: false,
        tick_count: 0,
        last_publish_ms: 0,
    }
}

/// Whether a write at `now_ms` falls outside the current one-second window
/// and therefore publishes a new FPS value.
pub open spec fn spec_publishes(s: StoreState, now_ms: u64) -> bool {
    now_ms >= s.last_publish_ms + 1000
}

/// Effect of one write: the slot's frame is replaced, the tick counter
/// advances (wrapping), and once at least one second has elapsed since the
/// last publish the tick count becomes the published FPS value and the
/// counter and window restart.
pub open spec fn spec_write(
    s: StoreState,
    data: Seq<u8>,
    width: u32,
    height: u32,
    now_ms: u64,
) -> StoreState {
    if spec_publishes(s, now_ms) {
        StoreState {
            data: data,
            width: width,
            height: height,
            fps: wrap_inc(s.tick_count),
            written: true,
            tick_count: 0,
            last_publish_ms: now_ms,
        }
    } else {
        StoreState {
            data: data,
            width: width,
            height: height,
            fps: s.fps,
            written: true,
            tick_count: wrap_inc(s.tick_count),
            last_publish_ms: s.last_publish_ms,
        }
    }
}

/// What a read delivers: nothing before the first write, afterwards the most
/// recently written frame and the published FPS value, however stale.
pub open spec fn spec_read(s: StoreState) -> Option<(Seq<u8>, u32, u32, u32)> {
    if s.written {
        Some((s.data, s.width, s.height, s.fps))
    } else {
        None
    }
}

/// The frame's byte length agrees with its reported dimensions: at most
/// `width * height` pixels of 4 bytes each (it can be shorter at region
/// edges, never longer).
pub open spec fn frame_fits(len: int, width: u32, height: u32) -> bool {
    len <= 4 * width * height
}

pub open spec fn store_wf(s: StoreState) -> bool {
    frame_fits(s.data.len() as int, s.width, s.height)
}

/// A read never returns a frame written by an earlier write than the last
/// one: immediately after `write`, `read` delivers exactly the written
/// bytes and dimensions; before any write it delivers nothing.
pub proof fn lemma_write_then_read(
    s: StoreState,
    data: Seq<u8>,
    width: u32,
    height: u32,
    now_ms: u64,
)
    ensures
        spec_read(spec_write(s, data, width, height, now_ms)) == Some(
            (data, width, height, spec_write(s, data, width, height, now_ms).fps),
        ),
        spec_read(spec_init()) is None,
{
}

/// Within one one-second window the published FPS value does not change and
/// the window's start stands still; a write that publishes restarts the tick
/// counter from zero and opens a new window at the write's time.
pub proof fn lemma_fps_window(s: StoreState, data: Seq<u8>, width: u32, height: u32, now_ms: u64)
    ensures
        !spec_publishes(s, now_ms) ==> spec_write(s, data, width, height, now_ms).fps == s.fps
            && spec_write(s, data, width, height, now_ms).last_publish_ms == s.last_publish_ms,
        spec_publishes(s, now_ms) ==> spec_write(s, data, width, height, now_ms).tick_count == 0
            && spec_write(s, data, width, height, now_ms).last_publish_ms == now_ms,
{
}

/// A well-formed store never delivers a frame whose byte length disagrees
/// with its reported width and height.
pub proof fn lemma_read_agrees(s: StoreState)
    requires
        store_wf(s),
    ensures
        spec_read(s) matches Some(t) ==> t.0.len() <= 4 * t.1 * t.2,
{
}

/// Writing a frame that agrees with its dimensions keeps the store
/// well-formed, whatever its earlier contents.
pub proof fn lemma_write_preserves_wf(
    s: StoreState,
    data: Seq<u8>,
    width: u32,
    height: u32,
    now_ms: u64,
)
    requires
        frame_fits(data.len() as int, width, height),
    ensures
        store_wf(spec_write(s, data, width, height, now_ms)),
{
}

/// Byte-for-byte copy; `read` hands out a copy, never a reference into the
/// slot.
fn copy_bytes(src: &Vec<u8>) -> (r: Vec<u8>)
    ensures
        r@ == src@,
{
    let mut r: Vec<u8> = Vec::new();
    let mut i: usize = 0;
    while i < src.len()
        invariant
            i <= src.len(),
            r@ == src@.subrange(0, i as int),
        decreases src.len() - i,
    {
        r.push(src[i]);
        proof {
            assert(src@.subrange(0, i + 1 as int) =~= src@.subrange(0, i as int).push(
                src@[i as int],
            ));
        }
        i = i + 1;
    }
    proof {
        assert(r@ =~= src@);
    }
    r
}

impl FrameStore {
    /// A store that has never been written: a read finds it empty.
    pub fn new() -> (r: FrameStore)
        ensures
            r@ == spec_init(),
    {
        let r = FrameStore {
            buffer: FrameBuffer { data: Vec::new(), width: 0, height: 0, fps: 0 },
            written: false,
            tick_count: 0,
            last_publish_ms: 0,
        };
        proof {
            assert(r@ =~= spec_init());
        }
        r
    }

    /// Replace the slot's frame and advance the FPS accounting, as
    /// `spec_write` states: the tick counter always advances (wrapping), and
    /// when at least one second has elapsed since the last publish the tick
    /// count is published as the FPS value and the counter restarts.
    pub fn write(&mut self, data: Vec<u8>, width: u32, height: u32, now_ms: u64)
        requires
            frame_fits(data@.len() as int, width, height),
        ensures
            final(self)@ == spec_write(old(self)@, data@, width, height, now_ms),
    {
        let ghost data_view = data@;
        self.tick_count = if self.tick_count == u32::MAX {
            0
        } else {
            self.tick_count + 1
        };
        self.buffer.data = data;
        self.buffer.width = width;
        self.buffer.height = height;
        self.written = true;
        if now_ms >= self.last_publish_ms && now_ms - self.last_publish_ms >= 1000 {
            self.buffer.fps = self.tick_count;
            self.tick_count = 0;
            self.last_publish_ms = now_ms;
        }
        proof {
            assert(self@ =~= spec_write(old(self)@, data_view, width, height, now_ms));
        }
    }

    /// Deliver a copy of the most recently written frame and the published
    /// FPS value, or nothing when no write has ever happened.
    pub fn read(&self) -> (r: Option<(Vec<u8>, u32, u32, u32)>)
        ensures
            match r {
                Some(t) => spec_read(self@) == Some((t.0@, t.1, t.2, t.3)),
                None => spec_read(self@) is None,
            },
    {
        if self.written {
            Some(
                (
                    copy_bytes(&self.buffer.data),
                    self.buffer.width,
                    self.buffer.height,
                    self.buffer.fps,
                ),
            )
        } else {
            None
        }
    }
}

} // verus!
