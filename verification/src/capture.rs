//! Per-tick decision logic of the frame acquisition loop. The platform
//! capture session, the window-geometry collaborator and the clock live
//! outside; each tick their results come in as plain values, and this module
//! decides — exactly as stated in `capture_tick`'s contract — what is
//! transformed, stored, published and signalled, and when the loop stops.
use vstd::prelude::*;

use crate::shared::CaptureState;
use crate::shared::publish_store;
use crate::store::FrameStore;
use crate::store::StoreState;
use crate::store::frame_fits;
use crate::store::lemma_write_preserves_wf;
use crate::store::spec_write;
use crate::store::store_wf;
use crate::store::wrap_inc;
use crate::transform::WindowRegion;
use crate::transform::lemma_rows_prefix_len;
use crate::transform::process_image;
use crate::transform::spec_out_height;
use crate::transform::spec_out_width;
use crate::transform::spec_transform;

verus! {

/// A capture-source condition that cannot be retried without reinitializing
/// the session.
#[derive(Clone, Copy, PartialEq, Eq, Structural, Debug)]
pub enum FatalAcquireKind {
    AccessLost,
    AccessDenied,
}

/// Why the acquisition loop terminated.
#[derive(Clone, Copy, PartialEq, Eq, Structural, Debug)]
pub enum LoopError {
    FatalAcquire(FatalAcquireKind),
    /// The geometry collaborator could not supply the window region;
    /// a frame cannot be transformed without it.
    GeometryUnavailable,
}

/// Outcome of one non-blocking "give me the next frame now" acquisition, as
/// handed in by the platform capture session: a raw B,G,R,A frame with its
/// row width in pixels, no new frame yet, or a fatal condition.
pub enum AcquireOutcome {
    Frame { data: Vec<u8>, full_width: u32 },
    Transient,
    Fatal(FatalAcquireKind),
}

/// What the loop does after one tick.
#[derive(Clone, Copy, PartialEq, Eq, Structural, Debug)]
pub enum TickAction {
    /// A frame was stored and published; signal listeners with the new
    /// frame counter value.
    Notify(u32),
    /// Nothing was stored this tick; try again immediately.
    Retry,
    /// The loop terminates; the store keeps its last good frame.
    Terminate(LoopError),
}

/// Every store a successful tick leaves behind is well-formed: the frame it
/// writes is the transform's output, whose byte length never exceeds the
/// reported dimensions. Together with `lemma_read_agrees`, a query that
/// snapshots such a store never observes a buffer whose length disagrees
/// with its width and height.
pub proof fn lemma_tick_stores_wf_frame(
    data: Seq<u8>,
    full_width: u32,
    region: WindowRegion,
    scale: u32,
    s: StoreState,
    now_ms: u64,
)
    requires
        scale >= 1,
    ensures
        store_wf(
            spec_write(
                s,
                spec_transform(data, full_width, region, scale),
                spec_out_width(region, scale) as u32,
                spec_out_height(region, scale) as u32,
                now_ms,
            ),
        ),
{
    let w = spec_out_width(region, scale);
    let h = spec_out_height(region, scale);
    assert(0 <= w <= region.width && 0 <= h <= region.height) by (nonlinear_arith)
        requires
            scale >= 1,
            w == region.width as int / scale as int,
            h == region.height as int / scale as int,
    ;
    let frame = spec_transform(data, full_width, region, scale);
    if w <= 0 || h <= 0 {
        assert(4 * (w as u32) * (h as u32) >= 0) by (nonlinear_arith);
        assert(frame_fits(frame.len() as int, w as u32, h as u32));
    } else {
        lemma_rows_prefix_len(data, full_width, region, scale, h as nat);
        assert(4 * (h as nat) * w == 4 * (w as u32) * (h as u32)) by (nonlinear_arith)
            requires
                0 <= w <= u32::MAX,
                0 <= h <= u32::MAX,
        ;
        assert(frame_fits(frame.len() as int, w as u32, h as u32));
    }
    lemma_write_preserves_wf(s, frame, w as u32, h as u32, now_ms);
}

/// One tick of the `Capturing` state. On a successful acquisition with known
/// geometry and a valid scale factor: transform the raw frame, write it into
/// the loop's store, publish a copy into the shared slot, advance the
/// wrapping frame counter by exactly one, and ask for a notification with
/// the new counter value. A transient failure or an invalid scale factor
/// changes nothing and retries; a fatal failure or missing geometry changes
/// nothing and terminates the loop.
pub fn capture_tick(
    store: &mut FrameStore,
    frame_counter: &mut u32,
    shared: &CaptureState,
    outcome: AcquireOutcome,
    geometry: Option<WindowRegion>,
    scale_factor: u32,
    now_ms: u64,
) -> (r: TickAction)
    ensures
        outcome is Transient ==> r == TickAction::Retry && final(store)@ == old(store)@
            && *final(frame_counter) == *old(frame_counter),
        outcome matches AcquireOutcome::Fatal(k) ==> r == TickAction::Terminate(
            LoopError::FatalAcquire(k),
        ) && final(store)@ == old(store)@ && *final(frame_counter) == *old(frame_counter),
        outcome matches AcquireOutcome::Frame { data, full_width } ==> match geometry {
            Some(region) => {
                if scale_factor == 0 {
                    r == TickAction::Retry && final(store)@ == old(store)@ && *final(frame_counter)
                        == *old(frame_counter)
                } else {
                    &&& final(store)@ == spec_write(
                        old(store)@,
                        spec_transform(data@, full_width, region, scale_factor),
                        spec_out_width(region, scale_factor) as u32,
                        spec_out_height(region, scale_factor) as u32,
                        now_ms,
                    )
                    &&& *final(frame_counter) == wrap_inc(*old(frame_counter))
                    &&& r == TickAction::Notify(wrap_inc(*old(frame_counter)))
                }
            },
            None => r == TickAction::Terminate(LoopError::GeometryUnavailable) && final(store)@
                == old(store)@ && *final(frame_counter) == *old(frame_counter),
        },
{
    match outcome {
        AcquireOutcome::Transient => TickAction::Retry,
        AcquireOutcome::Fatal(k) => TickAction::Terminate(LoopError::FatalAcquire(k)),
        AcquireOutcome::Frame { data, full_width } => {
            match geometry {
                None => TickAction::Terminate(LoopError::GeometryUnavailable),
                Some(region) => {
                    match process_image(&data, full_width, region, scale_factor) {
                        Err(_) => TickAction::Retry,
                        Ok(p) => {
                            let width = p.width;
                            let height = p.height;
                            proof {
                                assert(frame_fits(p.data@.len() as int, width, height));
                            }
                            store.write(p.data, width, height, now_ms);
                            publish_store(shared, store);
                            *frame_counter = if *frame_counter == u32::MAX {
                                0
                            } else {
                                *frame_counter + 1
                            };
                            TickAction::Notify(*frame_counter)
                        },
                    }
                },
            }
        },
    }
}

} // verus!
