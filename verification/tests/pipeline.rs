use capture_pipeline::capture::{
    capture_tick, AcquireOutcome, FatalAcquireKind, LoopError, TickAction,
};
use capture_pipeline::shared::{get_frame_data, CaptureState, QueryError};
use capture_pipeline::store::FrameStore;
use capture_pipeline::transform::{process_image, ProcessedFrame, TransformError, WindowRegion};

/// A raw frame of `width * height` pixels whose byte at index i is i mod 256.
fn raw_frame(width: u32, height: u32) -> Vec<u8> {
    (0..width as usize * height as usize * 4).map(|i| i as u8).collect()
}

/// The four output bytes for the source pixel starting at byte `idx`:
/// first and third channel swapped, second and fourth unchanged.
fn remapped(raw: &[u8], idx: usize) -> [u8; 4] {
    [raw[idx + 2], raw[idx + 1], raw[idx], raw[idx + 3]]
}

fn region(x: u32, y: u32, width: u32, height: u32) -> WindowRegion {
    WindowRegion { x, y, width, height }
}

#[test]
fn scenario_a_8x8_scale_4() {
    let raw = raw_frame(8, 8);
    let p: ProcessedFrame = process_image(&raw, 8, region(0, 0, 8, 8), 4).unwrap();
    assert_eq!(p.width, 2);
    assert_eq!(p.height, 2);
    assert_eq!(p.data.len(), 16);
    // samples at (0,0), (4,0), (0,4), (4,4): byte indices (y*8+x)*4
    let mut expected = Vec::new();
    for idx in [0usize, 16, 128, 144] {
        expected.extend_from_slice(&remapped(&raw, idx));
    }
    assert_eq!(p.data, expected);
}

#[test]
fn scenario_b_10x10_scale_4() {
    let raw = raw_frame(10, 10);
    let p = process_image(&raw, 10, region(0, 0, 10, 10), 4).unwrap();
    // floor(10/4) = 2 in both dimensions, step = ceil(10/2) = 5
    assert_eq!(p.width, 2);
    assert_eq!(p.height, 2);
    // samples at (0,0), (5,0), (0,5), (5,5): byte indices (y*10+x)*4
    let mut expected = Vec::new();
    for idx in [0usize, 20, 200, 220] {
        expected.extend_from_slice(&remapped(&raw, idx));
    }
    assert_eq!(p.data, expected);
}

#[test]
fn scenario_c_zero_scale_rejected() {
    let raw = raw_frame(8, 8);
    let r = process_image(&raw, 8, region(0, 0, 8, 8), 0);
    assert_eq!(r.unwrap_err(), TransformError::InvalidScaleFactor);
}

#[test]
fn zero_scale_tick_leaves_store_unchanged() {
    let shared = CaptureState::new();
    let mut store = FrameStore::new();
    let mut counter: u32 = 0;
    // one good write first
    let raw = raw_frame(8, 8);
    let act = capture_tick(
        &mut store,
        &mut counter,
        &shared,
        AcquireOutcome::Frame { data: raw.clone(), full_width: 8 },
        Some(region(0, 0, 8, 8)),
        4,
        0,
    );
    assert_eq!(act, TickAction::Notify(1));
    let before = store.read().unwrap();
    // a tick with scale factor 0 fails without corrupting the store
    let act = capture_tick(
        &mut store,
        &mut counter,
        &shared,
        AcquireOutcome::Frame { data: raw, full_width: 8 },
        Some(region(0, 0, 8, 8)),
        0,
        100,
    );
    assert_eq!(act, TickAction::Retry);
    assert_eq!(counter, 1);
    let after = store.read().unwrap();
    assert_eq!(after, before);
}

#[test]
fn store_read_before_any_write_is_empty() {
    let store = FrameStore::new();
    assert!(store.read().is_none());
}

#[test]
fn store_write_then_read_returns_frame_verbatim() {
    let mut store = FrameStore::new();
    store.write(vec![9, 8, 7, 6], 1, 1, 0);
    let (data, w, h, fps) = store.read().unwrap();
    assert_eq!(data, vec![9, 8, 7, 6]);
    assert_eq!(w, 1);
    assert_eq!(h, 1);
    assert_eq!(fps, 0);
    // the frame stays until the next write, then is replaced
    let again = store.read().unwrap();
    assert_eq!(again.0, vec![9, 8, 7, 6]);
    store.write(vec![1, 2, 3, 4], 1, 1, 10);
    let (data, _, _, _) = store.read().unwrap();
    assert_eq!(data, vec![1, 2, 3, 4]);
}

#[test]
fn fps_publishes_once_per_second_and_restarts_ticks() {
    let mut store = FrameStore::new();
    // three writes within the first window: fps stays at its initial 0
    store.write(vec![0, 0, 0, 0], 1, 1, 0);
    store.write(vec![0, 0, 0, 0], 1, 1, 100);
    store.write(vec![0, 0, 0, 0], 1, 1, 999);
    assert_eq!(store.read().unwrap().3, 0);
    // one second elapsed: the fourth write publishes its tick count
    store.write(vec![0, 0, 0, 0], 1, 1, 1000);
    assert_eq!(store.read().unwrap().3, 4);
    // the tick counter restarted: within the next window fps does not move
    store.write(vec![0, 0, 0, 0], 1, 1, 1500);
    store.write(vec![0, 0, 0, 0], 1, 1, 1999);
    assert_eq!(store.read().unwrap().3, 4);
    // the next publish counts only the ticks of its own window
    store.write(vec![0, 0, 0, 0], 1, 1, 2000);
    assert_eq!(store.read().unwrap().3, 3);
}

#[test]
fn frame_counter_advances_by_one_and_wraps() {
    let shared = CaptureState::new();
    let mut store = FrameStore::new();
    let mut counter: u32 = 6;
    let raw = raw_frame(4, 4);
    let act = capture_tick(
        &mut store,
        &mut counter,
        &shared,
        AcquireOutcome::Frame { data: raw.clone(), full_width: 4 },
        Some(region(0, 0, 4, 4)),
        2,
        0,
    );
    assert_eq!(counter, 7);
    assert_eq!(act, TickAction::Notify(7));

    let mut counter: u32 = u32::MAX;
    let act = capture_tick(
        &mut store,
        &mut counter,
        &shared,
        AcquireOutcome::Frame { data: raw, full_width: 4 },
        Some(region(0, 0, 4, 4)),
        2,
        1,
    );
    assert_eq!(counter, 0);
    assert_eq!(act, TickAction::Notify(0));
}

#[test]
fn transient_failure_retries_without_storing() {
    let shared = CaptureState::new();
    let mut store = FrameStore::new();
    let mut counter: u32 = 0;
    let act =
        capture_tick(&mut store, &mut counter, &shared, AcquireOutcome::Transient, None, 4, 0);
    assert_eq!(act, TickAction::Retry);
    assert_eq!(counter, 0);
    assert!(store.read().is_none());
    assert_eq!(get_frame_data(&shared).unwrap_err(), QueryError::NoFrameAvailable);
}

#[test]
fn missing_geometry_terminates_loop() {
    let shared = CaptureState::new();
    let mut store = FrameStore::new();
    let mut counter: u32 = 0;
    let act = capture_tick(
        &mut store,
        &mut counter,
        &shared,
        AcquireOutcome::Frame { data: raw_frame(4, 4), full_width: 4 },
        None,
        4,
        0,
    );
    assert_eq!(act, TickAction::Terminate(LoopError::GeometryUnavailable));
    assert!(store.read().is_none());
}

#[test]
fn scenario_d_fatal_error_keeps_last_frame_queryable() {
    let shared = CaptureState::new();
    let mut store = FrameStore::new();
    let mut counter: u32 = 0;
    let raw = raw_frame(8, 8);
    // three successful writes
    for t in [0u64, 10, 20] {
        let act = capture_tick(
            &mut store,
            &mut counter,
            &shared,
            AcquireOutcome::Frame { data: raw.clone(), full_width: 8 },
            Some(region(0, 0, 8, 8)),
            4,
            t,
        );
        assert!(matches!(act, TickAction::Notify(_)));
    }
    assert_eq!(counter, 3);
    // a fatal acquisition error terminates the loop...
    let act = capture_tick(
        &mut store,
        &mut counter,
        &shared,
        AcquireOutcome::Fatal(FatalAcquireKind::AccessLost),
        Some(region(0, 0, 8, 8)),
        4,
        30,
    );
    assert_eq!(
        act,
        TickAction::Terminate(LoopError::FatalAcquire(FatalAcquireKind::AccessLost))
    );
    // ...but the last good frame stays queryable, not an error
    let (data, w, h, fps) = get_frame_data(&shared).unwrap();
    assert_eq!(w, 2);
    assert_eq!(h, 2);
    assert_eq!(fps, 0);
    let expected = process_image(&raw, 8, region(0, 0, 8, 8), 4).unwrap().data;
    assert_eq!(data, expected);
}

#[test]
fn out_of_buffer_samples_are_skipped() {
    // region says 8x8, but the raw buffer holds only two rows of 8 pixels:
    // the samples of the second destination row fall outside and are skipped
    let raw = raw_frame(8, 2);
    let p = process_image(&raw, 8, region(0, 0, 8, 8), 4).unwrap();
    assert_eq!(p.width, 2);
    assert_eq!(p.height, 2);
    let mut expected = Vec::new();
    for idx in [0usize, 16] {
        expected.extend_from_slice(&remapped(&raw, idx));
    }
    assert_eq!(p.data, expected);
    assert!(p.data.len() < 4 * 2 * 2);
}

#[test]
fn output_dimensions_are_floored() {
    let raw = raw_frame(32, 32);
    let p = process_image(&raw, 32, region(3, 5, 10, 7), 3).unwrap();
    assert_eq!(p.width, 3);
    assert_eq!(p.height, 2);
}

#[test]
fn region_smaller_than_scale_gives_empty_output() {
    let raw = raw_frame(8, 8);
    let p = process_image(&raw, 8, region(0, 0, 3, 3), 4).unwrap();
    assert_eq!(p.width, 0);
    assert_eq!(p.height, 0);
    assert!(p.data.is_empty());
}

#[test]
fn offset_region_samples_relative_to_its_origin() {
    let raw = raw_frame(8, 8);
    let p = process_image(&raw, 8, region(2, 1, 4, 2), 2).unwrap();
    assert_eq!(p.width, 2);
    assert_eq!(p.height, 1);
    // x_step = ceil(4/2) = 2, y_step = ceil(2/1) = 2: samples at (2,1), (4,1)
    let mut expected = Vec::new();
    for idx in [40usize, 48] {
        expected.extend_from_slice(&remapped(&raw, idx));
    }
    assert_eq!(p.data, expected);
}

#[test]
fn empty_raw_buffer_skips_every_pixel() {
    let raw: Vec<u8> = Vec::new();
    let p = process_image(&raw, 8, region(0, 0, 8, 8), 4).unwrap();
    assert_eq!(p.width, 2);
    assert_eq!(p.height, 2);
    assert!(p.data.is_empty());
}

#[test]
fn channel_remap_swaps_first_and_third() {
    let raw = vec![1u8, 2, 3, 4];
    let p = process_image(&raw, 1, region(0, 0, 1, 1), 1).unwrap();
    assert_eq!(p.data, vec![3, 2, 1, 4]);
}

#[test]
fn query_sees_published_frames() {
    let shared = CaptureState::new();
    let mut store = FrameStore::new();
    let mut counter: u32 = 0;
    assert_eq!(get_frame_data(&shared).unwrap_err(), QueryError::NoFrameAvailable);
    let raw = vec![10u8, 20, 30, 40];
    capture_tick(
        &mut store,
        &mut counter,
        &shared,
        AcquireOutcome::Frame { data: raw, full_width: 1 },
        Some(region(0, 0, 1, 1)),
        1,
        0,
    );
    let (data, w, h, _) = get_frame_data(&shared).unwrap();
    assert_eq!((w, h), (1, 1));
    assert_eq!(data, vec![30, 20, 10, 40]);
    // the next publish replaces the shared frame outright
    capture_tick(
        &mut store,
        &mut counter,
        &shared,
        AcquireOutcome::Frame { data: vec![50u8, 60, 70, 80], full_width: 1 },
        Some(region(0, 0, 1, 1)),
        1,
        5,
    );
    let (data, _, _, _) = get_frame_data(&shared).unwrap();
    assert_eq!(data, vec![70, 60, 50, 80]);
}
