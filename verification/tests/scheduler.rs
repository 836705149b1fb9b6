use layer_shell_wgpu_egui::RedrawScheduler;

#[test]
fn fresh_scheduler_never_draws() {
    let s: RedrawScheduler<u32> = RedrawScheduler::new(600, 300);
    assert!(!s.should_draw(0));
    assert!(!s.should_draw(u64::MAX));
    assert_eq!(s.get_timeout(0), None);
    assert!(!s.should_exit());
}

#[test]
fn input_before_configure_does_not_draw() {
    let mut s: RedrawScheduler<u32> = RedrawScheduler::new(600, 300);
    s.on_input(1);
    s.on_input(2);
    s.on_frame_complete();
    assert!(!s.should_draw(100));
    assert_eq!(s.begin_draw(100), None);
}

#[test]
fn bootstrap_scenario() {
    let mut s: RedrawScheduler<u32> = RedrawScheduler::new(600, 300);
    let size = s.on_configured(600, 300, 0);
    assert_eq!(size, (600, 300));
    // Bootstrap: an initial frame is due without waiting for a prior present.
    assert!(s.should_draw(0));
    let events = s.begin_draw(0).expect("a frame is due");
    assert!(events.is_empty());
    // The frame consumed the ready latch; no pending input, nothing due.
    assert!(!s.should_draw(0));
    s.on_frame_complete();
    // Still nothing due: no input and no expired wake time.
    assert!(!s.should_draw(1));
    // The UI runtime asks for a repaint 16 ticks from now during the draw.
    s.request_wake_at(17);
    assert!(!s.should_draw(5));
    // Once the delay elapses (and the present completed), a frame is due.
    assert!(s.should_draw(17));
    assert!(s.should_draw(30));
}

#[test]
fn two_inputs_before_frame_ready() {
    let mut s: RedrawScheduler<u32> = RedrawScheduler::new(600, 300);
    s.on_configured(600, 300, 0);
    s.begin_draw(0).expect("bootstrap frame");
    // Surface still mid-present: input arrives but no frame may start.
    s.on_input(7);
    s.on_input(8);
    assert!(!s.should_draw(50));
    assert_eq!(s.begin_draw(50), None);
    // The present completes; now the frame is due and takes both events.
    s.on_frame_complete();
    assert!(s.should_draw(50));
    let events = s.begin_draw(50).expect("a frame is due");
    assert_eq!(events, vec![7, 8]);
    // Both consumed in one batch; the queue is empty again.
    assert!(!s.should_draw(50));
}

#[test]
fn draw_clears_pending_input_and_frame_ready() {
    let mut s: RedrawScheduler<u32> = RedrawScheduler::new(600, 300);
    s.on_configured(600, 300, 0);
    s.on_input(42);
    let events = s.begin_draw(0).expect("a frame is due");
    assert_eq!(events, vec![42]);
    // FrameReady was cleared: even new input cannot force a frame.
    s.on_input(43);
    assert!(!s.should_draw(1000));
    // And the queue was emptied: the next frame sees only the newer event.
    s.on_frame_complete();
    let events = s.begin_draw(1000).expect("a frame is due");
    assert_eq!(events, vec![43]);
}

#[test]
fn one_input_with_frame_ready_forces_draw() {
    let mut s: RedrawScheduler<u32> = RedrawScheduler::new(600, 300);
    s.on_configured(600, 300, 0);
    s.begin_draw(0).expect("bootstrap frame");
    s.on_frame_complete();
    assert!(!s.should_draw(1));
    s.on_input(9);
    assert!(s.should_draw(1));
}

#[test]
fn timeout_blocks_indefinitely_without_wake_request() {
    let mut s: RedrawScheduler<u32> = RedrawScheduler::new(600, 300);
    s.on_configured(600, 300, 0);
    s.begin_draw(0).expect("bootstrap frame");
    s.on_frame_complete();
    assert_eq!(s.get_timeout(5), None);
}

#[test]
fn timeout_is_clamped_to_zero_for_past_wake_times() {
    let mut s: RedrawScheduler<u32> = RedrawScheduler::new(600, 300);
    s.on_configured(600, 300, 0);
    s.begin_draw(0).expect("bootstrap frame");
    s.on_frame_complete();
    s.request_wake_at(10);
    assert_eq!(s.get_timeout(4), Some(6));
    assert_eq!(s.get_timeout(10), Some(0));
    // A wake time in the past means: wake immediately, never a negative wait.
    assert_eq!(s.get_timeout(500), Some(0));
}

#[test]
fn timeout_blocks_indefinitely_while_surface_is_busy() {
    let mut s: RedrawScheduler<u32> = RedrawScheduler::new(600, 300);
    s.on_configured(600, 300, 0);
    s.begin_draw(0).expect("bootstrap frame");
    // No present completed yet: the frame callback will wake the loop, so
    // the loop may block without a timer even though a wake time is set.
    s.request_wake_at(10);
    assert_eq!(s.get_timeout(4), None);
}

#[test]
fn later_wake_request_overwrites_earlier_one() {
    let mut s: RedrawScheduler<u32> = RedrawScheduler::new(600, 300);
    s.on_configured(600, 300, 0);
    s.begin_draw(0).expect("bootstrap frame");
    s.on_frame_complete();
    s.request_wake_at(10);
    s.request_wake_at(100);
    assert!(!s.should_draw(50));
    assert_eq!(s.get_timeout(50), Some(50));
}

#[test]
fn second_configure_does_not_restart_bootstrap() {
    let mut s: RedrawScheduler<u32> = RedrawScheduler::new(600, 300);
    s.on_configured(600, 300, 0);
    s.begin_draw(0).expect("bootstrap frame");
    // A resize arrives later; it must not set the ready latch or request a
    // wake-up again.
    let size = s.on_configured(800, 400, 7);
    assert_eq!(size, (800, 400));
    assert!(!s.should_draw(7));
    assert_eq!(s.get_timeout(7), None);
}

#[test]
fn zero_sized_configure_uses_fallback_size() {
    let mut s: RedrawScheduler<u32> = RedrawScheduler::new(600, 300);
    assert_eq!(s.on_configured(0, 0, 0), (600, 300));
    let mut s2: RedrawScheduler<u32> = RedrawScheduler::new(600, 300);
    assert_eq!(s2.on_configured(0, 240, 0), (600, 240));
    let mut s3: RedrawScheduler<u32> = RedrawScheduler::new(0, 0);
    assert_eq!(s3.on_configured(0, 0, 0), (1, 1));
}

#[test]
fn closed_surface_requests_exit() {
    let mut s: RedrawScheduler<u32> = RedrawScheduler::new(600, 300);
    assert!(!s.should_exit());
    s.on_closed();
    assert!(s.should_exit());
}
