use peek_popup::spinner::{
    any_spinner_active, frame_glyph, ActiveSpinnerCount, ProgressSpinners, Spinner,
};

#[test]
fn two_starts_one_stop_stays_active() {
    let mut count = ActiveSpinnerCount::new();
    let mut a = Spinner::new();
    let mut b = Spinner::new();
    assert!(!any_spinner_active(&count));
    a.start(&mut count);
    b.start(&mut count);
    assert!(any_spinner_active(&count));
    a.stop(&mut count);
    assert!(any_spinner_active(&count));
    b.stop(&mut count);
    assert!(!any_spinner_active(&count));
}

#[test]
fn restart_does_not_double_count() {
    let mut count = ActiveSpinnerCount::new();
    let mut a = Spinner::new();
    a.start(&mut count);
    a.start(&mut count);
    assert_eq!(count.read(), 1);
    a.stop(&mut count);
    assert_eq!(count.read(), 0);
}

#[test]
fn stop_without_start_is_harmless() {
    let mut count = ActiveSpinnerCount::new();
    let mut a = Spinner::new();
    a.stop(&mut count);
    assert_eq!(count.read(), 0);
}

#[test]
fn spinner_reports_stopped_state() {
    let mut count = ActiveSpinnerCount::new();
    let mut a = Spinner::default();
    assert!(a.is_stopped());
    a.start(&mut count);
    assert!(!a.is_stopped());
    a.stop(&mut count);
    assert!(a.is_stopped());
}

#[test]
fn get_or_create_registers_an_idle_spinner() {
    let mut spinners = ProgressSpinners::default();
    assert!(spinners.get(7).is_none());
    assert!(spinners.get_or_create(7).is_stopped());
    assert!(spinners.get(7).is_some());
    assert!(!spinners.has_active_spinners());
}

#[test]
fn has_active_spinners_follows_the_indicators() {
    let mut spinners = ProgressSpinners::default();
    let mut count = ActiveSpinnerCount::new();
    spinners.get_or_create(1).start(&mut count);
    spinners.get_or_create(2);
    assert!(spinners.has_active_spinners());
    spinners.get_or_create(1).stop(&mut count);
    assert!(!spinners.has_active_spinners());
}

#[test]
fn frame_advances_only_after_the_interval() {
    let mut spinners = ProgressSpinners::default();
    // The first tick only arms the timer.
    spinners.tick(1_000);
    assert_eq!(spinners.current_frame, 0);
    spinners.tick(1_079);
    assert_eq!(spinners.current_frame, 0);
    spinners.tick(1_080);
    assert_eq!(spinners.current_frame, 1);
    // The interval restarts from the advance.
    spinners.tick(1_159);
    assert_eq!(spinners.current_frame, 1);
    spinners.tick(1_160);
    assert_eq!(spinners.current_frame, 2);
}

#[test]
fn frame_wraps_over_the_eight_glyph_cycle() {
    let mut spinners = ProgressSpinners::default();
    spinners.tick(0);
    for i in 1..=8u64 {
        spinners.tick(i * 80);
    }
    assert_eq!(spinners.current_frame, 0);
}

#[test]
fn glyphs_cycle_through_the_braille_frames() {
    assert_eq!(frame_glyph(0), "⣾");
    assert_eq!(frame_glyph(7), "⣷");
    let mut spinners = ProgressSpinners::default();
    let g = spinners.current_frame();
    assert_eq!(g, "⣾");
}
