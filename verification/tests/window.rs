use wavescope::shared::VisualizationWindow;
use wavescope::window::RollingWindow;

fn amplitudes(samples: &[u32]) -> Vec<f32> {
    samples.iter().map(|bits| f32::from_bits(*bits)).collect()
}

#[test]
fn fresh_window_is_all_silence() {
    let window = RollingWindow::<4>::new();
    assert_eq!(window.len(), 4);
    assert_eq!(amplitudes(&window.snapshot()), vec![0.0, 0.0, 0.0, 0.0]);
}

#[test]
fn recorded_samples_follow_the_remaining_silence() {
    let mut window = RollingWindow::<5>::new();
    window.record(0.5f32.to_bits());
    window.record((-0.25f32).to_bits());
    window.record(1.0f32.to_bits());
    assert_eq!(amplitudes(&window.snapshot()), vec![0.0, 0.0, 0.5, -0.25, 1.0]);
}

#[test]
fn filling_the_window_exactly_keeps_every_sample() {
    let mut window = RollingWindow::<3>::new();
    window.record(1);
    window.record(2);
    window.record(3);
    assert_eq!(window.snapshot(), vec![1, 2, 3]);
}

#[test]
fn one_sample_too_many_evicts_the_first() {
    let mut window = RollingWindow::<4>::new();
    for sample in [10, 20, 30, 40, 50] {
        window.record(sample);
    }
    assert_eq!(window.snapshot(), vec![20, 30, 40, 50]);
}

#[test]
fn window_length_never_changes() {
    let mut window = RollingWindow::<7>::new();
    for sample in 0..100u32 {
        window.record(sample);
        assert_eq!(window.snapshot().len(), 7);
        assert_eq!(window.len(), 7);
    }
    assert_eq!(window.snapshot(), vec![93, 94, 95, 96, 97, 98, 99]);
}

#[test]
fn window_of_one_holds_the_latest_sample() {
    let mut window = RollingWindow::<1>::new();
    assert_eq!(window.snapshot(), vec![0]);
    window.record(8);
    window.record(9);
    assert_eq!(window.snapshot(), vec![9]);
}

#[test]
fn window_of_zero_stays_empty() {
    let mut window = RollingWindow::<0>::new();
    window.record(5);
    assert_eq!(window.len(), 0);
    assert_eq!(window.snapshot(), Vec::<u32>::new());
}

#[test]
fn shared_window_starts_silent() {
    let window = VisualizationWindow::<4>::new();
    assert_eq!(window.snapshot(), Some(vec![0, 0, 0, 0]));
}

#[test]
fn shared_window_orders_recorded_samples() {
    let window = VisualizationWindow::<4>::new();
    assert!(window.record(1.0f32.to_bits()));
    assert!(window.record((-1.0f32).to_bits()));
    let copy = window.snapshot().unwrap();
    assert_eq!(amplitudes(&copy), vec![0.0, 0.0, 1.0, -1.0]);
}

#[test]
fn shared_window_evicts_the_oldest_on_overflow() {
    let window = VisualizationWindow::<3>::new();
    for sample in [1, 2, 3, 4] {
        assert!(window.record(sample));
    }
    assert_eq!(window.snapshot(), Some(vec![2, 3, 4]));
}

#[test]
fn shared_window_snapshot_always_has_full_length() {
    let window = VisualizationWindow::<200>::new();
    for sample in 0..450u32 {
        window.record(sample);
        assert_eq!(window.snapshot().unwrap().len(), 200);
    }
    let copy = window.snapshot().unwrap();
    assert_eq!(copy[0], 250);
    assert_eq!(copy[199], 449);
}

#[test]
fn handles_share_one_window() {
    let drawing = VisualizationWindow::<2>::new();
    let capture = drawing.clone();
    assert!(capture.record(6));
    assert_eq!(drawing.snapshot(), Some(vec![0, 6]));
    assert!(drawing.record(7));
    assert_eq!(capture.snapshot(), Some(vec![6, 7]));
}

#[test]
fn snapshot_is_a_copy() {
    let window = VisualizationWindow::<2>::new();
    let before = window.snapshot().unwrap();
    window.record(3);
    assert_eq!(before, vec![0, 0]);
    assert_eq!(window.snapshot(), Some(vec![0, 3]));
}

#[test]
fn drawable_gives_the_window_when_it_has_samples() {
    let window = VisualizationWindow::<3>::new();
    window.record(4);
    assert_eq!(window.drawable(), Some(vec![0, 0, 4]));
}

#[test]
fn drawable_gives_nothing_for_an_empty_window() {
    let window = VisualizationWindow::<0>::new();
    assert!(window.record(4));
    assert_eq!(window.snapshot(), Some(Vec::new()));
    assert_eq!(window.drawable(), None);
}

#[test]
fn held_window_makes_the_other_side_skip() {
    let window = VisualizationWindow::<2>::new();
    let held = window.try_hold();
    assert!(held.is_some());
    assert!(!window.record(5));
    assert_eq!(window.snapshot(), None);
    assert_eq!(window.drawable(), None);
    assert!(window.try_hold().is_none());
    drop(held);
    assert!(window.record(5));
    assert_eq!(window.snapshot(), Some(vec![0, 5]));
}

#[test]
fn skipped_sample_leaves_no_trace() {
    let window = VisualizationWindow::<3>::new();
    assert!(window.record(1));
    let held = window.try_hold();
    assert!(!window.record(2));
    drop(held);
    assert!(window.record(3));
    let copy = window.snapshot().unwrap();
    assert_eq!(copy.len(), 3);
    assert_eq!(copy, vec![0, 1, 3]);
}

#[test]
fn holder_sees_the_window_as_it_is() {
    let window = VisualizationWindow::<2>::new();
    window.record(4);
    let held = window.try_hold().unwrap();
    assert_eq!(held.snapshot(), vec![0, 4]);
    assert_eq!(held.len(), 2);
}

#[test]
fn nothing_is_recorded_into_a_window_in_use() {
    assert!(!VisualizationWindow::<4>::record_held(None, 9));
}

#[test]
fn nothing_is_copied_from_a_window_in_use() {
    assert_eq!(VisualizationWindow::<4>::snapshot_held(None), None);
    assert_eq!(VisualizationWindow::<4>::drawable_held(None), None);
}

#[test]
fn free_window_is_recorded_into_and_copied() {
    let window = VisualizationWindow::<2>::new();
    assert!(VisualizationWindow::record_held(window.try_hold(), 6));
    assert_eq!(VisualizationWindow::snapshot_held(window.try_hold()), Some(vec![0, 6]));
    assert_eq!(VisualizationWindow::drawable_held(window.try_hold()), Some(vec![0, 6]));
}

#[test]
fn free_window_without_samples_is_not_drawable() {
    let window = VisualizationWindow::<0>::new();
    assert_eq!(VisualizationWindow::snapshot_held(window.try_hold()), Some(Vec::new()));
    assert_eq!(VisualizationWindow::drawable_held(window.try_hold()), None);
}
