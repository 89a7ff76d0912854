use time_tracker::Registry;
use time_tracker::RegistryError;
use time_tracker::TaskTimer;

fn running_count(r: &Registry) -> usize {
    let mut count = 0;
    let mut i = 0;
    while i < r.len() {
        if matches!(r.timer_at(i), TaskTimer::Running { .. }) {
            count += 1;
        }
        i += 1;
    }
    count
}

#[test]
fn add_select_switch_and_stop_scenario() {
    let t0: i64 = 1_000_000;
    let mut r = Registry::new();
    r.add_task("A".to_string());
    r.add_task("B".to_string());
    assert_eq!(r.len(), 2);
    assert_eq!(r.name_at(0), "A");
    assert_eq!(r.name_at(1), "B");
    assert_eq!(r.timer_at(0), TaskTimer::Stopped { total_ms: 0 });
    assert_eq!(r.timer_at(1), TaskTimer::Stopped { total_ms: 0 });
    assert_eq!(r.selected_index(), None);

    assert_eq!(r.select(Some(0), t0), Ok(()));
    assert_eq!(r.timer_at(0), TaskTimer::Running { start_ms: t0, acc_ms: 0 });
    assert_eq!(r.selected_index(), Some(0));

    assert_eq!(r.select(Some(1), t0 + 10_000), Ok(()));
    assert_eq!(r.timer_at(0), TaskTimer::Stopped { total_ms: 10_000 });
    assert_eq!(r.timer_at(1), TaskTimer::Running { start_ms: t0 + 10_000, acc_ms: 0 });
    assert_eq!(r.selected_index(), Some(1));

    assert_eq!(r.select(None, t0 + 30_000), Ok(()));
    assert_eq!(r.timer_at(1), TaskTimer::Stopped { total_ms: 20_000 });
    assert_eq!(r.selected_index(), None);

    // Final elapsed totals: A = 10 s, B = 20 s.
    assert_eq!(r.timer_at(0).elapsed_ms(t0 + 99_000), 10_000);
    assert_eq!(r.timer_at(1).elapsed_ms(t0 + 99_000), 20_000);
}

#[test]
fn at_most_one_timer_runs_after_any_selects() {
    let mut r = Registry::new();
    r.add_task("a".to_string());
    r.add_task("b".to_string());
    r.add_task("c".to_string());
    assert_eq!(running_count(&r), 0);
    let mut now: i64 = 500;
    for idx in [Some(0), Some(2), Some(2), Some(1), None, Some(0)] {
        assert_eq!(r.select(idx, now), Ok(()));
        assert!(running_count(&r) <= 1);
        assert_eq!(running_count(&r), if idx.is_some() { 1 } else { 0 });
        now += 1_000;
    }
}

#[test]
fn deleting_the_selected_task_clears_selection() {
    let mut r = Registry::new();
    r.add_task("a".to_string());
    r.add_task("b".to_string());
    assert_eq!(r.select(Some(1), 100), Ok(()));
    assert_eq!(r.delete_task(1), Ok(()));
    assert_eq!(r.selected_index(), None);
    assert_eq!(r.len(), 1);
    assert_eq!(r.name_at(0), "a");
}

#[test]
fn deleting_below_the_selection_decrements_it() {
    let mut r = Registry::new();
    r.add_task("a".to_string());
    r.add_task("b".to_string());
    r.add_task("c".to_string());
    assert_eq!(r.select(Some(2), 100), Ok(()));
    let before = r.timer_at(2);
    assert_eq!(r.delete_task(0), Ok(()));
    // The selection still denotes the same task, now one place earlier.
    assert_eq!(r.selected_index(), Some(1));
    assert_eq!(r.name_at(1), "c");
    assert_eq!(r.timer_at(1), before);
    assert_eq!(r.selected_name(), Some("c".to_string()));
}

#[test]
fn deleting_above_the_selection_leaves_it_alone() {
    let mut r = Registry::new();
    r.add_task("a".to_string());
    r.add_task("b".to_string());
    assert_eq!(r.select(Some(0), 100), Ok(()));
    assert_eq!(r.delete_task(1), Ok(()));
    assert_eq!(r.selected_index(), Some(0));
    assert_eq!(r.selected_name(), Some("a".to_string()));
}

#[test]
fn delete_out_of_range_fails_and_changes_nothing() {
    let mut r = Registry::new();
    assert_eq!(r.delete_task(0), Err(RegistryError::IndexOutOfRange));
    r.add_task("a".to_string());
    assert_eq!(r.select(Some(0), 100), Ok(()));
    assert_eq!(r.delete_task(1), Err(RegistryError::IndexOutOfRange));
    assert_eq!(r.len(), 1);
    assert_eq!(r.selected_index(), Some(0));
    assert_eq!(r.timer_at(0), TaskTimer::Running { start_ms: 100, acc_ms: 0 });
}

#[test]
fn select_out_of_range_fails_and_changes_nothing() {
    let mut r = Registry::new();
    r.add_task("a".to_string());
    assert_eq!(r.select(Some(0), 100), Ok(()));
    assert_eq!(r.select(Some(1), 200), Err(RegistryError::IndexOutOfRange));
    assert_eq!(r.selected_index(), Some(0));
    assert_eq!(r.timer_at(0), TaskTimer::Running { start_ms: 100, acc_ms: 0 });
}

#[test]
fn reselecting_the_selected_task_keeps_the_accounting() {
    let t0: i64 = 40_000;
    let mut r = Registry::new();
    r.add_task("a".to_string());
    assert_eq!(r.select(Some(0), t0), Ok(()));
    // Re-select the same task 5 s later: stop-then-restart at one instant.
    assert_eq!(r.select(Some(0), t0 + 5_000), Ok(()));
    assert_eq!(r.timer_at(0), TaskTimer::Running { start_ms: t0 + 5_000, acc_ms: 5_000 });
    // 8 s after the first select the accounted elapsed time is exactly 8 s,
    // with nothing double-counted and nothing lost.
    assert_eq!(r.timer_at(0).elapsed_ms(t0 + 8_000), 8_000);
}

#[test]
fn selection_state_machine_cycles() {
    let mut r = Registry::new();
    r.add_task("a".to_string());
    assert_eq!(r.select(None, 10), Ok(()));
    assert_eq!(r.selected_index(), None);
    assert_eq!(r.select(Some(0), 20), Ok(()));
    assert_eq!(r.select(None, 30), Ok(()));
    assert_eq!(r.selected_index(), None);
    assert_eq!(r.timer_at(0), TaskTimer::Stopped { total_ms: 10 });
    assert_eq!(r.selected_name(), None);
}

#[test]
fn rows_render_names_with_elapsed_display() {
    let mut r = Registry::new();
    r.add_task("write".to_string());
    r.add_task("rest".to_string());
    assert_eq!(r.select(Some(0), 0), Ok(()));
    let rows = r.rows(3_661_000);
    assert_eq!(rows.len(), 2);
    assert_eq!(rows[0], ("write".to_string(), "01:01:01".to_string()));
    assert_eq!(rows[1], ("rest".to_string(), "00:00:00".to_string()));
}

#[test]
fn select_now_samples_the_real_clock() {
    let mut r = Registry::new();
    r.add_task("a".to_string());
    let now = match r.select_now(Some(0)) {
        Ok(now) => now,
        Err(e) => panic!("select_now failed: {:?}", e),
    };
    assert_eq!(r.timer_at(0), TaskTimer::Running { start_ms: now, acc_ms: 0 });
    // The sampled instant is a plausible wall-clock reading: after 2020-01-01
    // in milliseconds since the Unix epoch.
    assert!(now > 1_577_836_800_000);
    assert_eq!(r.select_now(Some(1)), Err(RegistryError::IndexOutOfRange));
    assert_eq!(r.selected_index(), Some(0));
}
