use throbberous::{BarConfig, BarMode, BarState, Color};

fn determinate(state: &BarState) -> (u64, u64) {
    match state.mode {
        BarMode::Determinate { current, total } => (current, total),
        BarMode::Indeterminate { .. } => panic!("not a determinate bar"),
    }
}

#[test]
fn four_step_bar_reaches_complete() {
    let mut bar = BarState::new_determinate(4);
    bar.inc(1);
    bar.inc(1);
    bar.inc(1);
    assert_eq!(determinate(&bar), (3, 4));
    assert!(!bar.finished);
    assert_eq!(bar.message, "Quarter done");
    bar.inc(1);
    assert_eq!(determinate(&bar), (4, 4));
    assert!(bar.finished);
    assert_eq!(bar.message, "Quarter done");
}

#[test]
fn message_follows_thresholds_when_empty() {
    let mut bar = BarState::new_determinate(4);
    bar.inc(3);
    assert_eq!(bar.message, "Almost there...");
    let mut bar = BarState::new_determinate(4);
    bar.inc(4);
    assert_eq!(bar.message, "Complete!");
    assert!(bar.finished);
    let mut bar = BarState::new_determinate(4);
    bar.inc(1);
    assert_eq!(bar.message, "Quarter done");
    let mut bar = BarState::new_determinate(100);
    bar.inc(24);
    assert_eq!(bar.message, "Working...");
}

#[test]
fn inc_to_half_says_halfway_done() {
    let mut bar = BarState::new_determinate(10);
    bar.inc(5);
    assert_eq!(bar.message, "Halfway done");
}

#[test]
fn explicit_message_survives_progress() {
    let mut bar = BarState::new_determinate(10);
    bar.inc(5);
    assert_eq!(bar.message, "Halfway done");
    bar.set_message(String::from("x"));
    bar.inc(3);
    assert_eq!(bar.message, "x");
    bar.set_position(10);
    assert_eq!(bar.message, "x");
    assert!(bar.finished);
}

#[test]
fn threshold_ties_take_higher_bucket() {
    let mut bar = BarState::new_determinate(4);
    bar.set_position(3);
    assert_eq!(bar.message, "Almost there...");
    let mut bar = BarState::new_determinate(8);
    bar.set_position(2);
    assert_eq!(bar.message, "Quarter done");
}

#[test]
fn increments_within_total_sum_up() {
    let mut bar = BarState::new_determinate(20);
    let deltas = [3u64, 0, 7, 2, 8];
    let mut sum = 0u64;
    for d in deltas {
        bar.inc(d);
        sum += d;
        assert_eq!(determinate(&bar), (sum, 20));
        assert_eq!(bar.finished, sum == 20);
    }
    assert!(bar.finished);
}

#[test]
fn inc_clamps_at_total_and_then_is_ignored() {
    let mut bar = BarState::new_determinate(5);
    bar.inc(3);
    bar.inc(10);
    assert_eq!(determinate(&bar), (5, 5));
    assert!(bar.finished);
    bar.inc(1);
    assert_eq!(determinate(&bar), (5, 5));
}

#[test]
fn inc_near_the_largest_value_saturates() {
    let mut bar = BarState::new_determinate(u64::MAX);
    bar.set_position(u64::MAX - 1);
    bar.inc(u64::MAX);
    assert_eq!(determinate(&bar), (u64::MAX, u64::MAX));
    assert!(bar.finished);
}

#[test]
fn set_position_twice_changes_nothing_more() {
    let mut once = BarState::new_determinate(10);
    once.set_position(6);
    let mut twice = BarState::new_determinate(10);
    twice.set_position(6);
    twice.set_position(6);
    assert_eq!(once.mode, twice.mode);
    assert_eq!(once.finished, twice.finished);
    assert_eq!(once.message, twice.message);
    assert_eq!(once.color_index, twice.color_index);
}

#[test]
fn set_position_clamps_to_total() {
    let mut bar = BarState::new_determinate(10);
    bar.set_position(25);
    assert_eq!(determinate(&bar), (10, 10));
    assert!(bar.finished);
    assert_eq!(bar.message, "Complete!");
}

#[test]
fn zero_total_renders_full() {
    let bar = BarState::new_determinate(0);
    assert_eq!(bar.render(4), "[====] 100% ");
}

#[test]
fn zero_total_finishes_on_first_inc() {
    let mut bar = BarState::new_determinate(0);
    bar.inc(0);
    assert!(bar.finished);
    assert_eq!(determinate(&bar), (0, 0));
    assert_eq!(bar.message, "Complete!");
}

#[test]
fn zero_total_set_position_says_complete() {
    let mut bar = BarState::new_determinate(0);
    bar.set_position(7);
    assert_eq!(determinate(&bar), (0, 0));
    assert!(bar.finished);
    assert_eq!(bar.message, "Complete!");
}

#[test]
fn determinate_render_rounds() {
    let mut bar = BarState::new_determinate(3);
    bar.set_message(String::from("go"));
    bar.inc(1);
    assert_eq!(bar.render(10), "[===       ] 33% go");
    let mut bar = BarState::new_determinate(8);
    bar.set_message(String::from("m"));
    bar.inc(1);
    assert_eq!(bar.render(4), "[=   ] 13% m");
    let bar = BarState::new_determinate(7);
    assert_eq!(bar.render(0), "[] 0% ");
}

#[test]
fn finish_completes_a_determinate_bar() {
    let mut bar = BarState::new_determinate(9);
    bar.inc(2);
    bar.finish();
    assert_eq!(determinate(&bar), (9, 9));
    assert!(bar.finished);
    bar.finish_with_message(String::from("all done"));
    assert_eq!(bar.message, "all done");
}

#[test]
fn finish_stops_an_indeterminate_bar() {
    let mut bar = BarState::new_indeterminate(String::from("Loading"));
    bar.finish_with_message(String::from("Loaded"));
    assert!(bar.finished);
    assert_eq!(bar.message, "Loaded");
    assert_eq!(bar.mode, BarMode::Indeterminate { position: 0, direction: 1 });
    let config = BarConfig::default();
    assert!(!bar.tick(&config));
}

#[test]
fn bounce_stays_on_track() {
    for width in [0usize, 1, 2, 3, 4, 5, 8, 40] {
        let config = BarConfig { colors: None, color_cycle_delay: 600, width };
        let limit = width - width / 4;
        let mut bar = BarState::new_indeterminate(String::new());
        let mut prev = 0usize;
        for _ in 0..200 {
            assert!(bar.tick(&config));
            match bar.mode {
                BarMode::Indeterminate { position, direction } => {
                    assert!(position <= limit);
                    assert!(position.abs_diff(prev) <= 1);
                    if position == limit {
                        assert_eq!(direction, -1);
                    }
                    if position == 0 && limit > 0 {
                        assert_eq!(direction, 1);
                    }
                    prev = position;
                }
                BarMode::Determinate { .. } => panic!("mode changed"),
            }
        }
    }
}

#[test]
fn bounce_turns_at_both_ends() {
    let config = BarConfig { colors: None, color_cycle_delay: 600, width: 8 };
    let mut bar = BarState::new_indeterminate(String::new());
    let mut seen = Vec::new();
    for _ in 0..14 {
        bar.tick(&config);
        if let BarMode::Indeterminate { position, .. } = bar.mode {
            seen.push(position);
        }
    }
    assert_eq!(seen, vec![1, 2, 3, 4, 5, 6, 5, 4, 3, 2, 1, 0, 1, 2]);
}

#[test]
fn indeterminate_render_draws_block() {
    let mut bar = BarState::new_indeterminate(String::from("wait"));
    assert_eq!(bar.render(8), "[===     ] wait");
    let config = BarConfig { colors: None, color_cycle_delay: 600, width: 8 };
    for _ in 0..6 {
        bar.tick(&config);
    }
    assert_eq!(bar.render(8), "[      ==] wait");
}

#[test]
fn determinate_bar_does_not_animate() {
    let mut bar = BarState::new_determinate(3);
    assert!(!bar.tick(&BarConfig::default()));
    assert_eq!(determinate(&bar), (0, 3));
}

#[test]
fn redraw_cycles_colors_until_last_frame() {
    let config = BarConfig::default();
    let mut bar = BarState::new_determinate(2);
    let f = bar.redraw(&config);
    assert_eq!(f.color, Some(Color::Green));
    assert!(!f.last);
    assert_eq!(f.text, "[                                        ] 0% ");
    for _ in 0..3 {
        bar.redraw(&config);
    }
    assert_eq!(bar.color_index, 0);
    bar.inc(1);
    assert_eq!(bar.redraw(&config).color, Some(Color::Green));
    assert_eq!(bar.redraw(&config).color, Some(Color::Yellow));
    bar.finish();
    let last = bar.redraw(&config);
    assert!(last.last);
    assert_eq!(last.color, Some(Color::Magenta));
    assert_eq!(bar.color_index, 2);
    assert_eq!(
        last.text,
        "[========================================] 100% Halfway done"
    );
}

#[test]
fn redraw_without_palette_is_plain() {
    let config = BarConfig::no_colors();
    let mut bar = BarState::new_determinate(2);
    let f = bar.redraw(&config);
    assert_eq!(f.color, None);
    assert_eq!(bar.color_index, 0);
    let empty = BarConfig { colors: Some(Vec::new()), color_cycle_delay: 600, width: 4 };
    let f = bar.redraw(&empty);
    assert_eq!(f.color, Some(Color::White));
    assert_eq!(bar.color_index, 0);
}

#[test]
fn default_bar_config() {
    let c = BarConfig::default();
    assert_eq!(
        c.colors,
        Some(vec![Color::Green, Color::Yellow, Color::Magenta, Color::Cyan])
    );
    assert_eq!(c.color_cycle_delay, 600);
    assert_eq!(c.width, 40);
    let p = BarConfig::no_colors();
    assert_eq!(p.colors, None);
    assert_eq!(p.width, 40);
}
