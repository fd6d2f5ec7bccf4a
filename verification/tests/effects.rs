use std::collections::VecDeque;

use node_sound_core::nodes::weird_node::{RuleSwitch, RULE_CHANGE_PERIOD};
use node_sound_core::sound_graph::graph::{button_clicked, output_node_id, shows_stop, ActiveNodeState};
use node_sound_core::sound_graph::note::{NoteSpeed, NoteSpeedType};
use node_sound_core::sounds::automated_bpm_sync::selected_note_speed;
use node_sound_core::sounds::automated_delay_repeat::{delay_line_len, feed_delay_line, tap_count, tap_index};
use node_sound_core::sounds::automated_hold::hold_tick;
use node_sound_core::sounds::avg::push_to_window;
use node_sound_core::sounds::delay_repeat::{delay_repeat_tap_index, shift_in};

#[test]
fn delay_line_keeps_its_length_and_shifts() {
    let mut line: VecDeque<i32> = VecDeque::new();
    feed_delay_line(&mut line, 3, 0, 7);
    assert_eq!(line, VecDeque::from(vec![7, 0, 0]));
    feed_delay_line(&mut line, 3, 0, 8);
    assert_eq!(line, VecDeque::from(vec![8, 7, 0]));
    feed_delay_line(&mut line, 2, 0, 9);
    assert_eq!(line, VecDeque::from(vec![9, 8]));
    feed_delay_line(&mut line, 0, 0, 1);
    assert!(line.is_empty());
}

#[test]
fn shift_in_drops_the_oldest() {
    let mut line: VecDeque<i32> = VecDeque::from(vec![1, 2, 3]);
    shift_in(&mut line, 0);
    assert_eq!(line, VecDeque::from(vec![0, 1, 2]));
    let mut empty: VecDeque<i32> = VecDeque::new();
    shift_in(&mut empty, 4);
    assert_eq!(empty, VecDeque::from(vec![4]));
}

#[test]
fn taps_are_evenly_spaced_and_in_bounds() {
    assert_eq!(tap_index(48000, 4, 0), 0);
    assert_eq!(tap_index(48000, 4, 1), 12000);
    assert_eq!(tap_index(48000, 4, 3), 36000);
    assert_eq!(tap_index(3, 2, 1), 1);
    assert_eq!(tap_index(1, 5, 4), 0);
    for points in 1..20 {
        for point in 0..points {
            assert!(tap_index(10, points, point) < 10);
        }
    }
    assert_eq!(tap_count(0), 1);
    assert_eq!(tap_count(6), 6);
    assert_eq!(delay_line_len(0, 44100), 44100);
    assert_eq!(delay_line_len(2, 44100), 88200);
}

#[test]
fn delay_repeat_taps_skip_the_last_hundred() {
    assert_eq!(delay_repeat_tap_index(1100, 4, 0), 0);
    assert_eq!(delay_repeat_tap_index(1100, 4, 1), 250);
    assert_eq!(delay_repeat_tap_index(1100, 4, 3), 750);
    assert_eq!(delay_repeat_tap_index(100, 3, 2), 0);
}

#[test]
fn moving_window_stays_bounded() {
    let mut w: VecDeque<i32> = VecDeque::new();
    for i in 0..10 {
        push_to_window(&mut w, 3, i);
        assert!(w.len() <= 3);
    }
    assert_eq!(w, VecDeque::from(vec![7, 8, 9]));
    let mut z: VecDeque<i32> = VecDeque::new();
    push_to_window(&mut z, 0, 1);
    assert!(z.is_empty());
}

#[test]
fn hold_counter_captures_at_threshold() {
    assert_eq!(hold_tick(0, 3), (1, false));
    assert_eq!(hold_tick(1, 3), (2, false));
    assert_eq!(hold_tick(2, 3), (0, true));
    assert_eq!(hold_tick(0, 0), (0, true));
    assert_eq!(hold_tick(u32::MAX - 1, u32::MAX), (0, true));
}

#[test]
fn bpm_sync_picks_the_chosen_length() {
    assert_eq!(selected_note_speed(&NoteSpeedType::Normal, 0), NoteSpeed::Whole);
    assert_eq!(selected_note_speed(&NoteSpeedType::Dotted, 6), NoteSpeed::SixtyFourthDotted);
    assert_eq!(selected_note_speed(&NoteSpeedType::Triplet, 7), NoteSpeed::Quarter);
    assert_eq!(selected_note_speed(&NoteSpeedType::Any, 7), NoteSpeed::Quarter);
    assert_eq!(selected_note_speed(&NoteSpeedType::Any, 6), NoteSpeed::QuarterTriplet);
}

#[test]
fn weird_rules_switch_after_the_period() {
    let mut r = RuleSwitch::new();
    assert_eq!(r.advance_with(0, 3, 3, 2), 0);
    assert_eq!(r.rule_change_counter, [3, 0]);
    r.rule_change_counter[0] = RULE_CHANGE_PERIOD;
    assert_eq!(r.advance_with(0, 3, 1, 2), 2);
    assert_eq!(r.rule_change_counter, [0, 0]);
    r.rule_change_counter[0] = RULE_CHANGE_PERIOD - 1;
    assert_eq!(r.advance_with(0, 3, 2, 2), 1);
    assert_eq!(r.current_rule, [1, 0]);
    assert_eq!(r.advance_with(1, 3, 1, 1), 0);
    assert_eq!(r.rule_change_counter, [0, 1]);
}

#[test]
fn weird_rules_stay_valid_with_random_draws() {
    let mut r = RuleSwitch::new();
    for _ in 0..100 {
        let rule = r.advance(1, 3);
        assert!(rule < 3);
    }
    // Each draw counts one to three samples; a hundred draws of one would
    // leave the counter at exactly one hundred.
    assert!(r.rule_change_counter[1] > 100 && r.rule_change_counter[1] <= 300);
    assert_eq!(r.current_rule[0], 0);
    let mut changed = false;
    for _ in 0..10000 {
        let rule = r.advance(0, 3);
        assert!(rule < 3);
        if rule != 0 {
            changed = true;
        }
    }
    assert!(changed);
}

#[test]
fn output_node_is_the_last_labelled_output() {
    let nodes: Vec<(u32, String)> = vec![
        (1, "Sine Wave".to_string()),
        (2, "Output".to_string()),
        (3, "Output".to_string()),
        (4, "Wrapper".to_string()),
    ];
    assert_eq!(output_node_id(&nodes), Some(3));
    let none: Vec<(u32, String)> = vec![(1, "Outputs".to_string())];
    assert_eq!(output_node_id(&none), None);
    let empty: Vec<(u32, String)> = vec![];
    assert_eq!(output_node_id(&empty), None);
}

#[test]
fn playing_state() {
    assert!(ActiveNodeState::PlayingNode(3u32).is_playing());
    assert!(!ActiveNodeState::RecordingNode(3u32).is_playing());
    assert!(!ActiveNodeState::<u32>::NoNode.is_playing());
    assert!(!ActiveNodeState::<u32>::default().is_playing());
}

#[test]
fn play_and_stop_buttons() {
    let playing = ActiveNodeState::PlayingNode(3u32);
    assert!(shows_stop(&playing, &3));
    assert!(!shows_stop(&playing, &4));
    assert!(!shows_stop(&ActiveNodeState::RecordingNode(3u32), &3));
    // Stop on the node being played.
    assert!(matches!(button_clicked(&playing, 3), Some(ActiveNodeState::NoNode)));
    // Play on another node while one plays: nothing happens.
    assert!(button_clicked(&playing, 4).is_none());
    assert!(button_clicked(&ActiveNodeState::RecordingNode(3u32), 3).is_none());
    // Play while no node is active.
    assert!(matches!(button_clicked(&ActiveNodeState::NoNode, 4u32), Some(ActiveNodeState::PlayingNode(4))));
}

#[test]
fn active_node_states_compare() {
    assert_eq!(ActiveNodeState::PlayingNode(2u32), ActiveNodeState::PlayingNode(2u32));
    assert_ne!(ActiveNodeState::PlayingNode(2u32), ActiveNodeState::RecordingNode(2u32));
    assert_eq!(ActiveNodeState::<u32>::default(), ActiveNodeState::NoNode);
}
