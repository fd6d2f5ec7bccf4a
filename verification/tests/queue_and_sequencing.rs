use node_sound_core::sound_map::{OutOfBounds, SoundQueue};
use node_sound_core::sounds::after::{After, AfterAction, AfterState};

#[test]
fn queue_starts_with_silent_entries() {
    let q: SoundQueue<&str, u8> = SoundQueue::new("silence", 0);
    assert_eq!(q.sound_queue_len(), 1);
    assert_eq!(q.osc_queue_len(), 1);
    assert_eq!(q.clone_sound(0), Ok("silence"));
    assert_eq!(q.clone_osc(0), Ok(0));
}

#[test]
fn queue_reads_back_what_was_pushed() {
    let mut q: SoundQueue<String, u8> = SoundQueue::new("silence".to_string(), 0);
    let a = q.push_sound("a".to_string());
    let b = q.push_sound("b".to_string());
    let o = q.push_osc(7);
    assert_eq!((a, b, o), (1, 2, 1));
    assert_eq!(q.clone_sound(a), Ok("a".to_string()));
    assert_eq!(q.clone_sound(b), Ok("b".to_string()));
    assert_eq!(q.clone_sound(0), Ok("silence".to_string()));
    assert_eq!(q.clone_osc(o), Ok(7));
    assert_eq!(q.sound_queue_len(), 3);
}

#[test]
fn queue_refuses_positions_past_the_end() {
    let mut q: SoundQueue<u32, u32> = SoundQueue::new(0, 0);
    q.push_sound(5);
    assert_eq!(q.clone_sound(2), Err(OutOfBounds { index: 2, len: 2 }));
    assert_eq!(q.clone_osc(1), Err(OutOfBounds { index: 1, len: 1 }));
}

#[test]
fn queue_clear_leaves_only_silence() {
    let mut q: SoundQueue<u32, u32> = SoundQueue::new(0, 0);
    q.push_sound(5);
    q.push_osc(6);
    q.clear(10, 11);
    assert_eq!(q.sound_queue_len(), 1);
    assert_eq!(q.osc_queue_len(), 1);
    assert_eq!(q.clone_sound(0), Ok(10));
    assert_eq!(q.clone_osc(0), Ok(11));
}

#[test]
fn after_plays_first_then_second_then_stops() {
    let a = After::new(1, 2);
    assert_eq!(a.current, AfterState::PlayingFirst);
    let mut state = a.current;
    assert_eq!(state.action(), AfterAction::AskFirst);
    assert_eq!(state.ran_dry(), AfterAction::AskSecond);
    assert_eq!(state, AfterState::PlayingSecond);
    assert_eq!(state.action(), AfterAction::AskSecond);
    assert_eq!(state.ran_dry(), AfterAction::Silence);
    assert_eq!(state, AfterState::Finished);
    assert_eq!(state.action(), AfterAction::Silence);
    assert_eq!(state.ran_dry(), AfterAction::Silence);
    assert_eq!(state, AfterState::Finished);
}

#[test]
fn after_never_goes_back() {
    // Each ask: did the source asked run dry?
    let outcomes = [false, false, true, false, false, true, false, true];
    let mut state = AfterState::PlayingFirst;
    let mut asked = vec![];
    for dry in outcomes {
        asked.push(state.action());
        if dry {
            state.ran_dry();
        }
    }
    asked.push(state.action());
    assert_eq!(
        asked,
        vec![
            AfterAction::AskFirst,
            AfterAction::AskFirst,
            AfterAction::AskFirst,
            AfterAction::AskSecond,
            AfterAction::AskSecond,
            AfterAction::AskSecond,
            AfterAction::Silence,
            AfterAction::Silence,
            AfterAction::Silence,
        ]
    );
    assert_eq!(state, AfterState::Finished);
}

#[test]
fn push_then_count_and_read() {
    let mut q: SoundQueue<i32, i32> = SoundQueue::new(0, 0);
    let n = q.sound_queue_len();
    assert_eq!(q.push_sound(7), n);
    assert_eq!(q.sound_queue_len(), n + 1);
    assert_eq!(q.clone_sound(n), Ok(7));
    assert_eq!(q.clone_sound(0), Ok(0));
    assert_eq!(q.osc_queue_len(), 1);
}
