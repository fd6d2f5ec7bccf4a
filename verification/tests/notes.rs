use node_sound_core::sound_graph::note::{picked_pitch, Note, NoteSpeed, NoteSpeedType, Octave, Pitch};
use node_sound_core::text::UnknownName;

#[test]
fn pitch_table_has_every_pitch_in_order() {
    let all = Pitch::all();
    assert_eq!(all.len(), 108);
    assert_eq!(all[0], Pitch(Octave::O0, Note::C));
    assert_eq!(all[57], Pitch(Octave::O4, Note::A));
    assert_eq!(all[107], Pitch(Octave::O8, Note::B));
    for (i, p) in all.iter().enumerate() {
        assert_eq!(p.position(), i);
    }
}

#[test]
fn pitch_frequencies_match_the_frequency_table() {
    let all = Pitch::all();
    let freqs = Pitch::all_freq_centihertz();
    assert_eq!(freqs.len(), 108);
    for i in 0..108 {
        assert_eq!(all[i].freq_centihertz(), freqs[i]);
    }
}

#[test]
fn pitch_frequencies_rise_strictly() {
    let freqs = Pitch::all_freq_centihertz();
    for i in 1..108 {
        assert!(freqs[i - 1] < freqs[i]);
    }
}

#[test]
fn known_pitch_frequencies() {
    assert_eq!(Pitch(Octave::O0, Note::C).freq_centihertz(), 1635);
    assert_eq!(Pitch(Octave::O4, Note::A).freq_centihertz(), 44000);
    assert_eq!(Pitch(Octave::O4, Note::C).freq_centihertz(), 26163);
    assert_eq!(Pitch(Octave::O7, Note::DS).freq_centihertz(), 248900);
    assert_eq!(Pitch(Octave::O8, Note::B).freq_centihertz(), 790213);
    assert_eq!(Pitch(Octave::O5, Note::C).freq_centihertz() as f32 / 100.0, 523.25f32);
}

#[test]
fn pitch_defaults() {
    assert_eq!(Pitch::default(), Pitch(Octave::O5, Note::C));
    assert_eq!(Note::default(), Note::C);
    assert_eq!(Octave::default(), Octave::O5);
}

#[test]
fn note_and_octave_names() {
    assert_eq!(Note::CS.to_string(), "C#");
    assert_eq!(Note::B.to_string(), "B");
    assert_eq!(Octave::O0.to_string(), "0");
    assert_eq!(Octave::O8.to_string(), "8");
    let notes: Vec<String> = Note::all().iter().map(|n| n.to_string()).collect();
    assert_eq!(notes, vec!["C", "C#", "D", "D#", "E", "F", "F#", "G", "G#", "A", "A#", "B"]);
    assert_eq!(Octave::all().len(), 9);
}

#[test]
fn note_speed_beats() {
    assert_eq!(NoteSpeed::Quarter.beats_in_96ths(), 96);
    assert_eq!(NoteSpeed::Whole.beats_in_96ths(), 384);
    assert_eq!(NoteSpeed::WholeTriplet.beats_in_96ths(), 256);
    assert_eq!(NoteSpeed::SixtyFourthDotted.beats_in_96ths(), 9);
    assert_eq!(NoteSpeed::SixteenthTriplet.beats_in_96ths() as f32 / 96.0, 0.5f32 / 3.0);
    assert_eq!(NoteSpeed::EighthDotted.beats_in_96ths() as f32 / 96.0, 0.75f32);
}

#[test]
fn note_speed_families_line_up() {
    let normal = NoteSpeed::all_normal();
    let dotted = NoteSpeed::all_dotted();
    let triplet = NoteSpeed::all_triplet();
    for k in 0..7 {
        assert_eq!(2 * dotted[k].beats_in_96ths(), 3 * normal[k].beats_in_96ths());
        assert_eq!(3 * triplet[k].beats_in_96ths(), 2 * normal[k].beats_in_96ths());
        if k < 6 {
            assert_eq!(normal[k].beats_in_96ths(), 2 * normal[k + 1].beats_in_96ths());
        }
    }
}

#[test]
fn note_speed_families_partition_all_lengths() {
    let all = NoteSpeedType::Any.get_beats_type();
    assert_eq!(all.len(), 21);
    assert_eq!(all, NoteSpeed::all());
    for s in all.iter() {
        let count = [NoteSpeedType::Normal, NoteSpeedType::Dotted, NoteSpeedType::Triplet]
            .iter()
            .filter(|t| t.get_beats_type().contains(s))
            .count();
        assert_eq!(count, 1);
    }
    assert_eq!(NoteSpeedType::Normal.get_beats_type()[2], NoteSpeed::Quarter);
    assert_eq!(NoteSpeedType::Triplet.get_beats_type()[0], NoteSpeed::WholeTriplet);
}

#[test]
fn note_speed_names_round_trip() {
    for s in NoteSpeed::all() {
        assert_eq!(NoteSpeed::parse(&s.to_string()), Ok(s));
        assert_eq!(s.to_string().parse::<NoteSpeed>().ok(), Some(s));
    }
    for t in NoteSpeedType::all() {
        assert_eq!(NoteSpeedType::parse(&t.to_string()), Ok(t));
        assert_eq!(t.to_string().parse::<NoteSpeedType>().ok(), Some(t));
    }
    assert_eq!(NoteSpeed::Quarter.to_string(), "1/4");
    assert_eq!(NoteSpeed::HalfDotted.to_string(), "1/2.");
    assert_eq!(NoteSpeed::EighthTriplet.to_string(), "1/8 triplet");
    assert_eq!(NoteSpeedType::Dotted.to_string(), "Dotted");
}

#[test]
fn note_speed_parse_refuses_unknown_text() {
    assert_eq!(NoteSpeed::parse("1/3"), Err(UnknownName));
    assert_eq!(NoteSpeed::parse(""), Err(UnknownName));
    assert_eq!(NoteSpeed::parse("1/4 "), Err(UnknownName));
    assert_eq!(NoteSpeedType::parse("dotted"), Err(UnknownName));
    let e = "Whole".parse::<NoteSpeed>().unwrap_err();
    assert_eq!(e.kind(), std::io::ErrorKind::Other);
    assert_eq!(e.to_string(), "Incorrect from_str value");
    let e = "dotted".parse::<NoteSpeedType>().unwrap_err();
    assert_eq!(e.kind(), std::io::ErrorKind::Other);
    assert_eq!(e.to_string(), "Incorrect from_str value");
}

#[test]
fn note_speed_defaults() {
    assert_eq!(NoteSpeed::default(), NoteSpeed::Quarter);
    assert_eq!(NoteSpeedType::default(), NoteSpeedType::Normal);
}

#[test]
fn picking_an_octave_or_a_note() {
    let current = Pitch(Octave::O4, Note::A);
    assert_eq!(picked_pitch(current, None, None), None);
    assert_eq!(picked_pitch(current, Some(Octave::O2), None), Some(Pitch(Octave::O2, Note::A)));
    assert_eq!(picked_pitch(current, None, Some(Note::CS)), Some(Pitch(Octave::O4, Note::CS)));
    assert_eq!(picked_pitch(current, Some(Octave::O6), Some(Note::G)), Some(Pitch(Octave::O6, Note::G)));
    // The new value is the picked pitch's frequency: A2 is 110 Hz.
    assert_eq!(picked_pitch(current, Some(Octave::O2), None).unwrap().freq_centihertz(), 11000);
}
