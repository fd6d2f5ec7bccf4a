use node_sound_core::sound_graph::themes::{AppTheme, Rgb};
use node_sound_core::sounds::eq::{ensure_channel_state, FilterType};
use node_sound_core::text::{same_text, UnknownName};

#[test]
fn themes_are_listed_once_with_distinct_names() {
    let all = AppTheme::all();
    assert_eq!(all.len(), 9);
    for i in 0..all.len() {
        for j in 0..all.len() {
            if i != j {
                assert_ne!(all[i], all[j]);
                assert_ne!(all[i].name(), all[j].name());
            }
        }
    }
    assert_eq!(all[0], AppTheme::Light);
    assert_eq!(AppTheme::Purple.name(), "Purple");
}

#[test]
fn default_theme_is_dark() {
    assert_eq!(AppTheme::default(), AppTheme::Dark);
}

#[test]
fn filter_type_names_round_trip() {
    let all = FilterType::all();
    assert_eq!(all.len(), 7);
    for f in all {
        assert_eq!(FilterType::parse(&f.to_string()), Ok(f));
        assert_eq!(f.to_string().parse::<FilterType>().ok(), Some(f));
    }
    assert_eq!(FilterType::HighShelf.to_string(), "HighShelf");
    assert_eq!(FilterType::parse("lowpass"), Err(UnknownName));
    let e = "lowpass".parse::<FilterType>().unwrap_err();
    assert_eq!(e.kind(), std::io::ErrorKind::Other);
    assert_eq!(e.to_string(), "Incorrect from_str value");
}

#[test]
fn filter_state_slots_grow_on_demand() {
    let mut states: Vec<(i32, i32)> = vec![(1, 2)];
    ensure_channel_state(&mut states, 3, (0, 0));
    assert_eq!(states, vec![(1, 2), (0, 0), (0, 0), (0, 0)]);
    ensure_channel_state(&mut states, 1, (9, 9));
    assert_eq!(states.len(), 4);
}

#[test]
fn same_text_compares_characters() {
    assert!(same_text("1/4", "1/4"));
    assert!(!same_text("1/4", "1/4."));
    assert!(!same_text("a", "b"));
    assert!(same_text("", ""));
}

#[test]
fn theme_palettes() {
    assert!(AppTheme::Light.palette().is_none());
    assert!(AppTheme::Dark.palette().is_none());
    assert!(AppTheme::Light.is_light());
    assert!(!AppTheme::Red.is_light());
    let blue = AppTheme::Blue.palette().unwrap();
    assert_eq!(blue.text, Rgb { r: 220, g: 220, b: 255 });
    assert_eq!(blue.window_stroke, Rgb { r: 50, g: 70, b: 120 });
    assert_eq!(blue.noninteractive_bg_stroke, Rgb { r: 50, g: 70, b: 100 });
    let red = AppTheme::Red.palette().unwrap();
    assert_eq!(red.error_fg, Rgb { r: 255, g: 120, b: 120 });
    for t in AppTheme::all() {
        assert_eq!(t.palette().is_none(), t == AppTheme::Light || t == AppTheme::Dark);
    }
}
