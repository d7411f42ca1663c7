use scale_generator::Mode;
use scale_generator::Scale;
use scale_generator::error::Error;
use scale_generator::notes::Letter;
use scale_generator::notes::Note;

const ALL_MODES: [Mode; 7] = [
    Mode::Ionian,
    Mode::Dorian,
    Mode::Phrygian,
    Mode::Lydian,
    Mode::Mixolydian,
    Mode::Aeolian,
    Mode::Locrian,
];

#[test]
fn test_parse_render_round_trip_upper() {
    for letter in ["A", "B", "C", "D", "E", "F", "G"] {
        for accidental in ["", "#", "b"] {
            let token = format!("{}{}", letter, accidental);
            let note = Note::from_string(&token).unwrap();
            assert_eq!(note.as_string(), token);
        }
    }
}

#[test]
fn test_parse_render_normalizes_case() {
    assert_eq!(Note::from_string("gb").unwrap().as_string(), "Gb");
    assert_eq!(Note::from_string("c#").unwrap().as_string(), "C#");
    assert_eq!(Note::from_string("e").unwrap().as_string(), "E");
}

#[test]
fn test_advance_not_additive_in_letter() {
    let note = Note::new(Letter::A, 0);
    let two_steps = note.next(1).next(1);
    let one_step = note.next(2);
    assert_eq!(two_steps.as_string(), "Cb");
    assert_eq!(one_step.as_string(), "B");
}

#[test]
fn test_scale_visits_distinct_letters() {
    for mode in ALL_MODES {
        let scale = Scale::new(Note::new(Letter::B, -1), mode);
        let notes = scale.enumerate();
        let mut letters: Vec<char> = notes.iter().map(|n| n.chars().next().unwrap()).collect();
        letters.sort();
        letters.dedup();
        assert_eq!(letters.len(), 7);
    }
}

#[test]
fn test_enumerate_length_and_tonic_first() {
    let tonics = [
        Note::new(Letter::A, 0),
        Note::new(Letter::B, -1),
        Note::new(Letter::C, 0),
        Note::new(Letter::D, 1),
        Note::new(Letter::E, -1),
        Note::new(Letter::F, 1),
        Note::new(Letter::G, 0),
    ];
    for mode in ALL_MODES {
        for tonic in tonics {
            let notes = Scale::new(tonic, mode).enumerate();
            assert_eq!(notes.len(), 7);
            assert_eq!(notes[0], tonic.as_string());
        }
    }
}

#[test]
fn test_parse_rejects_invalid_letter() {
    assert_eq!(Note::from_string("H"), Err("Invalid tonic note"));
}

#[test]
fn test_parse_rejects_trailing_characters() {
    assert_eq!(Note::from_string("A##"), Err("Invalid tonic note"));
    assert_eq!(Note::from_string("Cbb"), Err("Invalid tonic note"));
}

#[test]
fn test_double_accidentals_render() {
    assert_eq!(Note::new(Letter::C, 2).as_string(), "C##");
    assert_eq!(Note::new(Letter::D, -3).as_string(), "Dbbb");
}

#[test]
fn test_mode_names() {
    assert_eq!(Mode::Ionian.name(), "Major");
    assert_eq!(Mode::Aeolian.name(), "Minor");
    assert_eq!(Mode::Mixolydian.name(), "Mixolydian");
}

#[test]
fn test_scale_name() {
    let scale = Scale::new(Note::new(Letter::F, 1), Mode::Aeolian);
    assert_eq!(scale.name(), "F# Minor");
}

#[test]
fn test_intervals_sum_to_twelve() {
    for mode in ALL_MODES {
        let intervals = mode.intervals();
        assert_eq!(intervals.iter().sum::<i32>(), 12);
        assert_eq!(intervals.len(), 7);
    }
}

#[test]
fn test_mode_from_name() {
    assert_eq!(Mode::from_name("maj"), Some(Mode::Ionian));
    assert_eq!(Mode::from_name("major"), Some(Mode::Ionian));
    assert_eq!(Mode::from_name("ionian"), Some(Mode::Ionian));
    assert_eq!(Mode::from_name("dorian"), Some(Mode::Dorian));
    assert_eq!(Mode::from_name("phrygian"), Some(Mode::Phrygian));
    assert_eq!(Mode::from_name("lydian"), Some(Mode::Lydian));
    assert_eq!(Mode::from_name("mixolydian"), Some(Mode::Mixolydian));
    assert_eq!(Mode::from_name("min"), Some(Mode::Aeolian));
    assert_eq!(Mode::from_name("minor"), Some(Mode::Aeolian));
    assert_eq!(Mode::from_name("aeolian"), Some(Mode::Aeolian));
    assert_eq!(Mode::from_name("locrian"), Some(Mode::Locrian));
    assert_eq!(Mode::from_name("blues"), None);
    assert_eq!(Mode::from_name(""), None);
}

#[test]
fn test_error_variants_carry_messages() {
    let tonic_err = Error::InvalidTonic("bad tonic");
    let interval_err = Error::InvalidIntervals("bad interval");
    assert!(matches!(tonic_err, Error::InvalidTonic("bad tonic")));
    assert!(matches!(interval_err, Error::InvalidIntervals("bad interval")));
}
