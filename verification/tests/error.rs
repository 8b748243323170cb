use fmod_studio::FmodError;
use fmod_studio::ToError;

#[test]
fn success_code_translates_to_ok() {
    assert_eq!(FmodError::from_result(0), Ok(()));
}

#[test]
fn every_error_code_round_trips() {
    for code in 1u32..=81 {
        let err = FmodError::from_result(code).unwrap_err();
        assert_eq!(err.to_fmod_result(), code);
    }
}

#[test]
fn error_codes_are_distinct() {
    let mut seen = Vec::new();
    for code in 1u32..=81 {
        let err = FmodError::from_result(code).unwrap_err();
        assert!(!seen.contains(&err));
        seen.push(err);
    }
    assert_eq!(seen.len(), 81);
}

#[test]
fn known_codes_map_to_expected_kinds() {
    assert_eq!(FmodError::from_result(1), Err(FmodError::BadCommand));
    assert_eq!(FmodError::from_result(18), Err(FmodError::FileNotFound));
    assert_eq!(FmodError::from_result(30), Err(FmodError::InvalidHandle));
    assert_eq!(FmodError::from_result(74), Err(FmodError::EventNotFound));
    assert_eq!(FmodError::from_result(77), Err(FmodError::InvalidString));
    assert_eq!(FmodError::from_result(81), Err(FmodError::TooManySamples));
}

#[test]
fn expected_kinds_map_back_to_codes() {
    assert_eq!(FmodError::BadCommand.to_fmod_result(), 1);
    assert_eq!(FmodError::FileNotFound.to_fmod_result(), 18);
    assert_eq!(FmodError::InvalidHandle.to_fmod_result(), 30);
    assert_eq!(FmodError::StudioUninitialized.to_fmod_result(), 75);
    assert_eq!(FmodError::TooManySamples.to_fmod_result(), 81);
}

#[test]
fn status_codes_translate_through_the_trait() {
    assert_eq!(0u32.to_err(), Ok(()));
    assert_eq!(18u32.to_err(), Err(FmodError::FileNotFound));
    assert_eq!(30u32.to_err(), Err(FmodError::InvalidHandle));
}

#[test]
fn descriptions_are_stable_text() {
    assert_eq!(FmodError::FileNotFound.description(), "File not found.");
    assert_eq!(
        FmodError::InvalidHandle.description(),
        "An invalid object handle was used."
    );
    assert_eq!(
        FmodError::InvalidString.description(),
        "An invalid string was passed to this function."
    );
    assert_eq!(
        FmodError::EventNotFound.description(),
        "The requested event, bus or vca could not be found."
    );
}

#[test]
fn every_kind_has_a_nonempty_description() {
    for code in 1u32..=81 {
        let err = FmodError::from_result(code).unwrap_err();
        assert!(!err.description().is_empty());
    }
}
