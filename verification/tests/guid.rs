use fmod_studio::FmodError;
use fmod_studio::Guid;

const SAMPLE: &str = "{9d348364-8145-4724-b337-5bc9b2afe60f}";

#[test]
fn canonical_string_parses_to_its_big_endian_halves() {
    let g = Guid::parse(SAMPLE).unwrap();
    assert_eq!(g.hi, 0x9d34836481454724);
    assert_eq!(g.lo, 0xb3375bc9b2afe60f);
}

#[test]
fn parsing_twice_yields_equal_identifiers() {
    let a = Guid::parse(SAMPLE).unwrap();
    let b = Guid::parse(SAMPLE).unwrap();
    assert_eq!(a, b);
    assert_eq!(a.partial_cmp(&b), Some(std::cmp::Ordering::Equal));
}

#[test]
fn default_is_the_all_zero_sentinel() {
    let z = Guid::default();
    assert_eq!(z.hi, 0);
    assert_eq!(z.lo, 0);
    let all_zero = Guid::parse("{00000000-0000-0000-0000-000000000000}").unwrap();
    assert_eq!(z, all_zero);
}

#[test]
fn default_precedes_parsed_identifiers() {
    let z = Guid::default();
    let samples = [
        SAMPLE,
        "{00000000-0000-0000-0000-000000000001}",
        "{ffffffff-ffff-ffff-ffff-ffffffffffff}",
        "{01234567-89ab-cdef-0123-456789abcdef}",
    ];
    for s in samples {
        let g = Guid::parse(s).unwrap();
        assert!(z <= g);
        assert!(z < g || z == g);
    }
}

#[test]
fn order_is_byte_wise_lexicographic() {
    let a = Guid::parse("{00000000-0000-0000-0000-0000000000ff}").unwrap();
    let b = Guid::parse("{00000000-0000-0001-0000-000000000000}").unwrap();
    let c = Guid::parse("{01000000-0000-0000-0000-000000000000}").unwrap();
    assert!(a < b);
    assert!(b < c);
    assert!(a < c);
    assert_eq!(a.partial_cmp(&b), Some(std::cmp::Ordering::Less));
    assert_eq!(c.partial_cmp(&a), Some(std::cmp::Ordering::Greater));
}

#[test]
fn extreme_digits_fill_the_halves_exactly() {
    let top = Guid::parse("{ffffffff-ffff-ffff-ffff-ffffffffffff}").unwrap();
    assert_eq!(top.hi, u64::MAX);
    assert_eq!(top.lo, u64::MAX);
    let one = Guid::parse("{00000000-0000-0000-0000-000000000001}").unwrap();
    assert_eq!(one.hi, 0);
    assert_eq!(one.lo, 1);
}

#[test]
fn uppercase_hex_is_rejected() {
    assert_eq!(
        Guid::parse("{9D348364-8145-4724-B337-5BC9B2AFE60F}"),
        Err(FmodError::InvalidString)
    );
}

#[test]
fn missing_braces_are_rejected() {
    assert_eq!(
        Guid::parse("9d348364-8145-4724-b337-5bc9b2afe60f"),
        Err(FmodError::InvalidString)
    );
    assert_eq!(
        Guid::parse("(9d348364-8145-4724-b337-5bc9b2afe60f)"),
        Err(FmodError::InvalidString)
    );
}

#[test]
fn misplaced_hyphens_are_rejected() {
    assert_eq!(
        Guid::parse("{9d3483648-145-4724-b337-5bc9b2afe60f}"),
        Err(FmodError::InvalidString)
    );
    assert_eq!(
        Guid::parse("{9d348364+8145+4724+b337+5bc9b2afe60f}"),
        Err(FmodError::InvalidString)
    );
}

#[test]
fn wrong_length_is_rejected() {
    assert_eq!(Guid::parse(""), Err(FmodError::InvalidString));
    assert_eq!(Guid::parse("{}"), Err(FmodError::InvalidString));
    assert_eq!(
        Guid::parse("{9d348364-8145-4724-b337-5bc9b2afe60}"),
        Err(FmodError::InvalidString)
    );
    assert_eq!(
        Guid::parse("{9d348364-8145-4724-b337-5bc9b2afe60f0}"),
        Err(FmodError::InvalidString)
    );
}

#[test]
fn non_hex_digits_are_rejected() {
    assert_eq!(
        Guid::parse("{9d348364-8145-4724-b337-5bc9b2afe60g}"),
        Err(FmodError::InvalidString)
    );
    assert_eq!(
        Guid::parse("{ d348364-8145-4724-b337-5bc9b2afe60f}"),
        Err(FmodError::InvalidString)
    );
}

#[test]
fn non_ascii_input_is_rejected() {
    assert_eq!(
        Guid::parse("{9d348364-8145-4724-b337-5bc9b2afe6é}"),
        Err(FmodError::InvalidString)
    );
}
