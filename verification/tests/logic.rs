use sim_protocol::Logic;

const ALL: [Logic; 9] = [
    Logic::U,
    Logic::X,
    Logic::Zero,
    Logic::One,
    Logic::Z,
    Logic::W,
    Logic::L,
    Logic::H,
    Logic::DontCare,
];

#[test]
fn text_round_trip_for_every_symbol() {
    for v in ALL {
        let s = v.as_str();
        assert_eq!(Logic::from_symbol(s), Ok(v));
        assert_eq!(s.parse::<Logic>(), Ok(v));
    }
}

#[test]
fn symbols_are_the_nine_ieee_characters() {
    let chars: Vec<char> = ALL.iter().map(|v| v.symbol()).collect();
    assert_eq!(chars, vec!['U', 'X', '0', '1', 'Z', 'W', 'L', 'H', '-']);
    let texts: Vec<&str> = ALL.iter().map(|v| v.as_str()).collect();
    assert_eq!(texts, vec!["U", "X", "0", "1", "Z", "W", "L", "H", "-"]);
}

#[test]
fn any_other_string_fails_to_parse() {
    assert!(Logic::from_symbol("").is_err());
    assert!(Logic::from_symbol("u").is_err());
    assert!(Logic::from_symbol("UU").is_err());
    assert!(Logic::from_symbol("A").is_err());
    assert!(Logic::from_symbol(" -").is_err());
    assert!("q".parse::<Logic>().is_err());
}

#[test]
fn byte_round_trip_for_first_eight_symbols() {
    for v in ALL {
        if v != Logic::DontCare {
            assert_eq!(Logic::try_from(v.to_byte()), Ok(v));
        }
    }
    let bytes: Vec<u8> = ALL.iter().map(|v| v.to_byte()).collect();
    assert_eq!(bytes, vec![0, 1, 2, 3, 4, 5, 6, 7, 8]);
}

#[test]
fn byte_eight_and_above_are_invalid_discriminants() {
    assert_eq!(Logic::try_from(8u8), Err(()));
    assert_eq!(Logic::try_from(9u8), Err(()));
    assert_eq!(Logic::try_from(255u8), Err(()));
}

#[test]
fn default_logic_is_uninitialized() {
    assert_eq!(Logic::default(), Logic::U);
}
