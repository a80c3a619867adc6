use outcomes_lookup::outcome::Outcome;

#[test]
fn named_codes_decode_to_their_outcomes() {
    assert_eq!(Outcome::from(0u8), Outcome::Accepted);
    assert_eq!(Outcome::from(1u8), Outcome::Filtered);
    assert_eq!(Outcome::from(2u8), Outcome::RateLimited);
    assert_eq!(Outcome::from(3u8), Outcome::Invalid);
    assert_eq!(Outcome::from(4u8), Outcome::Abuse);
}

#[test]
fn other_codes_decode_to_unknown_with_the_byte() {
    for code in 5u8..=255 {
        assert_eq!(Outcome::from(code), Outcome::Unknown(code));
    }
}

#[test]
fn into_gives_what_from_gives() {
    let outcome: Outcome = 2u8.into();
    assert_eq!(outcome, Outcome::RateLimited);
    let outcome: Outcome = 200u8.into();
    assert_eq!(outcome, Outcome::Unknown(200));
}

#[test]
fn every_byte_survives_decoding_and_encoding() {
    for code in 0u8..=255 {
        assert_eq!(Outcome::from(code).code(), code);
    }
}

#[test]
fn decoding_an_encoded_outcome_gives_it_back() {
    let outcomes = vec![
        Outcome::Accepted,
        Outcome::Filtered,
        Outcome::RateLimited,
        Outcome::Invalid,
        Outcome::Abuse,
        Outcome::Unknown(5),
        Outcome::Unknown(255),
    ];
    for outcome in outcomes {
        assert_eq!(Outcome::from(outcome.code()), outcome);
    }
}

#[test]
fn unknown_with_a_named_byte_decodes_to_the_named_outcome() {
    assert_eq!(Outcome::Unknown(3).code(), 3);
    assert_eq!(Outcome::from(Outcome::Unknown(3).code()), Outcome::Invalid);
}

#[test]
fn outcome_names_are_the_variant_names() {
    assert_eq!(Outcome::Accepted.name(), "Accepted");
    assert_eq!(Outcome::Filtered.name(), "Filtered");
    assert_eq!(Outcome::RateLimited.name(), "RateLimited");
    assert_eq!(Outcome::Invalid.name(), "Invalid");
    assert_eq!(Outcome::Abuse.name(), "Abuse");
    assert_eq!(Outcome::Unknown(7).name(), "Unknown(7)");
    assert_eq!(Outcome::Unknown(255).name(), "Unknown(255)");
}

#[test]
fn outcome_names_agree_with_debug_for_every_byte() {
    for code in 0u8..=255 {
        let outcome = Outcome::from(code);
        assert_eq!(outcome.name(), format!("{:?}", outcome));
    }
}
