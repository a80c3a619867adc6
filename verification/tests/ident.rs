use outcomes_lookup::ident::EventId;

#[test]
fn identifier_is_written_in_five_groups() {
    let id = EventId { bits: 0x11111111_1111_1111_1111_111111111111 };
    assert_eq!(id.to_text(), "11111111-1111-1111-1111-111111111111");
    assert_eq!(id.debug_text(), "11111111-1111-1111-1111-111111111111");
}

#[test]
fn identifier_digits_are_lower_case_and_most_significant_first() {
    let id = EventId { bits: 0x936da01f_9abd_4d9d_80c7_02af85c822a8 };
    assert_eq!(id.to_text(), "936da01f-9abd-4d9d-80c7-02af85c822a8");
    assert_eq!(id.debug_text(), "936da01f-9abd-4d9d-80c7-02af85c822a8");
    let id = EventId { bits: 0x0123456789abcdef_fedcba9876543210 };
    assert_eq!(id.to_text(), "01234567-89ab-cdef-fedc-ba9876543210");
}

#[test]
fn smallest_and_largest_identifier() {
    assert_eq!(EventId { bits: 0 }.to_text(), "00000000-0000-0000-0000-000000000000");
    assert_eq!(EventId { bits: 1 }.to_text(), "00000000-0000-0000-0000-000000000001");
    assert_eq!(EventId { bits: u128::MAX }.to_text(), "ffffffff-ffff-ffff-ffff-ffffffffffff");
    assert_eq!(EventId { bits: u128::MAX }.debug_text(), "ffffffff-ffff-ffff-ffff-ffffffffffff");
}

#[test]
fn identifier_text_parses_back_to_the_same_bits() {
    let all_bits = vec![
        0u128,
        1,
        0x11111111_1111_1111_1111_111111111111,
        0x936da01f_9abd_4d9d_80c7_02af85c822a8,
        0xdeadbeef_0000_4000_8000_00000000cafe,
        u128::MAX,
    ];
    for bits in all_bits {
        let text = EventId { bits }.to_text();
        assert_eq!(text.len(), 36);
        assert_eq!(uuid::Uuid::parse_str(&text).unwrap().as_u128(), bits);
        assert!(text.chars().all(|c| c == '-' || c.is_ascii_digit() || ('a'..='f').contains(&c)));
    }
}
