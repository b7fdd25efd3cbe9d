use vocal_note_taker::error::framed;
use vocal_note_taker::text::u32_to_decimal;

#[test]
fn numbers_are_written_in_decimal() {
    assert_eq!(u32_to_decimal(0), "0");
    assert_eq!(u32_to_decimal(7), "7");
    assert_eq!(u32_to_decimal(9), "9");
    assert_eq!(u32_to_decimal(10), "10");
    assert_eq!(u32_to_decimal(99), "99");
    assert_eq!(u32_to_decimal(100), "100");
    assert_eq!(u32_to_decimal(16000), "16000");
    assert_eq!(u32_to_decimal(44100), "44100");
    assert_eq!(u32_to_decimal(1234567890), "1234567890");
    assert_eq!(u32_to_decimal(u32::MAX), "4294967295");
    for n in [1u32, 12, 305, 65535, 100000, 4000000000] {
        assert_eq!(u32_to_decimal(n), n.to_string());
    }
}

#[test]
fn framed_text_keeps_its_three_parts_in_order() {
    assert_eq!(framed("a", "b", "c"), "abc");
    assert_eq!(framed("", "milieu", ""), "milieu");
    assert_eq!(framed("tête: ", "", "."), "tête: .");
}
