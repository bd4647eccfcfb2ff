use yutf8::conversion::convert_yutf8_to_latin;
use yutf8::hex::hex_dump;

#[test]
fn no_bytes_give_a_bare_line_feed() {
    assert_eq!(hex_dump(&[]), "\n");
}

#[test]
fn each_byte_gives_two_upper_case_digits_and_a_space() {
    assert_eq!(hex_dump(&[0x00]), "00 \n");
    assert_eq!(hex_dump(&[0x0A]), "0A \n");
    assert_eq!(hex_dump(&[0xA0]), "A0 \n");
    assert_eq!(hex_dump(&[0xFF]), "FF \n");
    assert_eq!(hex_dump(&[0x5E, 0x5D, 0x7E]), "5E 5D 7E \n");
    assert_eq!(
        hex_dump(&[0x01, 0x23, 0x45, 0x67, 0x89, 0xAB, 0xCD, 0xEF]),
        "01 23 45 67 89 AB CD EF \n"
    );
}

#[test]
fn all_byte_values_match_the_standard_formatting() {
    for value in 0u8..=255 {
        assert_eq!(hex_dump(&[value]), format!("{:02X} \n", value));
    }
}

#[test]
fn dump_shows_the_utf8_bytes_of_a_converted_text() {
    let converted = convert_yutf8_to_latin("^a{a");
    assert_eq!(converted, "Čaša");
    assert_eq!(hex_dump(converted.as_bytes()), "C4 8C 61 C5 A1 61 \n");
}
