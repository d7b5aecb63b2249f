use rps_toy::game::Move;
use rps_toy::wire::parse_move_payload;

#[test]
fn parses_plain_move_letters() {
    assert_eq!(parse_move_payload(b"r"), Some(Move::Rock));
    assert_eq!(parse_move_payload(b"R"), Some(Move::Rock));
    assert_eq!(parse_move_payload(b"p"), Some(Move::Paper));
    assert_eq!(parse_move_payload(b"P"), Some(Move::Paper));
    assert_eq!(parse_move_payload(b"s"), Some(Move::Scissors));
    assert_eq!(parse_move_payload(b"S"), Some(Move::Scissors));
}

#[test]
fn skips_leading_ascii_whitespace() {
    assert_eq!(parse_move_payload(b"  r"), Some(Move::Rock));
    assert_eq!(parse_move_payload(b"\t\np "), Some(Move::Paper));
    assert_eq!(parse_move_payload(b"\r\ns\r\n"), Some(Move::Scissors));
}

#[test]
fn skips_leading_unicode_whitespace() {
    // no-break space, then 'p'
    assert_eq!(parse_move_payload("\u{00A0}p".as_bytes()), Some(Move::Paper));
    // em space (three-byte encoding), then 'r'
    assert_eq!(parse_move_payload("\u{2003}r".as_bytes()), Some(Move::Rock));
    // ideographic space, then 's'
    assert_eq!(parse_move_payload("\u{3000}s".as_bytes()), Some(Move::Scissors));
}

#[test]
fn only_the_first_character_counts() {
    assert_eq!(parse_move_payload(b"rock"), Some(Move::Rock));
    assert_eq!(parse_move_payload(b"paper"), Some(Move::Paper));
    assert_eq!(parse_move_payload(b"xr"), None);
}

#[test]
fn rejects_empty_and_whitespace_only_payloads() {
    assert_eq!(parse_move_payload(b""), None);
    assert_eq!(parse_move_payload(b"   "), None);
    assert_eq!(parse_move_payload(b"\t\r\n"), None);
    assert_eq!(parse_move_payload("\u{2028}\u{202F}".as_bytes()), None);
}

#[test]
fn rejects_unrecognized_characters() {
    assert_eq!(parse_move_payload(b"x"), None);
    assert_eq!(parse_move_payload(b"1"), None);
    assert_eq!(parse_move_payload(b"!"), None);
}

#[test]
fn rejects_invalid_utf8() {
    // a lone continuation byte decodes to a replacement character
    assert_eq!(parse_move_payload(&[0xff, b'r']), None);
    // a truncated two-byte sequence before a move letter
    assert_eq!(parse_move_payload(&[0xc2, b'r']), None);
}

#[test]
fn non_whitespace_multibyte_characters_select_nothing() {
    assert_eq!(parse_move_payload("\u{00E9}r".as_bytes()), None);
    assert_eq!(parse_move_payload("\u{1F600}".as_bytes()), None);
}
