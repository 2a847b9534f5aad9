use tiled_json::{Color, TiledError};

fn message_of(result: Result<Color, TiledError>) -> String {
    match result {
        Err(TiledError::Other(message)) => message,
        Err(other) => panic!("unexpected kind of error: {:?}", other),
        Ok(color) => panic!("unexpected colour: {:?}", color),
    }
}

#[test]
fn six_digits_are_red_green_blue_with_full_alpha() {
    let color = Color::from_str("#ff8000").unwrap();
    assert_eq!(color.channels(), [255, 128, 0, 255]);
}

#[test]
fn eight_digits_move_alpha_to_the_end() {
    let color = Color::from_str("#80ff0a01").unwrap();
    assert_eq!(color.channels(), [255, 10, 1, 128]);
}

#[test]
fn the_hash_may_be_left_out() {
    assert_eq!(Color::from_str("102030").unwrap().channels(), [16, 32, 48, 255]);
    assert_eq!(Color::from_str("40102030").unwrap().channels(), [16, 32, 48, 64]);
    assert_eq!(Color::from_str("102030").unwrap(), Color::from_str("#102030").unwrap());
}

#[test]
fn digits_are_read_in_either_case() {
    assert_eq!(Color::from_str("#ABCDEF").unwrap().channels(), [0xab, 0xcd, 0xef, 255]);
    assert_eq!(Color::from_str("#abcdef").unwrap().channels(), [0xab, 0xcd, 0xef, 255]);
    assert_eq!(Color::from_str("#00000000").unwrap().channels(), [0, 0, 0, 0]);
    assert_eq!(Color::from_str("#ffffffff").unwrap().channels(), [255, 255, 255, 255]);
    assert_eq!(Color::from_str("#09afAF").unwrap().channels(), [0x09, 0xaf, 0xaf, 255]);
}

#[test]
fn other_lengths_are_refused() {
    for text in ["", "#", "#12345", "1234567", "#123456789", "#1", "12"] {
        assert!(matches!(Color::from_str(text), Err(TiledError::Other(_))));
    }
    assert_eq!(message_of(Color::from_str("#12345")), "Invalid color value \"12345\"");
    assert_eq!(message_of(Color::from_str("")), "Invalid color value \"\"");
}

#[test]
fn other_characters_are_refused() {
    for text in ["#12345g", "#zzzzzz", "12 456", "#1234567/", "#:00000", "#@00000", "#G00000", "#`00000"] {
        assert!(matches!(Color::from_str(text), Err(TiledError::Other(_))));
    }
    assert_eq!(message_of(Color::from_str("#12345g")), "Invalid color value \"12345g\"");
}

#[test]
fn a_sign_is_no_hexadecimal_digit() {
    assert!(matches!(Color::from_str("#+f+f+f"), Err(TiledError::Other(_))));
    assert!(matches!(Color::from_str("+1+2+3+4"), Err(TiledError::Other(_))));
}

#[test]
fn only_one_hash_is_taken_off() {
    assert!(matches!(Color::from_str("##12345"), Err(TiledError::Other(_))));
    assert_eq!(message_of(Color::from_str("##1234")), "Invalid color value \"#1234\"");
}

#[test]
fn characters_outside_ascii_are_refused() {
    assert!(matches!(Color::from_str("a\u{e9}b12"), Err(TiledError::Other(_))));
    assert!(matches!(Color::from_str("\u{e9}\u{e9}\u{e9}"), Err(TiledError::Other(_))));
    assert!(matches!(Color::from_str("#\u{ff11}23456"), Err(TiledError::Other(_))));
    assert_eq!(
        message_of(Color::from_str("#12\n456")),
        format!("Invalid color value {:?}", "12\n456")
    );
}

#[test]
fn colours_parse_through_the_standard_trait() {
    let color: Color = "#010203".parse().unwrap();
    assert_eq!(color.channels(), [1, 2, 3, 255]);
    assert!("#0102".parse::<Color>().is_err());
}
