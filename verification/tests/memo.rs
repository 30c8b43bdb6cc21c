use quill::memo::{convert_name_to_memo, neuron_name_validator};

#[test]
fn two_letter_name_is_read_big_endian() {
    assert_eq!(convert_name_to_memo("ab"), 0x0000000000006162);
}

#[test]
fn empty_name_has_memo_zero() {
    assert_eq!(convert_name_to_memo(""), 0);
}

#[test]
fn single_letter_name() {
    assert_eq!(convert_name_to_memo("a"), 0x61);
}

#[test]
fn eight_byte_name_fills_the_memo() {
    assert_eq!(convert_name_to_memo("abcdefgh"), 0x6162636465666768);
    assert_eq!(convert_name_to_memo("abcdefgh"), 7017280452245743464);
}

#[test]
fn memo_is_the_same_on_every_call() {
    assert_eq!(convert_name_to_memo("neuron1"), convert_name_to_memo("neuron1"));
    assert_ne!(convert_name_to_memo("neuron1"), convert_name_to_memo("neuron2"));
}

#[test]
fn memo_counts_raw_bytes_of_a_wide_character() {
    assert_eq!(convert_name_to_memo("\u{e9}"), 0xc3a9);
}

#[test]
fn validator_accepts_up_to_eight_bytes() {
    assert!(neuron_name_validator("").is_ok());
    assert!(neuron_name_validator("a").is_ok());
    assert!(neuron_name_validator("12345678").is_ok());
}

#[test]
fn validator_rejects_nine_bytes() {
    assert_eq!(
        neuron_name_validator("123456789"),
        Err("The neuron name must be 8 character or less".to_string())
    );
}

#[test]
fn validator_counts_bytes_not_characters() {
    assert!(neuron_name_validator("\u{e9}\u{e9}\u{e9}\u{e9}").is_ok());
    assert!(neuron_name_validator("\u{e9}\u{e9}\u{e9}\u{e9}\u{e9}").is_err());
}

#[test]
fn memo_from_name_encodes_a_name_that_fits() {
    assert_eq!(quill::memo::memo_from_name("ab"), Ok(0x6162));
    assert_eq!(quill::memo::memo_from_name("abcdefgh"), Ok(0x6162636465666768));
    assert_eq!(quill::memo::memo_from_name(""), Ok(0));
}

#[test]
fn memo_from_name_rejects_nine_bytes_without_encoding() {
    assert_eq!(
        quill::memo::memo_from_name("abcdefghi"),
        Err("The neuron name must be 8 character or less".to_string())
    );
}
