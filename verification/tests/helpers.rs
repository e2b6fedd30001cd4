use rand::Rng;
use steam_machine_id::digest::get_account_name_hash_value;
use steam_machine_id::digest::get_custom_hash_value;
use steam_machine_id::digest::get_random_hash_value;
use steam_machine_id::hex::bytes_to_hex_string;
use steam_machine_id::hex::hex_string_to_bytes;
use steam_machine_id::message::create_machine_id_from_values;
use steam_machine_id::message::get_c_string;
use steam_machine_id::text::contains_zero_byte;
use steam_machine_id::MachineIDError;

fn draw() -> String {
    rand::thread_rng().gen::<f32>().to_string()
}

#[test]
fn test_create_sha1() {
    let sha1 = get_custom_hash_value("test");

    assert_eq!(sha1.len(), 20);
}

#[test]
fn tests_get_random_hash_value() {
    let hash_value = get_random_hash_value(&draw());

    assert_eq!(hash_value.len(), 20);
}

#[test]
fn tests_get_custom_hash_value() {
    let hash_value = get_custom_hash_value("test");

    assert_eq!(hash_value.len(), 20);
}

#[test]
fn tests_get_account_name_hash_value() {
    let hash_value = get_account_name_hash_value("test", "test");

    assert_eq!(hash_value.len(), 20);
}

#[test]
#[should_panic]
fn test_get_random_hash_value() {
    get_c_string("\0").unwrap();
}

#[test]
fn tests_bytes_to_hex_string() {
    let bytes = vec![0, 1, 2, 3, 4, 5, 6, 7];
    let hex_string = bytes_to_hex_string(&bytes);

    assert_eq!(hex_string, "0001020304050607");
}

#[test]
fn tests_get_c_string_bytes() {
    let bytes = get_c_string("test").unwrap();

    assert_eq!(bytes.as_slice().len(), 5);
    assert_eq!([116, 101, 115, 116, 0], bytes.as_slice());
}

#[test]
fn custom_hash_value_is_the_sha1_digest() {
    assert_eq!(
        get_custom_hash_value("test"),
        [
            169, 74, 143, 229, 204, 177, 155, 166, 28, 76, 8, 115, 211, 145, 233, 135, 152, 47,
            187, 211
        ]
    );
    assert_eq!(
        bytes_to_hex_string(&get_custom_hash_value("")),
        "DA39A3EE5E6B4B0D3255BFEF95601890AFD80709"
    );
}

#[test]
fn custom_hash_value_hashes_utf8_bytes() {
    assert_eq!(
        bytes_to_hex_string(&get_custom_hash_value("h\u{e9}llo")),
        "35B5EA45C5E41F78B46A937CC74D41DFEA920890"
    );
}

#[test]
fn random_hash_value_is_the_digest_of_the_drawn_text() {
    assert_eq!(
        bytes_to_hex_string(&get_random_hash_value("0.5")),
        "1B390CD54A0C0D4F27FA7ADF23E3C45536E9F37C"
    );
    let text = draw();
    assert_eq!(get_random_hash_value(&text), get_custom_hash_value(&text));
}

#[test]
fn account_name_hash_value_hashes_the_marked_text() {
    assert_eq!(
        bytes_to_hex_string(&get_account_name_hash_value("test", "test")),
        "74FD3ACA56A95CE84FD8D139739EC619D776495E"
    );
    assert_eq!(
        get_account_name_hash_value("BB3", "accountname"),
        get_custom_hash_value("SteamUser Hash BB3 accountname")
    );
}

#[test]
fn hex_string_has_two_upper_case_digits_per_byte() {
    assert_eq!(bytes_to_hex_string(&[]), "");
    assert_eq!(bytes_to_hex_string(&[0x00]), "00");
    assert_eq!(bytes_to_hex_string(&[0x0a]), "0A");
    assert_eq!(bytes_to_hex_string(&[0xa0]), "A0");
    assert_eq!(bytes_to_hex_string(&[0x9f, 0xff, 0x10]), "9FFF10");
    let all: Vec<u8> = (0..=255).collect();
    let text = bytes_to_hex_string(&all);
    assert_eq!(text.len(), 512);
    assert!(text.chars().all(|c| matches!(c, '0'..='9' | 'A'..='F')));
}

#[test]
fn hex_round_trip_gives_the_bytes_back() {
    let digest = get_custom_hash_value("test");
    let text = bytes_to_hex_string(&digest);
    assert_eq!(text.len(), 40);
    assert_eq!(hex_string_to_bytes(&text), Some(digest.to_vec()));

    let all: Vec<u8> = (0..=255).collect();
    assert_eq!(hex_string_to_bytes(&bytes_to_hex_string(&all)), Some(all));
    assert_eq!(hex_string_to_bytes(""), Some(vec![]));
    assert_eq!(hex_string_to_bytes("0A9F"), Some(vec![0x0a, 0x9f]));
}

#[test]
fn hex_decoding_refuses_what_is_not_hex_text() {
    assert_eq!(hex_string_to_bytes("0"), None);
    assert_eq!(hex_string_to_bytes("0A9"), None);
    assert_eq!(hex_string_to_bytes("0a"), None);
    assert_eq!(hex_string_to_bytes("0G"), None);
    assert_eq!(hex_string_to_bytes("G0"), None);
    assert_eq!(hex_string_to_bytes("/0"), None);
    assert_eq!(hex_string_to_bytes(":0"), None);
    assert_eq!(hex_string_to_bytes("@0"), None);
    assert_eq!(hex_string_to_bytes("\u{e9}"), None);
    assert_eq!(hex_string_to_bytes("00\u{e9}0"), None);
}

#[test]
fn c_string_ends_with_a_zero_byte() {
    assert_eq!(get_c_string(""), Ok(vec![0]));
    assert_eq!(get_c_string("BB3"), Ok(vec![66, 66, 51, 0]));
    assert_eq!(get_c_string("\u{e9}"), Ok(vec![0xc3, 0xa9, 0]));
}

#[test]
fn c_string_refuses_a_zero_byte() {
    assert_eq!(get_c_string("\0"), Err(MachineIDError::InvalidInput));
    assert_eq!(get_c_string("ab\0cd"), Err(MachineIDError::InvalidInput));
    assert_eq!(get_c_string("abcd\0"), Err(MachineIDError::InvalidInput));
}

#[test]
fn zero_byte_is_found_wherever_it_stands() {
    assert!(!contains_zero_byte(""));
    assert!(!contains_zero_byte("accountname"));
    assert!(!contains_zero_byte("0"));
    assert!(contains_zero_byte("\0"));
    assert!(contains_zero_byte("\0abc"));
    assert!(contains_zero_byte("a\0bc"));
    assert!(contains_zero_byte("abc\0"));
}

#[test]
fn message_object_of_given_values() {
    let message = create_machine_id_from_values(&[0x00; 20], &[0xab; 20], &[0xff; 20]);
    let mut expected = vec![0u8];
    expected.extend_from_slice(b"MessageObject\0");
    expected.extend_from_slice(b"\x01BB3\0");
    expected.extend_from_slice("00".repeat(20).as_bytes());
    expected.extend_from_slice(b"\0\x01FF2\0");
    expected.extend_from_slice("AB".repeat(20).as_bytes());
    expected.extend_from_slice(b"\0\x013B3\0");
    expected.extend_from_slice("FF".repeat(20).as_bytes());
    expected.extend_from_slice(b"\0\x08\x08");
    assert_eq!(message.len(), 155);
    assert_eq!(message, expected);
}
