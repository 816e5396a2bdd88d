use db_enum::wire::decode_wire_bytes;
use db_enum::wire::decode_wire_name;
use db_enum::wire::encode_wire_name;

fn table() -> Vec<String> {
    vec!["foo".to_string(), "bar".to_string(), "baz_quxx".to_string()]
}

#[test]
fn decode_finds_each_name() {
    let names = table();
    assert_eq!(decode_wire_name(&names, "foo"), Some(0));
    assert_eq!(decode_wire_name(&names, "bar"), Some(1));
    assert_eq!(decode_wire_name(&names, "baz_quxx"), Some(2));
}

#[test]
fn decode_rejects_unknown_names() {
    let names = table();
    assert_eq!(decode_wire_name(&names, "food"), None);
    assert_eq!(decode_wire_name(&names, "Foo"), None);
    assert_eq!(decode_wire_name(&names, ""), None);
}

#[test]
fn encode_then_decode_round_trips() {
    let names = table();
    for i in 0..names.len() {
        let wire = encode_wire_name(&names, i).clone();
        assert_eq!(decode_wire_name(&names, wire.as_str()), Some(i));
    }
}

#[test]
fn decode_prefers_the_first_of_equal_names() {
    let names = vec!["same".to_string(), "same".to_string(), "other".to_string()];
    assert_eq!(decode_wire_name(&names, "same"), Some(0));
    assert_eq!(decode_wire_name(&names, "other"), Some(2));
}

#[test]
fn byte_decode_agrees_with_string_decode() {
    let names = table();
    assert_eq!(decode_wire_bytes(&names, b"foo"), Some(0));
    assert_eq!(decode_wire_bytes(&names, b"bar"), Some(1));
    assert_eq!(decode_wire_bytes(&names, b"baz_quxx"), Some(2));
    assert_eq!(decode_wire_bytes(&names, b"food"), None);
    assert_eq!(decode_wire_bytes(&names, b""), None);
}

#[test]
fn byte_decode_rejects_bytes_that_encode_no_name() {
    let names = vec!["caf\u{e9}".to_string()];
    let encoded = "caf\u{e9}".as_bytes();
    assert_eq!(decode_wire_bytes(&names, encoded), Some(0));
    assert_eq!(decode_wire_bytes(&names, &[0xff, 0xfe]), None);
    assert_eq!(decode_wire_bytes(&names, b"caf"), None);
}

#[test]
fn decode_handles_names_with_spaces() {
    let names = vec!["mod".to_string(), "type".to_string(), "with spaces".to_string()];
    assert_eq!(decode_wire_name(&names, "with spaces"), Some(2));
    assert_eq!(decode_wire_name(&names, "with"), None);
}
