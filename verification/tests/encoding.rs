//! The encoder: each command's exact wire bytes, and the key rules.
use memento::{Command, Decr, Incr, Item, Key, MementoError, SetCmd};

fn key(s: &str) -> Key {
    Key::from_str(s).unwrap()
}

#[test]
fn set_timeless_wire_bytes() {
    let cmd = memento::set(key("x"), Item::timeless(b"y".to_vec()));
    assert_eq!(cmd.encode(), b"set x 0 0 1\r\ny\r\n".to_vec());
}

#[test]
fn set_with_ttl_wire_bytes() {
    let cmd = memento::set(key("x"), Item::expires(b"y".to_vec(), 2));
    assert_eq!(cmd.encode(), b"set x 0 2 1\r\ny\r\n".to_vec());
}

#[test]
fn header_length_equals_payload_length() {
    let cmd = memento::set(key("k"), Item::timeless(b"hello world".to_vec()));
    assert_eq!(cmd.encode(), b"set k 0 0 11\r\nhello world\r\n".to_vec());
}

#[test]
fn store_family_verbs() {
    let k = || key("a");
    let it = || Item::timeless(b"v".to_vec());
    assert_eq!(
        Command::Add(memento::Add::new(k(), it())).encode(),
        b"add a 0 0 1\r\nv\r\n".to_vec()
    );
    assert_eq!(
        Command::Replace(memento::Replace::new(k(), it())).encode(),
        b"replace a 0 0 1\r\nv\r\n".to_vec()
    );
    assert_eq!(
        Command::Append(memento::Append::new(k(), it())).encode(),
        b"append a 0 0 1\r\nv\r\n".to_vec()
    );
    assert_eq!(
        Command::Prepend(memento::Prepend::new(k(), it())).encode(),
        b"prepend a 0 0 1\r\nv\r\n".to_vec()
    );
    assert_eq!(
        Command::SetCmd(SetCmd::new(k(), it())).encode(),
        b"set a 0 0 1\r\nv\r\n".to_vec()
    );
}

#[test]
fn get_wire_bytes() {
    assert_eq!(memento::get(key("x")).encode(), b"get x\r\n".to_vec());
}

#[test]
fn gets_joins_keys_with_spaces() {
    let cmd = memento::gets(vec![key("kek"), key("x"), key("xxxx")]);
    assert_eq!(cmd.encode(), b"gets kek x xxxx\r\n".to_vec());
}

#[test]
fn gets_of_one_key() {
    assert_eq!(memento::gets(vec![key("x")]).encode(), b"gets x\r\n".to_vec());
}

#[test]
fn counter_commands_wire_bytes() {
    assert_eq!(
        Command::Incr(Incr::new(key("x"), 1)).encode(),
        b"incr x 1\r\n".to_vec()
    );
    assert_eq!(
        Command::Decr(Decr::new(key("x"), 250)).encode(),
        b"decr x 250\r\n".to_vec()
    );
}

#[test]
fn bare_verbs_wire_bytes() {
    assert_eq!(memento::stats().encode(), b"stats\r\n".to_vec());
    assert_eq!(Command::Version.encode(), b"version\r\n".to_vec());
    assert_eq!(Command::Quit.encode(), b"quit\r\n".to_vec());
    assert_eq!(Command::Delete(key("x")).encode(), b"delete x\r\n".to_vec());
}

#[test]
fn encoding_is_stable_for_retries() {
    let cmd = memento::set(key("x"), Item::timeless(b"y".to_vec()));
    assert_eq!(cmd.encode(), cmd.encode());
}

#[test]
fn key_up_to_250_bytes_is_kept_exactly() {
    let long = "k".repeat(250);
    let k = Key::from_str(&long).unwrap();
    assert_eq!(k.as_bytes(), long.as_bytes());
}

#[test]
fn key_over_250_bytes_fails_before_any_encoding() {
    let long = "k".repeat(251);
    match Key::from_str(&long) {
        Err(MementoError::TooLongKey(k)) => assert_eq!(k, long.as_bytes().to_vec()),
        other => panic!("expected TooLongKey, got {:?}", other),
    }
}

#[test]
fn key_from_reply_line_takes_second_token() {
    let k = Key::from_str("VALUE x 0 3").unwrap();
    assert_eq!(k.as_bytes(), b"x");
}

#[test]
fn key_from_reply_line_skips_length_check() {
    let echoed = format!("VALUE {} 0 3", "k".repeat(300));
    let k = Key::from_str(&echoed).unwrap();
    assert_eq!(k.as_bytes().len(), 300);
}

#[test]
fn item_seconds() {
    assert_eq!(Item::timeless(b"y".to_vec()).seconds(), 0);
    assert_eq!(Item::expires(b"y".to_vec(), 7).seconds(), 7);
    assert_eq!(Item::from_str("y").as_bytes(), b"y");
}
