use holochain_core::address::Address;
use holochain_core::bytes::{copy_of, push_all, same_bytes, stands_at};
use holochain_core::chain::{ChainHeader, SourceChain};
use holochain_core::entry::Entry;
use holochain_core::hash::{hash_content, to_hex};
use holochain_core::json::{push_quoted, quoted, read_quoted};
use holochain_core::storage::{MemoryStorage, StorageError};

fn text(bytes: &[u8]) -> String {
    String::from_utf8(bytes.to_vec()).unwrap()
}

#[test]
fn hex_is_lower_case_high_nibble_first() {
    assert_eq!(text(&to_hex(&[0x00, 0x0f, 0xa5, 0xff])), "000fa5ff");
    assert_eq!(to_hex(&[]), Vec::<u8>::new());
}

#[test]
fn hash_of_known_messages() {
    assert_eq!(
        text(&hash_content(b"abc")),
        "ba7816bf8f01cfea414140de5dae2223b00361a396177a9cb410ff61f20015ad"
    );
    assert_eq!(
        text(&hash_content(b"")),
        "e3b0c44298fc1c149afbf4c8996fb92427ae41e4649b934ca495991b7852b855"
    );
}

#[test]
fn hash_is_not_the_input() {
    let hashed = hash_content(b"abc");
    assert_eq!(hashed.len(), 64);
    assert_ne!(hashed, b"abc".to_vec());
    assert_ne!(hashed, to_hex(b"abc"));
}

#[test]
fn quoting_escapes_as_json_does() {
    assert_eq!(text(&quoted(b"plain")), "\"plain\"");
    assert_eq!(text(&quoted(b"")), "\"\"");
    assert_eq!(text(&quoted(b"say \"hi\"")), "\"say \\\"hi\\\"\"");
    assert_eq!(text(&quoted(b"a\\b")), "\"a\\\\b\"");
    assert_eq!(text(&quoted(b"\x08\x09\x0a\x0c\x0d")), "\"\\b\\t\\n\\f\\r\"");
    assert_eq!(text(&quoted(b"\x00\x01\x1f\x0b")), "\"\\u0000\\u0001\\u001f\\u000b\"");
    assert_eq!(text(&quoted(b"a/b\x7f")), "\"a/b\x7f\"");
    assert_eq!(quoted("é".as_bytes()), "\"é\"".as_bytes().to_vec());
}

#[test]
fn quoting_appends_to_what_is_there() {
    let mut out = b"x=".to_vec();
    push_quoted(&mut out, b"y");
    push_all(&mut out, b";");
    assert_eq!(text(&out), "x=\"y\";");
}

#[test]
fn bytes_compare_and_copy() {
    assert!(same_bytes(b"abc", b"abc"));
    assert!(!same_bytes(b"abc", b"abd"));
    assert!(!same_bytes(b"abc", b"ab"));
    assert!(same_bytes(b"", b""));
    assert_eq!(copy_of(b"abc"), b"abc".to_vec());
}

#[test]
fn entry_has_canonical_form() {
    let entry = Entry::from_text("testEntryType", "test entry value");
    assert_eq!(text(entry.entry_type()), "testEntryType");
    assert_eq!(text(entry.value()), "\"test entry value\"");
    assert_eq!(
        text(&entry.content()),
        "{\"App\":[\"testEntryType\",\"\\\"test entry value\\\"\"]}"
    );
    let raw = Entry::new(b"t".to_vec(), b"{\"a\":1}".to_vec());
    assert_eq!(text(&raw.content()), "{\"App\":[\"t\",\"{\\\"a\\\":1}\"]}");
}

#[test]
fn entry_address_is_hash_of_canonical_form() {
    let entry = Entry::from_text("testEntryType", "test entry value");
    let address = entry.address();
    assert_eq!(
        text(address.as_bytes()),
        "aea75f1ecdb5e17033d283f7758cd65b972da7682768c28df62bcfc70033ebde"
    );
    assert_eq!(address, Address::of_content(&entry.content()));
}

#[test]
fn equal_content_has_equal_address() {
    let a = Entry::from_text("testEntryType", "test entry value");
    let b = Entry::new(b"testEntryType".to_vec(), b"\"test entry value\"".to_vec());
    assert!(a.same_as(&b));
    assert_eq!(a.content(), b.content());
    assert_eq!(a.address(), b.address());
    assert_eq!(a.address(), a.clone().address());
    let c = Entry::from_text("testEntryType", "another value");
    assert!(!a.same_as(&c));
    assert_ne!(a.content(), c.content());
    assert_ne!(a.address(), c.address());
    let d = Entry::from_text("otherType", "test entry value");
    assert_ne!(a.address(), d.address());
}

#[test]
fn addresses_compare_by_their_bytes() {
    let a = Address::from_text("<insert your agent key here>");
    let b = Address::new(b"<insert your agent key here>".to_vec());
    assert!(a.same_as(&b));
    assert_eq!(a, b);
    assert_eq!(a.clone(), a);
    assert!(!a.same_as(&Address::from_text("jill")));
    assert!(!a.is_empty());
    assert!(Address::new(Vec::new()).is_empty());
    assert_eq!(text(a.as_bytes()), "<insert your agent key here>");
}

#[test]
fn store_is_idempotent() {
    let mut storage = MemoryStorage::new();
    let address = Address::of_content(b"content");
    assert!(!storage.contains(&address));
    assert_eq!(storage.fetch(&address), None);
    assert!(storage.would_accept(&address, b"content"));
    assert_eq!(storage.store(&address, b"content"), Ok(()));
    assert!(storage.contains(&address));
    assert_eq!(storage.fetch(&address), Some(b"content".to_vec()));
    assert_eq!(storage.store(&address, b"content"), Ok(()));
    assert_eq!(storage.fetch(&address), Some(b"content".to_vec()));
}

#[test]
fn store_refuses_other_content_under_taken_address() {
    let mut storage = MemoryStorage::new();
    let address = Address::of_content(b"content");
    assert_eq!(storage.store(&address, b"content"), Ok(()));
    assert!(!storage.would_accept(&address, b"forged"));
    assert_eq!(storage.store(&address, b"forged"), Err(StorageError::IntegrityViolation));
    assert_eq!(storage.fetch(&address), Some(b"content".to_vec()));
    let other = Address::of_content(b"forged");
    assert_eq!(storage.store(&other, b"forged"), Ok(()));
    assert_eq!(storage.fetch(&other), Some(b"forged".to_vec()));
    assert_eq!(storage.fetch(&address), Some(b"content".to_vec()));
}

#[test]
fn header_has_canonical_form() {
    let entry = Entry::from_text("testEntryType", "test entry value");
    let header = ChainHeader::new(b"testEntryType".to_vec(), entry.address(), None, None);
    assert_eq!(
        text(&header.content()),
        "{\"entry_type\":\"testEntryType\",\"entry_address\":\"aea75f1ecdb5e17033d283f7758cd65b972da7682768c28df62bcfc70033ebde\",\"link\":null,\"link_crud\":null}"
    );
    assert_eq!(
        text(header.address().as_bytes()),
        "69164876d77ec4de37d2965664f7ff1111db929740e79cef7303a1e042796276"
    );
    let linked = ChainHeader::new(
        b"t".to_vec(),
        Address::from_text("e"),
        Some(Address::from_text("p")),
        Some(Address::from_text("c")),
    );
    assert_eq!(
        text(&linked.content()),
        "{\"entry_type\":\"t\",\"entry_address\":\"e\",\"link\":\"p\",\"link_crud\":\"c\"}"
    );
    assert_eq!(text(linked.entry_type()), "t");
    assert_eq!(linked.entry_address(), &Address::from_text("e"));
    assert_eq!(linked.link(), &Some(Address::from_text("p")));
    assert_eq!(linked.link_crud(), &Some(Address::from_text("c")));
    assert_eq!(linked.clone(), linked);
}

#[test]
fn restored_chain_is_examined_link_by_link() {
    let first = ChainHeader::new(b"t".to_vec(), Address::from_text("e1"), None, None);
    let second =
        ChainHeader::new(b"t".to_vec(), Address::from_text("e2"), Some(first.address()), None);
    let intact = SourceChain::restore(vec![first.clone(), second.clone()]);
    assert!(intact.is_consistent());
    assert_eq!(intact.len(), 2);
    assert_eq!(intact.head(), Some(second.address()));
    assert!(intact.contains_entry(&Address::from_text("e1")));
    assert!(intact.contains_entry(&Address::from_text("e2")));
    assert!(!intact.contains_entry(&Address::from_text("e3")));
    assert_eq!(intact.header(1), Some(&second));
    assert_eq!(intact.header(2), None);
    assert_eq!(intact.headers(), vec![first.clone(), second.clone()]);

    let swapped = SourceChain::restore(vec![second.clone(), first.clone()]);
    assert!(!swapped.is_consistent());
    let forged = ChainHeader::new(
        b"t".to_vec(),
        Address::from_text("e2"),
        Some(Address::from_text("nowhere")),
        None,
    );
    assert!(!SourceChain::restore(vec![first, forged]).is_consistent());

    let empty = SourceChain::new();
    assert!(empty.is_consistent());
    assert_eq!(empty.len(), 0);
    assert_eq!(empty.head(), None);
}

#[test]
fn parts_are_found_where_they_stand() {
    assert!(stands_at(b"abcdef", 2, b"cd"));
    assert!(stands_at(b"abcdef", 0, b"abcdef"));
    assert!(stands_at(b"abcdef", 6, b""));
    assert!(!stands_at(b"abcdef", 2, b"ce"));
    assert!(!stands_at(b"abcdef", 5, b"fg"));
    assert!(!stands_at(b"abcdef", 7, b""));
}

#[test]
fn reading_inverts_quoting() {
    for text in [
        &b""[..],
        b"plain",
        b"say \"hi\"",
        b"a\\b",
        b"\x00\x01\x08\x09\x0a\x0b\x0c\x0d\x1f",
        b"a/b\x7f",
        "é".as_bytes(),
    ] {
        let literal = quoted(text);
        assert_eq!(read_quoted(&literal, 0), Some((text.to_vec(), literal.len())));
        let mut inside = b"[".to_vec();
        push_quoted(&mut inside, text);
        push_all(&mut inside, b",1]");
        assert_eq!(read_quoted(&inside, 1), Some((text.to_vec(), literal.len() + 1)));
        assert_eq!(read_quoted(&inside, 0), None);
    }
}

#[test]
fn reading_takes_only_the_form_that_is_written() {
    assert_eq!(read_quoted(b"\"a\\u0041\"", 0), None);
    assert_eq!(read_quoted(b"\"\\u000a\"", 0), None);
    assert_eq!(read_quoted(b"\"\\u001F\"", 0), None);
    assert_eq!(read_quoted(b"\"\\u001f\"", 0), Some((vec![0x1f], 8)));
    assert_eq!(read_quoted(b"\"\\u0020\"", 0), None);
    assert_eq!(read_quoted(b"\"\\/\"", 0), None);
    assert_eq!(read_quoted(b"\"a\nb\"", 0), None);
    assert_eq!(read_quoted(b"\"open", 0), None);
    assert_eq!(read_quoted(b"\"open\\", 0), None);
    assert_eq!(read_quoted(b"\"open\\u00", 0), None);
    assert_eq!(read_quoted(b"\"\"", 2), None);
    assert_eq!(read_quoted(b"", 0), None);
    assert_eq!(read_quoted(b"\"a\"b\"", 0), Some((b"a".to_vec(), 3)));
}

#[test]
fn entry_is_read_back_from_its_canonical_form() {
    for entry in [
        Entry::from_text("testEntryType", "test entry value"),
        Entry::from_text("", ""),
        Entry::new(b"t\"\\".to_vec(), b"{\"a\":[1,\"\\n\"]}\x01".to_vec()),
    ] {
        assert_eq!(Entry::from_content(&entry.content()), Some(entry));
    }
    let read =
        Entry::from_content(b"{\"App\":[\"testEntryType\",\"\\\"test entry value\\\"\"]}").unwrap();
    assert_eq!(read, Entry::from_text("testEntryType", "test entry value"));
}

#[test]
fn only_canonical_forms_are_read_as_entries() {
    for content in [
        &b""[..],
        b"{}",
        b"{\"App\":[\"t\",\"v\"]",
        b"{\"App\":[\"t\",\"v\"]} ",
        b" {\"App\":[\"t\",\"v\"]}",
        b"{\"App\":[\"t\", \"v\"]}",
        b"{\"App\":[\"t\"]}",
        b"{\"App\":[\"t\",\"v\",\"w\"]}",
        b"{\"Dna\":[\"t\",\"v\"]}",
        b"{\"App\":[\"t\",\"\\u0041\"]}",
        b"{\"App\":[\"t\",\"v\"]}]}",
    ] {
        assert_eq!(Entry::from_content(content), None);
    }
    assert!(Entry::from_content(b"{\"App\":[\"t\",\"v\"]}").is_some());
}
