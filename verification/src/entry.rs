//! Entries: the unit of content that an agent authors.

use crate::address::Address;
use crate::bytes::{copy_of, same_bytes, stands_at};
use crate::hash::{content_address, law_hex_encode_is_injective, sha256_digest};
use crate::json::{
    law_unquote_inverts_quote, law_unquote_reads_only_quotes, push_quoted, quote, quoted,
    read_quoted, unquote,
};
use vstd::prelude::*;
use vstd::string::StringSliceAdditionalSpecFns;

verus! {

/// Immutable content with a declared type tag. The value is JSON text.
#[derive(Debug, PartialEq, Eq)]
pub struct Entry {
    entry_type: Vec<u8>,
    value: Vec<u8>,
}

/// What an entry holds.
pub struct EntryView {
    pub entry_type: Seq<u8>,
    pub value: Seq<u8>,
}

impl View for Entry {
    type V = EntryView;

    closed spec fn view(&self) -> EntryView {
        EntryView { entry_type: self.entry_type@, value: self.value@ }
    }
}

/// The bytes `{"App":[`, which open the canonical form of an entry.
pub open spec fn entry_opening() -> Seq<u8> {
    seq![0x7bu8, 0x22u8, 0x41u8, 0x70u8, 0x70u8, 0x22u8, 0x3au8, 0x5bu8]
}

/// The bytes `]}`, which close the canonical form of an entry.
pub open spec fn entry_closing() -> Seq<u8> {
    seq![0x5du8, 0x7du8]
}

/// The canonical serialized form of an entry: a JSON object whose one member,
/// `App`, is the pair of the type tag and the value, each as a string literal.
pub open spec fn canonical_form(entry: EntryView) -> Seq<u8> {
    entry_opening() + quote(entry.entry_type) + seq![0x2cu8] + quote(entry.value)
        + entry_closing()
}

/// The entry whose canonical form `bytes` is, if it is one.
pub open spec fn parse_entry(bytes: Seq<u8>) -> Option<EntryView> {
    if bytes.len() >= 8 && bytes.subrange(0, 8) == entry_opening() {
        match unquote(bytes, 8) {
            Some((entry_type, comma)) => if comma < bytes.len() && bytes[comma] == 0x2c {
                match unquote(bytes, comma + 1) {
                    Some((value, end)) => if bytes.subrange(end, bytes.len() as int)
                        == entry_closing() {
                        Some(EntryView { entry_type, value })
                    } else {
                        None
                    },
                    None => None,
                }
            } else {
                None
            },
            None => None,
        }
    } else {
        None
    }
}

/// The address of an entry: the content address of its canonical form.
pub open spec fn entry_address(entry: EntryView) -> Seq<u8> {
    content_address(canonical_form(entry))
}

impl Clone for Entry {
    fn clone(&self) -> (copy: Self)
        ensures
            copy@ == self@,
    {
        Entry {
            entry_type: copy_of(self.entry_type.as_slice()),
            value: copy_of(self.value.as_slice()),
        }
    }
}

impl Entry {
    /// An entry of type `entry_type` whose value is the JSON text `value`.
    pub fn new(entry_type: Vec<u8>, value: Vec<u8>) -> (entry: Self)
        ensures
            entry@ == (EntryView { entry_type: entry_type@, value: value@ }),
    {
        Entry { entry_type, value }
    }

    /// An entry of type `entry_type` whose value is the string `text`: the
    /// value held is `text` as a JSON string literal.
    pub fn from_text(entry_type: &str, text: &str) -> (entry: Self)
        ensures
            entry@ == (EntryView {
                entry_type: entry_type.spec_bytes(),
                value: quote(text.spec_bytes()),
            }),
    {
        Entry { entry_type: copy_of(entry_type.as_bytes()), value: quoted(text.as_bytes()) }
    }

    /// The entry that `content` is the canonical form of.
    ///
    /// There is one if and only if `content` is the canonical form of some
    /// entry, and then it is that entry.
    pub fn from_content(content: &[u8]) -> (entry: Option<Self>)
        ensures
            match entry {
                Some(e) => canonical_form(e@) == content@,
                None => forall|e: EntryView| canonical_form(e) != content@,
            },
            match entry {
                Some(e) => parse_entry(content@) == Some(e@),
                None => parse_entry(content@) is None,
            },
    {
        proof {
            if parse_entry(content@) is Some {
                law_parse_reads_only_canonical_forms(content@);
            }
            assert forall|e: EntryView| canonical_form(e) == content@ implies parse_entry(
                content@,
            ) is Some by {
                law_parse_inverts_canonical_form(e);
            }
        }
        let opening: [u8; 8] = [0x7b, 0x22, 0x41, 0x70, 0x70, 0x22, 0x3a, 0x5b];
        let closing: [u8; 2] = [0x5d, 0x7d];
        if !stands_at(content, 0, opening.as_slice()) {
            return None;
        }
        let (entry_type, comma) = match read_quoted(content, 8) {
            Some(read) => read,
            None => {
                return None;
            },
        };
        if comma >= content.len() || content[comma] != 0x2c {
            return None;
        }
        let (value, end) = match read_quoted(content, comma + 1) {
            Some(read) => read,
            None => {
                return None;
            },
        };
        if !(stands_at(content, end, closing.as_slice()) && content.len() - end == 2) {
            return None;
        }
        Some(Entry { entry_type, value })
    }

    /// The type tag.
    pub fn entry_type(&self) -> (tag: &[u8])
        ensures
            tag@ == self@.entry_type,
    {
        self.entry_type.as_slice()
    }

    /// The value, as JSON text.
    pub fn value(&self) -> (value: &[u8])
        ensures
            value@ == self@.value,
    {
        self.value.as_slice()
    }

    /// The canonical serialized form.
    pub fn content(&self) -> (content: Vec<u8>)
        ensures
            content@ == canonical_form(self@),
    {
        let mut out: Vec<u8> = Vec::new();
        out.push(0x7b);
        out.push(0x22);
        out.push(0x41);
        out.push(0x70);
        out.push(0x70);
        out.push(0x22);
        out.push(0x3a);
        out.push(0x5b);
        push_quoted(&mut out, self.entry_type.as_slice());
        out.push(0x2c);
        push_quoted(&mut out, self.value.as_slice());
        out.push(0x5d);
        out.push(0x7d);
        out
    }

    /// The address, computed from the content on every call.
    pub fn address(&self) -> (address: Address)
        ensures
            address@ == entry_address(self@),
    {
        let content = self.content();
        Address::of_content(content.as_slice())
    }

    /// Whether `other` has the same type tag and the same value.
    pub fn same_as(&self, other: &Entry) -> (same: bool)
        ensures
            same == (self@ == other@),
    {
        same_bytes(self.entry_type.as_slice(), other.entry_type.as_slice()) && same_bytes(
            self.value.as_slice(),
            other.value.as_slice(),
        )
    }
}

/// Content addressing: the address of an entry is a function of its
/// canonical form alone, so entries that serialize identically have the same
/// address; and two entries have the same address exactly when their
/// canonical forms have the same digest.
pub proof fn law_address_follows_content(a: EntryView, b: EntryView)
    ensures
        canonical_form(a) == canonical_form(b) ==> entry_address(a) == entry_address(b),
        entry_address(a) == entry_address(b) <==> sha256_digest(canonical_form(a))
            == sha256_digest(canonical_form(b)),
{
    if entry_address(a) == entry_address(b) {
        law_hex_encode_is_injective(
            sha256_digest(canonical_form(a)),
            sha256_digest(canonical_form(b)),
        );
    }
}

/// Parsing inverts serializing: the canonical form of an entry is parsed as
/// that entry.
pub proof fn law_parse_inverts_canonical_form(entry: EntryView)
    ensures
        parse_entry(canonical_form(entry)) == Some(entry),
{
    let bytes = canonical_form(entry);
    let first = quote(entry.entry_type);
    let second = quote(entry.value);
    let comma = 8 + first.len() as int;
    let end = comma + 1 + second.len();
    assert(bytes.subrange(0, 8) =~= entry_opening());
    assert(bytes.subrange(8, comma) =~= first);
    law_unquote_inverts_quote(bytes, 8, entry.entry_type);
    assert(bytes.subrange(comma + 1, end) =~= second);
    law_unquote_inverts_quote(bytes, comma + 1, entry.value);
    assert(bytes.subrange(end, bytes.len() as int) =~= entry_closing());
}

/// Only canonical forms are parsed: bytes that are parsed as an entry are the
/// canonical form of that entry.
pub proof fn law_parse_reads_only_canonical_forms(bytes: Seq<u8>)
    requires
        parse_entry(bytes) is Some,
    ensures
        canonical_form(parse_entry(bytes)->0) == bytes,
{
    let (entry_type, comma) = unquote(bytes, 8)->0;
    let (value, end) = unquote(bytes, comma + 1)->0;
    law_unquote_reads_only_quotes(bytes, 8);
    law_unquote_reads_only_quotes(bytes, comma + 1);
    assert(bytes =~= bytes.subrange(0, 8) + bytes.subrange(8, comma) + seq![0x2cu8]
        + bytes.subrange(comma + 1, end) + bytes.subrange(end, bytes.len() as int));
}

/// Entries that serialize identically are the same entry.
pub proof fn law_canonical_form_is_injective(a: EntryView, b: EntryView)
    requires
        canonical_form(a) == canonical_form(b),
    ensures
        a == b,
{
    law_parse_inverts_canonical_form(a);
    law_parse_inverts_canonical_form(b);
}

} // verus!
