//! The source chain: an agent's private, append-only hash chain.
//!
//! Every committed entry has a header. A header names the entry by its address
//! and links to the header before it by that header's address, so the address
//! of the newest header, the chain head, fixes the whole history.

use crate::address::{copy_optional, optional_address, same_optional, Address};
use crate::bytes::{copy_of, push_all};
use crate::hash::content_address;
use crate::json::{push_quoted, quote};
use vstd::prelude::*;
use vstd::string::StringSliceAdditionalSpecFns;

verus! {

/// The record of one committed entry.
#[derive(Debug, PartialEq, Eq)]
pub struct ChainHeader {
    entry_type: Vec<u8>,
    entry_address: Address,
    link: Option<Address>,
    link_crud: Option<Address>,
}

/// What a header holds.
pub struct HeaderView {
    /// The type tag of the entry.
    pub entry_type: Seq<u8>,
    /// The address of the entry.
    pub entry_address: Seq<u8>,
    /// The address of the header before this one; none in the first header.
    pub link: Option<Seq<u8>>,
    /// The address of the entry that this entry supersedes, if it does.
    pub link_crud: Option<Seq<u8>>,
}

impl View for ChainHeader {
    type V = HeaderView;

    closed spec fn view(&self) -> HeaderView {
        HeaderView {
            entry_type: self.entry_type@,
            entry_address: self.entry_address@,
            link: optional_address(self.link),
            link_crud: optional_address(self.link_crud),
        }
    }
}

/// An optional address in a canonical form: a string literal, or `null`.
pub open spec fn optional_form(address: Option<Seq<u8>>) -> Seq<u8> {
    match address {
        Some(a) => quote(a),
        None => "null".spec_bytes(),
    }
}

/// The canonical serialized form of a header: a JSON object with the members
/// `entry_type`, `entry_address`, `link` and `link_crud`, in this order.
pub open spec fn header_form(header: HeaderView) -> Seq<u8> {
    "{\"entry_type\":".spec_bytes() + quote(header.entry_type) + ",\"entry_address\":".spec_bytes()
        + quote(header.entry_address) + ",\"link\":".spec_bytes() + optional_form(header.link)
        + ",\"link_crud\":".spec_bytes() + optional_form(header.link_crud) + "}".spec_bytes()
}

/// The address of a header: the content address of its canonical form.
pub open spec fn header_address(header: HeaderView) -> Seq<u8> {
    content_address(header_form(header))
}

fn push_optional(out: &mut Vec<u8>, address: &Option<Address>)
    ensures
        final(out)@ == old(out)@ + optional_form(optional_address(*address)),
{
    match address {
        Some(a) => push_quoted(out, a.as_bytes()),
        None => push_all(out, "null".as_bytes()),
    }
}

impl Clone for ChainHeader {
    fn clone(&self) -> (copy: Self)
        ensures
            copy@ == self@,
    {
        ChainHeader {
            entry_type: copy_of(self.entry_type.as_slice()),
            entry_address: self.entry_address.clone(),
            link: copy_optional(&self.link),
            link_crud: copy_optional(&self.link_crud),
        }
    }
}

impl ChainHeader {
    /// A header with these four parts.
    pub fn new(
        entry_type: Vec<u8>,
        entry_address: Address,
        link: Option<Address>,
        link_crud: Option<Address>,
    ) -> (header: Self)
        ensures
            header@ == (HeaderView {
                entry_type: entry_type@,
                entry_address: entry_address@,
                link: optional_address(link),
                link_crud: optional_address(link_crud),
            }),
    {
        ChainHeader { entry_type, entry_address, link, link_crud }
    }

    /// The type tag of the entry.
    pub fn entry_type(&self) -> (tag: &[u8])
        ensures
            tag@ == self@.entry_type,
    {
        self.entry_type.as_slice()
    }

    /// The address of the entry.
    pub fn entry_address(&self) -> (address: &Address)
        ensures
            address@ == self@.entry_address,
    {
        &self.entry_address
    }

    /// The address of the header before this one.
    pub fn link(&self) -> (link: &Option<Address>)
        ensures
            optional_address(*link) == self@.link,
    {
        &self.link
    }

    /// The address of the entry that this entry supersedes.
    pub fn link_crud(&self) -> (link: &Option<Address>)
        ensures
            optional_address(*link) == self@.link_crud,
    {
        &self.link_crud
    }

    /// The canonical serialized form.
    pub fn content(&self) -> (content: Vec<u8>)
        ensures
            content@ == header_form(self@),
    {
        let mut out: Vec<u8> = Vec::new();
        push_all(&mut out, "{\"entry_type\":".as_bytes());
        push_quoted(&mut out, self.entry_type.as_slice());
        push_all(&mut out, ",\"entry_address\":".as_bytes());
        push_quoted(&mut out, self.entry_address.as_bytes());
        push_all(&mut out, ",\"link\":".as_bytes());
        push_optional(&mut out, &self.link);
        push_all(&mut out, ",\"link_crud\":".as_bytes());
        push_optional(&mut out, &self.link_crud);
        push_all(&mut out, "}".as_bytes());
        assert(out@ =~= header_form(self@));
        out
    }

    /// The address, computed from the content on every call.
    pub fn address(&self) -> (address: Address)
        ensures
            address@ == header_address(self@),
    {
        let content = self.content();
        Address::of_content(content.as_slice())
    }
}

/// The headers of a chain, oldest first.
pub open spec fn header_views(headers: Seq<ChainHeader>) -> Seq<HeaderView> {
    Seq::new(headers.len(), |i: int| headers[i]@)
}

/// The chain head: the address of the newest header; none while the chain is
/// empty.
pub open spec fn chain_head(chain: Seq<HeaderView>) -> Option<Seq<u8>> {
    if chain.len() == 0 {
        None
    } else {
        Some(header_address(chain.last()))
    }
}

/// Whether an entry with this address has been committed to the chain.
pub open spec fn holds_entry(chain: Seq<HeaderView>, address: Seq<u8>) -> bool {
    exists|i: int| 0 <= i < chain.len() && #[trigger] chain[i].entry_address == address
}

/// Whether the history is intact: every header links to the header before
/// it, and the first to none.
pub open spec fn consistent(chain: Seq<HeaderView>) -> bool {
    forall|i: int|
        0 <= i < chain.len() ==> #[trigger] chain[i].link == chain_head(chain.take(i))
}

/// An agent's source chain.
pub struct SourceChain {
    headers: Vec<ChainHeader>,
}

impl View for SourceChain {
    type V = Seq<HeaderView>;

    closed spec fn view(&self) -> Seq<HeaderView> {
        header_views(self.headers@)
    }
}

impl SourceChain {
    /// A chain without entries.
    pub fn new() -> (chain: Self)
        ensures
            chain@ == Seq::<HeaderView>::empty(),
    {
        let chain = SourceChain { headers: Vec::new() };
        chain
    }

    /// The chain made of `headers`, oldest first, as they were persisted. The
    /// links are not examined here: see [`SourceChain::is_consistent`].
    pub fn restore(headers: Vec<ChainHeader>) -> (chain: Self)
        ensures
            chain@ == header_views(headers@),
    {
        SourceChain { headers }
    }

    /// The number of committed entries.
    pub fn len(&self) -> (n: usize)
        ensures
            n == self@.len(),
    {
        self.headers.len()
    }

    /// The header at `index`, counted from the oldest.
    pub fn header(&self, index: usize) -> (header: Option<&ChainHeader>)
        ensures
            match header {
                Some(h) => index < self@.len() && h@ == self@[index as int],
                None => index >= self@.len(),
            },
    {
        if index < self.headers.len() {
            Some(&self.headers[index])
        } else {
            None
        }
    }

    /// Copies of all headers, oldest first.
    pub fn headers(&self) -> (copies: Vec<ChainHeader>)
        ensures
            header_views(copies@) == self@,
    {
        let mut copies: Vec<ChainHeader> = Vec::new();
        let mut i: usize = 0;
        while i < self.headers.len()
            invariant
                i <= self.headers@.len(),
                copies@.len() == i,
                forall|k: int| 0 <= k < i ==> copies@[k]@ == self.headers@[k]@,
            decreases self.headers@.len() - i,
        {
            copies.push(self.headers[i].clone());
            i += 1;
        }
        copies
    }

    /// The chain head.
    pub fn head(&self) -> (head: Option<Address>)
        ensures
            optional_address(head) == chain_head(self@),
    {
        let n = self.headers.len();
        if n == 0 {
            None
        } else {
            Some(self.headers[n - 1].address())
        }
    }

    /// Whether an entry with this address has been committed.
    pub fn contains_entry(&self, address: &Address) -> (held: bool)
        ensures
            held == holds_entry(self@, address@),
    {
        let mut i: usize = 0;
        while i < self.headers.len()
            invariant
                i <= self.headers@.len(),
                forall|k: int| 0 <= k < i ==> (#[trigger] self@[k]).entry_address != address@,
            decreases self.headers@.len() - i,
        {
            if self.headers[i].entry_address.same_as(address) {
                assert(self@[i as int].entry_address == address@);
                return true;
            }
            i += 1;
        }
        false
    }

    /// Whether the history is intact. Every header is hashed anew.
    pub fn is_consistent(&self) -> (intact: bool)
        ensures
            intact == consistent(self@),
    {
        let mut expected: Option<Address> = None;
        let mut i: usize = 0;
        while i < self.headers.len()
            invariant
                i <= self.headers@.len(),
                optional_address(expected) == chain_head(self@.take(i as int)),
                forall|k: int| 0 <= k < i ==> (#[trigger] self@[k]).link == chain_head(self@.take(k)),
            decreases self.headers@.len() - i,
        {
            if !same_optional(&self.headers[i].link, &expected) {
                assert(self@[i as int].link != chain_head(self@.take(i as int)));
                return false;
            }
            expected = Some(self.headers[i].address());
            i += 1;
        }
        true
    }

    /// Appends `header` as the newest.
    pub(crate) fn append(&mut self, header: ChainHeader)
        ensures
            final(self)@ == old(self)@.push(header@),
    {
        self.headers.push(header);
    }
}

/// An intact chain stays intact when a header that links to its head is
/// appended, and the entries it held are still held.
pub proof fn law_append_keeps_history(chain: Seq<HeaderView>, header: HeaderView)
    requires
        consistent(chain),
        header.link == chain_head(chain),
    ensures
        consistent(chain.push(header)),
        chain.push(header).take(chain.len() as int) == chain,
        holds_entry(chain.push(header), header.entry_address),
        forall|a: Seq<u8>| holds_entry(chain, a) ==> holds_entry(chain.push(header), a),
{
    let longer = chain.push(header);
    assert(longer.take(chain.len() as int) =~= chain);
    assert forall|i: int| 0 <= i < chain.len() implies longer.take(i) == chain.take(i) by {
        assert(longer.take(i) =~= chain.take(i));
    }
    assert(longer[chain.len() as int].entry_address == header.entry_address);
    assert forall|a: Seq<u8>| holds_entry(chain, a) implies holds_entry(longer, a) by {
        let i = choose|i: int| 0 <= i < chain.len() && #[trigger] chain[i].entry_address == a;
        assert(longer[i].entry_address == a);
    }
}

} // verus!
