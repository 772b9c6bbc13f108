//! The fixed-size packed item record.
//!
//! A record is `MINT_ENTRY_SIZE` bytes: three fixed-width slots holding the
//! item's name, symbol and URI. Each slot starts with a four-byte
//! little-endian length prefix naming the slot's content width, followed by
//! the content left-aligned and null-filled to that width. Decoding strips
//! the null filling back off.

use vstd::prelude::*;

verus! {

/// Width of the name slot of a packed item record, in bytes.
pub const MAX_NAME_LENGTH: usize = 32;

/// Width of the symbol slot of a packed item record, in bytes.
pub const MAX_SYMBOL_LENGTH: usize = 10;

/// Width of the URI slot of a packed item record, in bytes.
pub const MAX_URI_LENGTH: usize = 200;

/// Size of one packed item record: the three fixed-width slots together.
pub const MINT_ENTRY_SIZE: usize = 242;

/// Content width of a slot: the slot minus its four-byte length prefix.
pub const NAME_CONTENT_WIDTH: usize = 28;

/// Content width of the symbol slot.
pub const SYMBOL_CONTENT_WIDTH: usize = 6;

/// Content width of the URI slot.
pub const URI_CONTENT_WIDTH: usize = 196;

/// One decodable item: the value a draw hands to the issuance collaborator.
pub struct MintEntry {
    pub name: Vec<u8>,
    pub symbol: Vec<u8>,
    pub uri: Vec<u8>,
}

/// The mathematical model of an item: its three byte strings.
pub struct MintEntryView {
    pub name: Seq<u8>,
    pub symbol: Seq<u8>,
    pub uri: Seq<u8>,
}

impl View for MintEntry {
    type V = MintEntryView;

    open spec fn view(&self) -> MintEntryView {
        MintEntryView { name: self.name@, symbol: self.symbol@, uri: self.uri@ }
    }
}

/// `s` extended with null bytes to `width` bytes.
pub open spec fn spec_pad_zero(s: Seq<u8>, width: nat) -> Seq<u8>
    recommends
        s.len() <= width,
{
    s + Seq::new((width - s.len()) as nat, |i| 0u8)
}

/// One encoded slot: the little-endian content width (always below 256, so
/// three of its four bytes are zero) followed by the null-filled content.
pub open spec fn spec_slot(s: Seq<u8>, content_width: nat) -> Seq<u8>
    recommends
        s.len() <= content_width,
        content_width < 256,
{
    seq![content_width as u8, 0u8, 0u8, 0u8] + spec_pad_zero(s, content_width)
}

/// The full encoded record of an item.
pub open spec fn spec_encode_entry(v: MintEntryView) -> Seq<u8> {
    spec_slot(v.name, NAME_CONTENT_WIDTH as nat) + spec_slot(v.symbol, SYMBOL_CONTENT_WIDTH as nat)
        + spec_slot(v.uri, URI_CONTENT_WIDTH as nat)
}

/// `s` with its trailing null bytes removed.
pub open spec fn spec_strip_trailing_zeros(s: Seq<u8>) -> Seq<u8>
    decreases s.len(),
{
    if s.len() > 0 && s.last() == 0u8 {
        spec_strip_trailing_zeros(s.drop_last())
    } else {
        s
    }
}

/// The item modelled by an encoded record: each slot's content with the null
/// filling stripped. The length prefixes are not consulted.
pub open spec fn spec_decode_entry(r: Seq<u8>) -> MintEntryView
    recommends
        r.len() == MINT_ENTRY_SIZE,
{
    MintEntryView {
        name: spec_strip_trailing_zeros(r.subrange(4, 32)),
        symbol: spec_strip_trailing_zeros(r.subrange(36, 42)),
        uri: spec_strip_trailing_zeros(r.subrange(46, 242)),
    }
}

/// Appending null bytes never changes the stripped value.
proof fn lemma_strip_zeros_of_padding(s: Seq<u8>, k: nat)
    ensures
        spec_strip_trailing_zeros(s + Seq::new(k, |i| 0u8)) == spec_strip_trailing_zeros(s),
    decreases k,
{
    if k == 0 {
        assert(s + Seq::new(0, |i| 0u8) =~= s);
    } else {
        let t = s + Seq::new(k, |i| 0u8);
        assert(t.last() == 0u8);
        assert(t.drop_last() =~= s + Seq::new((k - 1) as nat, |i| 0u8));
        lemma_strip_zeros_of_padding(s, (k - 1) as nat);
    }
}

/// Stripping leaves a byte string without trailing nulls unchanged.
proof fn lemma_strip_no_trailing_zero(s: Seq<u8>)
    requires
        s.len() == 0 || s.last() != 0u8,
    ensures
        spec_strip_trailing_zeros(s) == s,
{
}

/// Decoding inverts encoding, for items whose fields fit their slots and do
/// not themselves end in a null byte.
pub proof fn lemma_entry_round_trip(v: MintEntryView)
    requires
        v.name.len() <= NAME_CONTENT_WIDTH,
        v.symbol.len() <= SYMBOL_CONTENT_WIDTH,
        v.uri.len() <= URI_CONTENT_WIDTH,
        v.name.len() == 0 || v.name.last() != 0u8,
        v.symbol.len() == 0 || v.symbol.last() != 0u8,
        v.uri.len() == 0 || v.uri.last() != 0u8,
    ensures
        spec_encode_entry(v).len() == MINT_ENTRY_SIZE,
        spec_decode_entry(spec_encode_entry(v)) == v,
{
    let r = spec_encode_entry(v);
    assert(r.subrange(4, 32) =~= spec_pad_zero(v.name, NAME_CONTENT_WIDTH as nat));
    assert(r.subrange(36, 42) =~= spec_pad_zero(v.symbol, SYMBOL_CONTENT_WIDTH as nat));
    assert(r.subrange(46, 242) =~= spec_pad_zero(v.uri, URI_CONTENT_WIDTH as nat));
    lemma_strip_zeros_of_padding(v.name, (NAME_CONTENT_WIDTH - v.name.len()) as nat);
    lemma_strip_zeros_of_padding(v.symbol, (SYMBOL_CONTENT_WIDTH - v.symbol.len()) as nat);
    lemma_strip_zeros_of_padding(v.uri, (URI_CONTENT_WIDTH - v.uri.len()) as nat);
    lemma_strip_no_trailing_zero(v.name);
    lemma_strip_no_trailing_zero(v.symbol);
    lemma_strip_no_trailing_zero(v.uri);
}

/// Appends one encoded slot to `out`.
fn push_slot(out: &mut Vec<u8>, content: &Vec<u8>, content_width: usize)
    requires
        content@.len() <= content_width,
        content_width < 256,
        old(out)@.len() + content_width + 4 <= usize::MAX,
    ensures
        final(out)@ == old(out)@ + spec_slot(content@, content_width as nat),
{
    let ghost base = out@;
    out.push(content_width as u8);
    out.push(0u8);
    out.push(0u8);
    out.push(0u8);
    let mut i: usize = 0;
    while i < content.len()
        invariant
            0 <= i <= content@.len() <= content_width < 256,
            out@ == base + seq![content_width as u8, 0u8, 0u8, 0u8] + content@.take(i as int),
            out@.len() == base.len() + 4 + i,
        decreases content@.len() - i,
    {
        out.push(content[i]);
        assert(content@.take(i + 1) =~= content@.take(i as int).push(content@[i as int]));
        i = i + 1;
    }
    assert(content@.take(content@.len() as int) =~= content@);
    let mut j: usize = content.len();
    while j < content_width
        invariant
            content@.len() <= j <= content_width < 256,
            out@ == base + seq![content_width as u8, 0u8, 0u8, 0u8] + content@ + Seq::new(
                (j - content@.len()) as nat,
                |i| 0u8,
            ),
        decreases content_width - j,
    {
        out.push(0u8);
        assert(Seq::new((j + 1 - content@.len()) as nat, |i| 0u8) =~= Seq::new(
            (j - content@.len()) as nat,
            |i| 0u8,
        ).push(0u8));
        j = j + 1;
    }
    assert(final(out)@ =~= old(out)@ + spec_slot(content@, content_width as nat));
}

/// Encodes an item into one fixed-size record.
pub fn encode_mint_entry(e: &MintEntry) -> (r: Vec<u8>)
    requires
        e.name@.len() <= NAME_CONTENT_WIDTH,
        e.symbol@.len() <= SYMBOL_CONTENT_WIDTH,
        e.uri@.len() <= URI_CONTENT_WIDTH,
    ensures
        r@ == spec_encode_entry(e@),
        r@.len() == MINT_ENTRY_SIZE,
{
    let mut r: Vec<u8> = Vec::new();
    push_slot(&mut r, &e.name, NAME_CONTENT_WIDTH);
    push_slot(&mut r, &e.symbol, SYMBOL_CONTENT_WIDTH);
    push_slot(&mut r, &e.uri, URI_CONTENT_WIDTH);
    assert(r@ =~= spec_encode_entry(e@));
    r
}

/// Copies `record[start..end]` with its trailing null bytes removed.
fn read_stripped(record: &Vec<u8>, start: usize, end: usize) -> (r: Vec<u8>)
    requires
        start <= end <= record@.len(),
    ensures
        r@ == spec_strip_trailing_zeros(record@.subrange(start as int, end as int)),
{
    let mut stop: usize = end;
    while stop > start && record[stop - 1] == 0u8
        invariant
            start <= stop <= end <= record@.len(),
            spec_strip_trailing_zeros(record@.subrange(start as int, end as int))
                == spec_strip_trailing_zeros(record@.subrange(start as int, stop as int)),
        decreases stop,
    {
        let ghost cur = record@.subrange(start as int, stop as int);
        assert(cur.last() == 0u8);
        assert(cur.drop_last() =~= record@.subrange(start as int, stop - 1));
        stop = stop - 1;
    }
    proof {
        let cur = record@.subrange(start as int, stop as int);
        assert(cur.len() == 0 || cur.last() != 0u8);
        lemma_strip_no_trailing_zero(cur);
    }
    let mut r: Vec<u8> = Vec::new();
    let mut i: usize = start;
    while i < stop
        invariant
            start <= i <= stop <= record@.len(),
            r@ == record@.subrange(start as int, i as int),
        decreases stop - i,
    {
        r.push(record[i]);
        assert(record@.subrange(start as int, i + 1) =~= record@.subrange(
            start as int,
            i as int,
        ).push(record@[i as int]));
        i = i + 1;
    }
    r
}

/// Decodes one fixed-size record back into an item.
pub fn decode_mint_entry(record: &Vec<u8>) -> (r: MintEntry)
    requires
        record@.len() == MINT_ENTRY_SIZE,
    ensures
        r@ == spec_decode_entry(record@),
{
    let name = read_stripped(record, 4, 32);
    let symbol = read_stripped(record, 36, 42);
    let uri = read_stripped(record, 46, 242);
    MintEntry { name, symbol, uri }
}

} // verus!
