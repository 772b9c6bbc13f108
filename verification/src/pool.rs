//! The pool account: the configuration header plus the packed record store.
//!
//! The backing region is one contiguous byte buffer: the serialized header
//! immediately followed by one fixed-size record per undrawn item. Every
//! operation keeps the region's size exactly equal to the header size plus
//! the live record block, so any change to either relocates and resizes in
//! the same step.

use crate::address::AccountId;
use crate::config::{spec_account_size, spec_config_serialized_size,
    spec_config_serialized_size_parts, spec_config_valid, spec_output_config_valid, MintConfig};
use crate::entry::{decode_mint_entry, encode_mint_entry, spec_decode_entry, spec_encode_entry,
    MintEntry, MintEntryView, MINT_ENTRY_SIZE, NAME_CONTENT_WIDTH, SYMBOL_CONTENT_WIDTH,
    URI_CONTENT_WIDTH};
use crate::errors::ErrorCode;
use vstd::multiset::Multiset;
use vstd::prelude::*;
use vstd::seq_lib::{to_multiset_remove, to_multiset_update};

verus! {

/// A pool's full persisted state: the decoded header and the backing bytes.
pub struct PoolAccount {
    /// The decoded configuration header.
    pub config: MintConfig,
    /// The whole backing region: header bytes, then the packed records.
    pub data: Vec<u8>,
}

/// An all-zero record: the content of a slot that was skipped over when
/// records were added out of order.
pub open spec fn zero_record() -> Seq<u8> {
    Seq::new(MINT_ENTRY_SIZE as nat, |i| 0u8)
}

impl PoolAccount {
    /// Undrawn items: the number of live records.
    pub open spec fn spec_remaining(self) -> nat
        recommends
            self.config.count <= self.config.supply,
    {
        (self.config.supply - self.config.count) as nat
    }

    /// Size of the serialized header; the live record block starts here.
    pub open spec fn spec_header_size(self) -> nat {
        spec_config_serialized_size(self.config)
    }

    /// The bytes of the `i`-th live record.
    pub open spec fn spec_record_at(self, i: int) -> Seq<u8> {
        self.data@.subrange(
            self.spec_header_size() + i * MINT_ENTRY_SIZE,
            self.spec_header_size() + (i + 1) * MINT_ENTRY_SIZE,
        )
    }

    /// The live records, in slot order. Slot order carries no meaning after
    /// a removal: the store has set semantics.
    pub open spec fn records(self) -> Seq<Seq<u8>> {
        Seq::new(self.spec_remaining(), |i| self.spec_record_at(i))
    }

    /// The pool's structural invariant: the draw count never exceeds the
    /// supply, and the backing region's size is exactly the header size plus
    /// one record per undrawn item.
    pub open spec fn wf(self) -> bool {
        &&& self.config.count <= self.config.supply
        &&& spec_account_size(self.config) <= usize::MAX
        &&& self.data@.len() == spec_account_size(self.config)
    }
}

/// Copies `data[start..end]` out of the backing region.
pub fn get_slice_of_data(data: &Vec<u8>, start: usize, end: usize) -> (r: Vec<u8>)
    requires
        start <= end <= data@.len(),
    ensures
        r@ == data@.subrange(start as int, end as int),
{
    let mut r: Vec<u8> = Vec::new();
    let mut i: usize = start;
    while i < end
        invariant
            start <= i <= end <= data@.len(),
            r@ == data@.subrange(start as int, i as int),
        decreases end - i,
    {
        r.push(data[i]);
        assert(data@.subrange(start as int, i + 1) =~= data@.subrange(start as int, i as int).push(
            data@[i as int],
        ));
        i = i + 1;
    }
    r
}

/// Writes `src` over `data[start..start + src.len()]`.
fn write_bytes(data: &mut Vec<u8>, start: usize, src: &Vec<u8>)
    requires
        start + src@.len() <= old(data)@.len(),
    ensures
        final(data)@.len() == old(data)@.len(),
        final(data)@.subrange(start as int, start + src@.len()) == src@,
        forall|k: int|
            0 <= k < old(data)@.len() && !(start <= k < start + src@.len()) ==> final(data)@[k]
                == old(data)@[k],
{
    let _data_len = data.len();
    assert(data@.len() <= usize::MAX);
    let mut i: usize = 0;
    while i < src.len()
        invariant
            0 <= i <= src@.len(),
            data@.len() <= usize::MAX,
            start + src@.len() <= data@.len() == old(data)@.len(),
            forall|j: int| 0 <= j < i ==> data@[start + j] == src@[j],
            forall|k: int|
                0 <= k < data@.len() && !(start <= k < start + i) ==> data@[k] == old(data)@[k],
        decreases src@.len() - i,
    {
        let b = src[i];
        data[start + i] = b;
        i = i + 1;
    }
    assert(data@.subrange(start as int, start + src@.len()) =~= src@);
}

/// Extends the backing region with zero bytes up to `new_len`.
fn grow_zero(data: &mut Vec<u8>, new_len: usize)
    requires
        old(data)@.len() <= new_len,
    ensures
        final(data)@.len() == new_len,
        final(data)@.subrange(0, old(data)@.len() as int) == old(data)@,
        forall|k: int| old(data)@.len() <= k < new_len ==> final(data)@[k] == 0u8,
{
    while data.len() < new_len
        invariant
            old(data)@.len() <= data@.len() <= new_len,
            data@.subrange(0, old(data)@.len() as int) == old(data)@,
            forall|k: int| old(data)@.len() <= k < data@.len() ==> data@[k] == 0u8,
        decreases new_len - data@.len(),
    {
        data.push(0u8);
        assert(data@.subrange(0, old(data)@.len() as int) =~= old(data)@);
    }
}

/// Moves the live record block from the end of the old region layout to the
/// end of the new one, in place.
///
/// When the header shrinks the block moves towards the start, and the copy
/// must happen before the region is truncated; when the header grows the
/// block moves towards the end, and the region must have been grown first.
/// Either way the buffer is always large enough to hold both positions of
/// the block, so a failure between the copy and the resize loses no data.
pub fn reposition_mint_entries(
    data: &mut Vec<u8>,
    original_data_length: usize,
    new_data_length: usize,
    entries_length: usize,
)
    requires
        entries_length <= original_data_length <= old(data)@.len(),
        entries_length <= new_data_length <= old(data)@.len(),
    ensures
        final(data)@.len() == old(data)@.len(),
        final(data)@.subrange(new_data_length - entries_length, new_data_length as int) == old(
            data,
        )@.subrange(original_data_length - entries_length, original_data_length as int),
        forall|k: int|
            0 <= k < old(data)@.len() && !(new_data_length - entries_length <= k
                < new_data_length) ==> final(data)@[k] == old(data)@[k],
{
    let _data_len = data.len();
    assert(data@.len() <= usize::MAX);
    let old_start = original_data_length - entries_length;
    let new_start = new_data_length - entries_length;
    if new_start <= old_start {
        let mut i: usize = 0;
        while i < entries_length
            invariant
                0 <= i <= entries_length,
                new_start <= old_start,
                old_start + entries_length <= data@.len(),
                new_start + entries_length <= data@.len(),
                data@.len() <= usize::MAX,
                data@.len() == old(data)@.len(),
                forall|j: int| 0 <= j < i ==> #[trigger] data@[new_start + j] == old(data)@[old_start + j],
                forall|k: int|
                    0 <= k < data@.len() && !(new_start <= k < new_start + i) ==> data@[k] == old(
                        data,
                    )@[k],
            decreases entries_length - i,
        {
            let b = data[old_start + i];
            assert(data@[old_start + i] == old(data)@[old_start + i]);
            data[new_start + i] = b;
            i = i + 1;
        }
    } else {
        let mut i: usize = entries_length;
        while i > 0
            invariant
                0 <= i <= entries_length,
                old_start < new_start,
                old_start + entries_length <= data@.len(),
                new_start + entries_length <= data@.len(),
                data@.len() <= usize::MAX,
                data@.len() == old(data)@.len(),
                forall|j: int|
                    i <= j < entries_length ==> #[trigger] data@[new_start + j] == old(data)@[
                        old_start + j
                    ],
                forall|k: int|
                    0 <= k < data@.len() && !(new_start + i <= k < new_start + entries_length)
                        ==> data@[k] == old(data)@[k],
            decreases i,
        {
            i = i - 1;
            let b = data[old_start + i];
            assert(data@[old_start + i] == old(data)@[old_start + i]);
            data[new_start + i] = b;
        }
    }
    assert(forall|m: int|
        0 <= m < entries_length ==> #[trigger] data@[new_start + m] == old(data)@[old_start + m]);
    assert forall|m: int| 0 <= m < entries_length implies data@.subrange(
        new_start as int,
        new_data_length as int,
    )[m] == old(data)@.subrange(old_start as int, original_data_length as int)[m] by {
        assert(data@[new_start + m] == old(data)@[old_start + m]);
    }
    assert(data@.subrange(new_start as int, new_data_length as int) =~= old(data)@.subrange(
        old_start as int,
        original_data_length as int,
    ));
}

/// The record layout after an append at `index`: the encoded entry in slot
/// `index`, earlier slots kept, and any slots skipped over left zero-filled.
pub open spec fn spec_set_entry_records(
    old_records: Seq<Seq<u8>>,
    old_supply: int,
    index: int,
    enc: Seq<u8>,
    new_supply: int,
) -> Seq<Seq<u8>> {
    Seq::new(
        new_supply as nat,
        |i: int|
            if i == index {
                enc
            } else if i < old_supply {
                old_records[i]
            } else {
                zero_record()
            },
    )
}

/// An append at `index` does not fit the address space: the grown region
/// would need more bytes than a length can hold.
pub open spec fn spec_set_entry_overflow(c: MintConfig, index: u64) -> bool {
    ||| index == u64::MAX
    ||| spec_config_serialized_size(c) + (index + 1) * MINT_ENTRY_SIZE > usize::MAX
}

/// Writes one item record into slot `index`, growing the backing region if
/// the slot lies beyond it, and advances the supply to at least `index + 1`.
///
/// Only the authority may add records, and only before any draw has
/// happened. Slots skipped over stay zero-filled until they are written.
pub fn set_mint_entry(
    pool: &mut PoolAccount,
    signer: &AccountId,
    index: u64,
    name: Vec<u8>,
    symbol: Vec<u8>,
    uri: Vec<u8>,
) -> (r: Result<(), ErrorCode>)
    requires
        old(pool).wf(),
        name@.len() <= NAME_CONTENT_WIDTH,
        symbol@.len() <= SYMBOL_CONTENT_WIDTH,
        uri@.len() <= URI_CONTENT_WIDTH,
    ensures
        signer@ != old(pool).config.authority@ ==> r == Err::<(), ErrorCode>(
            ErrorCode::InvalidAuthority,
        ) && *final(pool) == *old(pool),
        signer@ == old(pool).config.authority@ && old(pool).config.count > 0 ==> r == Err::<
            (),
            ErrorCode,
        >(ErrorCode::MintingAlreadyStarted) && *final(pool) == *old(pool),
        signer@ == old(pool).config.authority@ && old(pool).config.count == 0
            && spec_set_entry_overflow(old(pool).config, index) ==> r == Err::<(), ErrorCode>(
            ErrorCode::ArithmeticOverflow,
        ) && *final(pool) == *old(pool),
        signer@ == old(pool).config.authority@ && old(pool).config.count == 0
            && !spec_set_entry_overflow(old(pool).config, index) ==> {
            let new_supply = if index + 1 > old(pool).config.supply {
                index + 1
            } else {
                old(pool).config.supply as int
            };
            &&& r == Ok::<(), ErrorCode>(())
            &&& final(pool).wf()
            &&& final(pool).config.bump == old(pool).config.bump
            &&& final(pool).config.authority == old(pool).config.authority
            &&& final(pool).config.name == old(pool).config.name
            &&& final(pool).config.supply == new_supply
            &&& final(pool).config.count == old(pool).config.count
            &&& final(pool).config.output_mint_config == old(pool).config.output_mint_config
            &&& final(pool).config.mint_phases == old(pool).config.mint_phases
            &&& final(pool).config.metadata == old(pool).config.metadata
            &&& final(pool).records() == spec_set_entry_records(
                old(pool).records(),
                old(pool).config.supply as int,
                index as int,
                spec_encode_entry(MintEntryView { name: name@, symbol: symbol@, uri: uri@ }),
                new_supply,
            )
        },
{
    if !(*signer == pool.config.authority) {
        return Err(ErrorCode::InvalidAuthority);
    }
    if pool.config.count > 0 {
        return Err(ErrorCode::MintingAlreadyStarted);
    }
    if index == u64::MAX {
        return Err(ErrorCode::ArithmeticOverflow);
    }
    let data_len = pool.data.len();
    let entries128: u128 = (pool.config.supply as u128) * (MINT_ENTRY_SIZE as u128);
    assert(entries128 <= data_len as u128);
    let header: usize = data_len - (entries128 as usize);
    assert(header == spec_config_serialized_size(pool.config));
    let end128: u128 = (header as u128) + ((index as u128) + 1) * (MINT_ENTRY_SIZE as u128);
    if end128 > usize::MAX as u128 {
        return Err(ErrorCode::ArithmeticOverflow);
    }
    let end: usize = end128 as usize;
    let start: usize = end - MINT_ENTRY_SIZE;
    assert(start == header + index * MINT_ENTRY_SIZE);

    let ghost pre = pool.data@;
    let ghost old_supply = pool.config.supply as int;
    let ghost old_len = data_len as int;

    if data_len < end {
        grow_zero(&mut pool.data, end);
    }
    let ghost grown = pool.data@;

    let rec = encode_mint_entry(&MintEntry { name, symbol, uri });
    write_bytes(&mut pool.data, start, &rec);

    let next = index + 1;
    if next > pool.config.supply {
        pool.config.supply = next;
    }

    proof {
        let new_supply = pool.config.supply as int;
        let h = spec_config_serialized_size(pool.config);
        assert(h == header);
        assert(pool.data@.len() == h + new_supply * MINT_ENTRY_SIZE);
        assert(pool.wf());
        let enc = spec_encode_entry(MintEntryView { name: name@, symbol: symbol@, uri: uri@ });
        let expected = spec_set_entry_records(
            old(pool).records(),
            old_supply,
            index as int,
            enc,
            new_supply,
        );
        assert forall|i: int| 0 <= i < new_supply implies pool.records()[i] == expected[i] by {
            let a = h + i * MINT_ENTRY_SIZE;
            let b = h + (i + 1) * MINT_ENTRY_SIZE;
            if i == index as int {
                assert(pool.data@.subrange(start as int, start + rec@.len()) == rec@);
                assert(pool.records()[i] =~= rec@);
            } else if i < old_supply {
                assert forall|m: int| a <= m < b implies pool.data@[m] == pre[m] by {
                    assert(grown[m] == pre[m]);
                }
                assert(pool.records()[i] =~= old(pool).records()[i]);
            } else {
                assert forall|m: int| a <= m < b implies pool.data@[m] == 0u8 by {
                    assert(grown[m] == 0u8);
                }
                assert(pool.records()[i] =~= zero_record());
            }
        }
        assert(pool.records() =~= expected);
    }
    Ok(())
}

/// Reads the record at `index`, copies the last live record into its slot,
/// and shrinks the live region by one record: the classic swap-remove. The
/// draw count advances by one and the backing region gives the freed record
/// back in the same step.
pub fn get_output_mint(pool: &mut PoolAccount, index: usize) -> (r: Result<MintEntry, ErrorCode>)
    requires
        old(pool).wf(),
    ensures
        index >= old(pool).spec_remaining() ==> (r matches Err(e) && e
            == ErrorCode::InvalidIndex && *final(pool) == *old(pool)),
        index < old(pool).spec_remaining() ==> {
            &&& r matches Ok(e) && e@ == spec_decode_entry(old(pool).records()[index as int])
            &&& final(pool).wf()
            &&& final(pool).config.bump == old(pool).config.bump
            &&& final(pool).config.authority == old(pool).config.authority
            &&& final(pool).config.name == old(pool).config.name
            &&& final(pool).config.supply == old(pool).config.supply
            &&& final(pool).config.count == old(pool).config.count + 1
            &&& final(pool).config.output_mint_config == old(pool).config.output_mint_config
            &&& final(pool).config.mint_phases == old(pool).config.mint_phases
            &&& final(pool).config.metadata == old(pool).config.metadata
            &&& final(pool).records() == old(pool).records().update(
                index as int,
                old(pool).records().last(),
            ).drop_last()
            &&& final(pool).records().to_multiset() == old(pool).records().to_multiset().remove(
                old(pool).records()[index as int],
            )
        },
{
    let remaining = pool.config.remaining_tokens();
    if remaining == 0 || index as u64 >= remaining {
        return Err(ErrorCode::InvalidIndex);
    }
    let data_len = pool.data.len();
    let entries128: u128 = (remaining as u128) * (MINT_ENTRY_SIZE as u128);
    assert(entries128 <= data_len as u128);
    let header: usize = data_len - (entries128 as usize);
    assert(header == spec_config_serialized_size(pool.config));

    let start: usize = header + index * MINT_ENTRY_SIZE;
    let end: usize = start + MINT_ENTRY_SIZE;
    let entry_slice = get_slice_of_data(&pool.data, start, end);
    assert(entry_slice@ == old(pool).records()[index as int]);
    let entry = decode_mint_entry(&entry_slice);

    let last_index: usize = (remaining - 1) as usize;
    let last_start: usize = header + last_index * MINT_ENTRY_SIZE;
    let last_end: usize = last_start + MINT_ENTRY_SIZE;
    let last_slice = get_slice_of_data(&pool.data, last_start, last_end);
    assert(last_slice@ == old(pool).records().last());

    let ghost pre = pool.data@;
    write_bytes(&mut pool.data, start, &last_slice);
    let ghost written = pool.data@;
    pool.config.count = pool.config.count + 1;
    let new_len = data_len - MINT_ENTRY_SIZE;
    pool.data.truncate(new_len);

    proof {
        let h = spec_config_serialized_size(pool.config);
        assert(h == header);
        let new_rem = pool.spec_remaining() as int;
        assert(new_rem == remaining - 1);
        assert(pool.data@.len() == h + new_rem * MINT_ENTRY_SIZE);
        assert(pool.wf());
        let expected = old(pool).records().update(
            index as int,
            old(pool).records().last(),
        ).drop_last();
        assert forall|i: int| 0 <= i < new_rem implies pool.records()[i] == expected[i] by {
            let a = h + i * MINT_ENTRY_SIZE;
            let b = h + (i + 1) * MINT_ENTRY_SIZE;
            assert(forall|m: int| 0 <= m < new_len ==> pool.data@[m] == written[m]);
            if i == index as int {
                assert(written.subrange(start as int, start + last_slice@.len())
                    == last_slice@);
                assert(pool.records()[i] =~= last_slice@);
            } else {
                assert forall|m: int| a <= m < b implies pool.data@[m] == pre[m] by {}
                assert(pool.records()[i] =~= old(pool).records()[i]);
            }
        }
        assert(pool.records() =~= expected);
        lemma_swap_remove_multiset(old(pool).records(), index as int);
    }
    Ok(entry)
}

/// Selects the pseudo-random slot `entropy mod remaining` and removes that
/// record, returning its decoded item. Fails when no items remain.
pub fn get_random_output_mint(pool: &mut PoolAccount, entropy: u64) -> (r: Result<
    MintEntry,
    ErrorCode,
>)
    requires
        old(pool).wf(),
    ensures
        old(pool).spec_remaining() == 0 ==> (r matches Err(e) && e
            == ErrorCode::NotTokensRemaining && *final(pool) == *old(pool)),
        old(pool).spec_remaining() > 0 ==> {
            let index = entropy as int % old(pool).spec_remaining() as int;
            &&& r matches Ok(e) && e@ == spec_decode_entry(old(pool).records()[index])
            &&& final(pool).wf()
            &&& final(pool).config.count == old(pool).config.count + 1
            &&& final(pool).config.supply == old(pool).config.supply
            &&& final(pool).config.authority == old(pool).config.authority
            &&& final(pool).config.mint_phases == old(pool).config.mint_phases
            &&& final(pool).config.output_mint_config == old(pool).config.output_mint_config
            &&& final(pool).config.name == old(pool).config.name
            &&& final(pool).config.bump == old(pool).config.bump
            &&& final(pool).config.metadata == old(pool).config.metadata
            &&& final(pool).records() == old(pool).records().update(
                index,
                old(pool).records().last(),
            ).drop_last()
            &&& final(pool).records().to_multiset() == old(pool).records().to_multiset().remove(
                old(pool).records()[index],
            )
        },
{
    let remaining = pool.config.remaining_tokens();
    if remaining == 0 {
        return Err(ErrorCode::NotTokensRemaining);
    }
    let pseudo_random_index = entropy % remaining;
    assert(pseudo_random_index < remaining);
    get_output_mint(pool, pseudo_random_index as usize)
}

/// Swap-removal takes exactly one occurrence of the removed record out of
/// the store's record multiset, whichever slot it sat in; so a run of draws
/// returns each stored record exactly as often as the store held it.
pub proof fn lemma_swap_remove_multiset(s: Seq<Seq<u8>>, i: int)
    requires
        0 <= i < s.len(),
    ensures
        s.update(i, s.last()).drop_last().to_multiset() == s.to_multiset().remove(s[i]),
{
    let t = s.update(i, s.last());
    assert(t.drop_last() =~= t.remove(t.len() - 1));
    to_multiset_remove(t, t.len() - 1);
    to_multiset_update(s, i, s.last());
    if i == s.len() - 1 {
        assert(t =~= s);
        assert(t.drop_last().to_multiset() =~= s.to_multiset().remove(s[i]));
    } else {
        assert(t[t.len() - 1] == s.last());
        let m = s.to_multiset();
        assert(m.insert(s.last()).remove(s[i]).remove(s.last()) =~= m.remove(s[i]));
        assert(t.drop_last().to_multiset() =~= s.to_multiset().remove(s[i]));
    }
}


/// Creates a pool: validates the configuration, then allocates a backing
/// region of exactly the header size (the supply starts at zero, so no
/// record block follows yet).
pub fn init_mint_config(
    bump: u8,
    authority: AccountId,
    name: Vec<u8>,
    output_mint_config: crate::config::OutputMintConfig,
    mint_phases: Vec<crate::phase::MintPhase>,
    metadata: Vec<u8>,
) -> (r: Result<PoolAccount, ErrorCode>)
    ensures
        output_mint_config.creators@.len() >= crate::config::MAX_CREATOR_LIMIT ==> (
        r matches Err(e) && e == ErrorCode::TooManyCreators),
        output_mint_config.creators@.len() < crate::config::MAX_CREATOR_LIMIT
            && !spec_output_config_valid(output_mint_config) ==> (r matches Err(e) && e
            == ErrorCode::ProgrammableAndMerkleTree),
        ({
            let size = spec_config_serialized_size_parts(
                name@.len(),
                output_mint_config,
                mint_phases@,
                metadata@.len(),
            );
            &&& (spec_output_config_valid(output_mint_config) && size > usize::MAX ==> (
            r matches Err(e) && e == ErrorCode::ArithmeticOverflow))
            &&& (spec_output_config_valid(output_mint_config) && size <= usize::MAX ==> (
            r matches Ok(p) && {
                &&& spec_config_valid(p.config)
                &&& p.wf()
                &&& p.config.bump == bump
                &&& p.config.authority == authority
                &&& p.config.name == name
                &&& p.config.supply == 0
                &&& p.config.count == 0
                &&& p.config.output_mint_config == output_mint_config
                &&& p.config.mint_phases == mint_phases
                &&& p.config.metadata == metadata
                &&& p.records() == Seq::<Seq<u8>>::empty()
            }))
        }),
{
    let new_config = MintConfig {
        bump,
        authority,
        name,
        supply: 0,
        count: 0,
        output_mint_config,
        mint_phases,
        metadata,
    };
    match new_config.check_valid() {
        Ok(_u) => {},
        Err(e) => {
            return Err(e);
        },
    }
    let size = match new_config.account_size() {
        Ok(v) => v,
        Err(e) => {
            return Err(e);
        },
    };
    let mut data: Vec<u8> = Vec::new();
    grow_zero(&mut data, size);
    let p = PoolAccount { config: new_config, data };
    assert(p.records() =~= Seq::<Seq<u8>>::empty());
    Ok(p)
}

/// Replaces the authority, output template, phase list and metadata in one
/// authority-signed edit, relocating the record block to sit immediately
/// after the header's new end.
///
/// When the header shrinks the records move first and the region is
/// truncated after; when it grows the region grows first. The records
/// themselves come through byte-identical.
pub fn update_mint_config(
    pool: &mut PoolAccount,
    signer: &AccountId,
    authority: AccountId,
    output_mint_config: crate::config::OutputMintConfig,
    mint_phases: Vec<crate::phase::MintPhase>,
    metadata: Vec<u8>,
) -> (r: Result<(), ErrorCode>)
    requires
        old(pool).wf(),
    ensures
        r matches Err(e) ==> *final(pool) == *old(pool),
        signer@ != old(pool).config.authority@ ==> (r matches Err(e) && e
            == ErrorCode::InvalidAuthority),
        signer@ == old(pool).config.authority@ && output_mint_config.creators@.len()
            >= crate::config::MAX_CREATOR_LIMIT ==> (r matches Err(e) && e
            == ErrorCode::TooManyCreators),
        signer@ == old(pool).config.authority@ && output_mint_config.creators@.len()
            < crate::config::MAX_CREATOR_LIMIT && !spec_output_config_valid(output_mint_config)
            ==> (r matches Err(e) && e == ErrorCode::ProgrammableAndMerkleTree),
        ({
            let size = spec_config_serialized_size_parts(
                old(pool).config.name@.len(),
                output_mint_config,
                mint_phases@,
                metadata@.len(),
            ) + old(pool).spec_remaining() * MINT_ENTRY_SIZE;
            &&& (signer@ == old(pool).config.authority@ && spec_output_config_valid(
                output_mint_config,
            ) && size > usize::MAX ==> (r matches Err(e) && e == ErrorCode::ArithmeticOverflow))
            &&& (signer@ == old(pool).config.authority@ && spec_output_config_valid(
                output_mint_config,
            ) && size <= usize::MAX ==> r == Ok::<(), ErrorCode>(()) && {
                &&& spec_config_valid(final(pool).config)
                &&& final(pool).wf()
                &&& final(pool).config.bump == old(pool).config.bump
                &&& final(pool).config.authority == authority
                &&& final(pool).config.name@ == old(pool).config.name@
                &&& final(pool).config.supply == old(pool).config.supply
                &&& final(pool).config.count == old(pool).config.count
                &&& final(pool).config.output_mint_config == output_mint_config
                &&& final(pool).config.mint_phases == mint_phases
                &&& final(pool).config.metadata == metadata
                &&& final(pool).records() == old(pool).records()
            })
        }),
{
    if !(*signer == pool.config.authority) {
        return Err(ErrorCode::InvalidAuthority);
    }
    let new_config = MintConfig {
        bump: pool.config.bump,
        authority,
        name: crate::utils::clone_bytes(&pool.config.name),
        supply: pool.config.supply,
        count: pool.config.count,
        output_mint_config,
        mint_phases,
        metadata,
    };
    match new_config.check_valid() {
        Ok(_u) => {},
        Err(e) => {
            return Err(e);
        },
    }
    let new_data_length = match new_config.account_size() {
        Ok(v) => v,
        Err(e) => {
            return Err(e);
        },
    };
    relocate_and_resize(pool, new_data_length);
    pool.config = new_config;
    proof {
        lemma_records_after_relocate(*old(pool), *pool);
    }
    Ok(())
}

/// Replaces only the metadata string, under the same relocation rule as a
/// full configuration edit.
pub fn set_mint_config_metadata(pool: &mut PoolAccount, signer: &AccountId, metadata: Vec<u8>) -> (r:
    Result<(), ErrorCode>)
    requires
        old(pool).wf(),
    ensures
        r matches Err(e) ==> *final(pool) == *old(pool),
        signer@ != old(pool).config.authority@ ==> (r matches Err(e) && e
            == ErrorCode::InvalidAuthority),
        signer@ == old(pool).config.authority@ && !spec_config_valid(old(pool).config) ==> (
        r matches Err(e) && (e == ErrorCode::TooManyCreators || e
            == ErrorCode::ProgrammableAndMerkleTree)),
        ({
            let size = old(pool).data@.len() - old(pool).config.metadata@.len()
                + metadata@.len();
            &&& (signer@ == old(pool).config.authority@ && spec_config_valid(old(pool).config)
                && size > usize::MAX ==> (r matches Err(e) && e == ErrorCode::ArithmeticOverflow))
            &&& (signer@ == old(pool).config.authority@ && spec_config_valid(old(pool).config)
                && size <= usize::MAX ==> r == Ok::<(), ErrorCode>(()) && {
                &&& final(pool).wf()
                &&& final(pool).config.bump == old(pool).config.bump
                &&& final(pool).config.authority == old(pool).config.authority
                &&& final(pool).config.name == old(pool).config.name
                &&& final(pool).config.supply == old(pool).config.supply
                &&& final(pool).config.count == old(pool).config.count
                &&& final(pool).config.output_mint_config == old(pool).config.output_mint_config
                &&& final(pool).config.mint_phases == old(pool).config.mint_phases
                &&& final(pool).config.metadata == metadata
                &&& final(pool).records() == old(pool).records()
            })
        }),
{
    if !(*signer == pool.config.authority) {
        return Err(ErrorCode::InvalidAuthority);
    }
    match pool.config.check_valid() {
        Ok(_u) => {},
        Err(e) => {
            return Err(e);
        },
    }
    let original_data_length = pool.data.len();
    let old_meta_len = pool.config.metadata.len();
    let new_len128: u128 = (original_data_length as u128) - (old_meta_len as u128) + (
    metadata.len() as u128);
    if new_len128 > usize::MAX as u128 {
        return Err(ErrorCode::ArithmeticOverflow);
    }
    let new_data_length: usize = new_len128 as usize;
    let ghost updated = MintConfig { metadata: metadata, ..old(pool).config };
    assert(spec_config_serialized_size(updated) == spec_config_serialized_size(old(pool).config)
        - old(pool).config.metadata@.len() + metadata@.len());
    assert(spec_account_size(updated) == new_data_length);
    pool.config.metadata = metadata;
    relocate_and_resize(pool, new_data_length);
    proof {
        lemma_records_after_relocate(*old(pool), *pool);
    }
    Ok(())
}

/// Closes a pool, reclaiming its storage. Only the authority may do so.
pub fn close_mint_config(pool: PoolAccount, signer: &AccountId) -> (r: Result<(), ErrorCode>)
    ensures
        signer@ == pool.config.authority@ ==> r == Ok::<(), ErrorCode>(()),
        signer@ != pool.config.authority@ ==> r == Err::<(), ErrorCode>(
            ErrorCode::InvalidAuthority,
        ),
{
    if *signer == pool.config.authority {
        Ok(())
    } else {
        Err(ErrorCode::InvalidAuthority)
    }
}

/// Moves the record block to the end of the region's new layout and resizes
/// the region, relocating before a shrink and after a growth.
fn relocate_and_resize(pool: &mut PoolAccount, new_data_length: usize)
    requires
        old(pool).config.count <= old(pool).config.supply,
        old(pool).spec_remaining() * MINT_ENTRY_SIZE <= old(pool).data@.len(),
        old(pool).spec_remaining() * MINT_ENTRY_SIZE <= new_data_length,
    ensures
        final(pool).config == old(pool).config,
        final(pool).data@.len() == new_data_length,
        final(pool).data@.subrange(
            new_data_length - old(pool).spec_remaining() * MINT_ENTRY_SIZE,
            new_data_length as int,
        ) == old(pool).data@.subrange(
            old(pool).data@.len() - old(pool).spec_remaining() * MINT_ENTRY_SIZE,
            old(pool).data@.len() as int,
        ),
{
    let original_data_length = pool.data.len();
    let remaining = pool.config.remaining_tokens();
    let entries128: u128 = (remaining as u128) * (MINT_ENTRY_SIZE as u128);
    assert(entries128 <= original_data_length as u128);
    let entries_length: usize = entries128 as usize;
    if original_data_length > new_data_length {
        reposition_mint_entries(
            &mut pool.data,
            original_data_length,
            new_data_length,
            entries_length,
        );
        pool.data.truncate(new_data_length);
        assert(pool.data@.subrange(
            new_data_length - entries_length,
            new_data_length as int,
        ) =~= old(pool).data@.subrange(
            original_data_length - entries_length,
            original_data_length as int,
        ));
    } else if original_data_length < new_data_length {
        grow_zero(&mut pool.data, new_data_length);
        reposition_mint_entries(
            &mut pool.data,
            original_data_length,
            new_data_length,
            entries_length,
        );
        assert(pool.data@.subrange(
            new_data_length - entries_length,
            new_data_length as int,
        ) =~= old(pool).data@.subrange(
            original_data_length - entries_length,
            original_data_length as int,
        ));
    } else {
        assert(pool.data@.subrange(
            new_data_length - entries_length,
            new_data_length as int,
        ) =~= old(pool).data@.subrange(
            original_data_length - entries_length,
            original_data_length as int,
        ));
    }
}

/// After a header edit that kept the counters and relocated the record
/// block, every record reads back byte-identical from its new position.
proof fn lemma_records_after_relocate(pre: PoolAccount, post: PoolAccount)
    requires
        pre.wf(),
        post.wf(),
        post.spec_remaining() == pre.spec_remaining(),
        post.data@.subrange(
            post.data@.len() - post.spec_remaining() * MINT_ENTRY_SIZE,
            post.data@.len() as int,
        ) == pre.data@.subrange(
            pre.data@.len() - pre.spec_remaining() * MINT_ENTRY_SIZE,
            pre.data@.len() as int,
        ),
    ensures
        post.records() == pre.records(),
{
    let rem = pre.spec_remaining() as int;
    let pre_start = pre.data@.len() - rem * MINT_ENTRY_SIZE;
    let post_start = post.data@.len() - rem * MINT_ENTRY_SIZE;
    assert(pre_start == pre.spec_header_size());
    assert(post_start == post.spec_header_size());
    let moved_pre = pre.data@.subrange(pre_start, pre.data@.len() as int);
    let moved_post = post.data@.subrange(post_start, post.data@.len() as int);
    assert forall|i: int| 0 <= i < rem implies post.records()[i] == pre.records()[i] by {
        assert forall|m: int| 0 <= m < MINT_ENTRY_SIZE implies #[trigger] post.spec_record_at(i)[m]
            == pre.spec_record_at(i)[m] by {
            assert(post.spec_record_at(i)[m] == post.data@[post_start + i * MINT_ENTRY_SIZE + m]);
            assert(pre.spec_record_at(i)[m] == pre.data@[pre_start + i * MINT_ENTRY_SIZE + m]);
            assert(moved_post[i * MINT_ENTRY_SIZE + m] == moved_pre[i * MINT_ENTRY_SIZE + m]);
        }
        assert(post.spec_record_at(i) =~= pre.spec_record_at(i));
    }
    assert(post.records() =~= pre.records());
}


/// The store's record multiset after a run of draws: each drawn record
/// removes one occurrence of itself.
pub open spec fn spec_store_after_draws(
    ms: Multiset<Seq<u8>>,
    draws: Seq<Seq<u8>>,
) -> Multiset<Seq<u8>>
    decreases draws.len(),
{
    if draws.len() == 0 {
        ms
    } else {
        spec_store_after_draws(ms.remove(draws.first()), draws.drop_first())
    }
}

/// Drawing without replacement: a run of draws in which every drawn record
/// was still in the store, and which leaves the store empty, has returned
/// exactly the records the store originally held — each one as often as the
/// store held it, so in particular each distinct record exactly once when
/// the store held no duplicates.
pub proof fn lemma_draws_exhaust_store(ms: Multiset<Seq<u8>>, draws: Seq<Seq<u8>>)
    requires
        forall|i: int|
            0 <= i < draws.len() ==> #[trigger] spec_store_after_draws(
                ms,
                draws.take(i),
            ).count(draws[i]) > 0,
        spec_store_after_draws(ms, draws).len() == 0,
    ensures
        draws.to_multiset() == ms,
    decreases draws.len(),
{
    broadcast use vstd::seq_lib::group_to_multiset_ensures;

    if draws.len() == 0 {
        assert(draws.to_multiset() =~= ms) by {
            assert(spec_store_after_draws(ms, draws) == ms);
            assert(forall|x: Seq<u8>| #[trigger] ms.count(x) == 0);
        }
    } else {
        let first = draws.first();
        let rest = draws.drop_first();
        assert(draws.take(0) =~= Seq::<Seq<u8>>::empty());
        assert(spec_store_after_draws(ms, draws.take(0)) == ms);
        assert(ms.count(first) > 0);
        let ms1 = ms.remove(first);
        assert forall|i: int| 0 <= i < rest.len() implies #[trigger] spec_store_after_draws(
            ms1,
            rest.take(i),
        ).count(rest[i]) > 0 by {
            assert(draws.take(i + 1).first() == first);
            assert(draws.take(i + 1).drop_first() =~= rest.take(i));
            assert(spec_store_after_draws(ms, draws.take(i + 1)) == spec_store_after_draws(
                ms1,
                rest.take(i),
            ));
            assert(draws[i + 1] == rest[i]);
        }
        assert(spec_store_after_draws(ms1, rest) == spec_store_after_draws(ms, draws));
        lemma_draws_exhaust_store(ms1, rest);
        assert(rest.to_multiset() == ms1);
        assert(draws.to_multiset() =~= ms) by {
            assert(ms1.insert(first) =~= ms);
            assert(draws =~= rest.insert(0, first));
            vstd::seq_lib::to_multiset_insert(rest, 0, first);
        }
    }
}


} // verus!
