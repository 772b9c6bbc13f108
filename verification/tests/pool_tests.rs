use mint_generator::address::AccountId;
use mint_generator::config::{Creator, MintConfig, OutputMintConfig, TokenStandard};
use mint_generator::entry::{decode_mint_entry, encode_mint_entry, MintEntry, MINT_ENTRY_SIZE};
use mint_generator::errors::ErrorCode;
use mint_generator::phase::MintPhase;
use mint_generator::pool::{
    get_output_mint, get_random_output_mint, init_mint_config, set_mint_config_metadata,
    set_mint_entry, update_mint_config, PoolAccount,
};

fn key(n: u8) -> AccountId {
    AccountId { bytes: [n; 32] }
}

fn plain_output_config() -> OutputMintConfig {
    OutputMintConfig {
        seller_fee_basis_points: 500,
        token_standard: TokenStandard::NonFungible,
        collection: None,
        ruleset: None,
        creators: vec![],
        merkle_tree: None,
        release_authority: None,
    }
}

fn plain_phase() -> MintPhase {
    MintPhase {
        start_condition: None,
        end_condition: None,
        token_checks: vec![],
        authorization: None,
        metadata: vec![],
    }
}

fn new_pool() -> PoolAccount {
    init_mint_config(
        42,
        key(1),
        b"test-pool".to_vec(),
        plain_output_config(),
        vec![plain_phase()],
        b"{}".to_vec(),
    )
    .unwrap()
}

fn add_entry(pool: &mut PoolAccount, index: u64, name: &[u8]) {
    set_mint_entry(
        pool,
        &key(1),
        index,
        name.to_vec(),
        b"SYM".to_vec(),
        b"https://example.com/x".to_vec(),
    )
    .unwrap();
}

// The backing region always equals the header size plus one record per
// undrawn item, and the draw count never exceeds the supply.
fn assert_region_invariant(pool: &PoolAccount) {
    assert!(pool.config.count <= pool.config.supply);
    let expected = pool.config.account_size().unwrap();
    assert_eq!(pool.data.len(), expected);
}

#[test]
fn entry_encoding_layout_is_exact() {
    let e = MintEntry {
        name: b"ab".to_vec(),
        symbol: b"S".to_vec(),
        uri: b"u".to_vec(),
    };
    let r = encode_mint_entry(&e);
    assert_eq!(r.len(), MINT_ENTRY_SIZE);
    // Name slot: 4-byte little-endian content width 28, then padded content.
    assert_eq!(&r[0..4], &[28, 0, 0, 0]);
    assert_eq!(&r[4..6], b"ab");
    assert!(r[6..32].iter().all(|&b| b == 0));
    // Symbol slot: width 6 at offset 32.
    assert_eq!(&r[32..36], &[6, 0, 0, 0]);
    assert_eq!(r[36], b'S');
    assert!(r[37..42].iter().all(|&b| b == 0));
    // URI slot: width 196 at offset 42.
    assert_eq!(&r[42..46], &[196, 0, 0, 0]);
    assert_eq!(r[46], b'u');
    assert!(r[47..242].iter().all(|&b| b == 0));
}

#[test]
fn entry_round_trip_restores_fields() {
    let e = MintEntry {
        name: b"Bored Token #7".to_vec(),
        symbol: b"BT7".to_vec(),
        uri: b"https://example.com/7.json".to_vec(),
    };
    let d = decode_mint_entry(&encode_mint_entry(&e));
    assert_eq!(d.name, e.name);
    assert_eq!(d.symbol, e.symbol);
    assert_eq!(d.uri, e.uri);
}

#[test]
fn init_establishes_region_invariant() {
    let pool = new_pool();
    assert_eq!(pool.config.supply, 0);
    assert_eq!(pool.config.count, 0);
    assert_region_invariant(&pool);
}

#[test]
fn init_rejects_too_many_creators() {
    let mut cfg = plain_output_config();
    cfg.creators = (0..5).map(|i| Creator { address: key(i), share: 20 }).collect();
    let r = init_mint_config(0, key(1), b"p".to_vec(), cfg, vec![], vec![]);
    assert_eq!(r.err().unwrap(), ErrorCode::TooManyCreators);
}

#[test]
fn init_rejects_programmable_with_merkle_tree() {
    let mut cfg = plain_output_config();
    cfg.merkle_tree = Some(key(9));
    cfg.token_standard = TokenStandard::ProgrammableNonFungible;
    let r = init_mint_config(0, key(1), b"p".to_vec(), cfg, vec![], vec![]);
    assert_eq!(r.err().unwrap(), ErrorCode::ProgrammableAndMerkleTree);
}

#[test]
fn account_size_matches_hand_computed_layout() {
    let pool = new_pool();
    // Discriminator 8, bump 1, authority 32, name 4+9, supply 8, count 8,
    // output template 2+1+1+1+4+0+1+1, phase list 4 + (1+1+4+1+4+0),
    // metadata 4+2. No records yet.
    let header = 8 + 1 + 32 + (4 + 9) + 8 + 8 + (2 + 1 + 1 + 1 + 4 + 1 + 1) + (4 + 11) + (4 + 2);
    assert_eq!(pool.data.len(), header);
}

#[test]
fn set_mint_entry_grows_supply_and_region() {
    let mut pool = new_pool();
    add_entry(&mut pool, 0, b"rec0");
    assert_eq!(pool.config.supply, 1);
    assert_region_invariant(&pool);
    add_entry(&mut pool, 1, b"rec1");
    assert_eq!(pool.config.supply, 2);
    assert_region_invariant(&pool);
    // Overwriting an existing slot does not advance the supply.
    add_entry(&mut pool, 0, b"rec0b");
    assert_eq!(pool.config.supply, 2);
    assert_region_invariant(&pool);
}

#[test]
fn set_mint_entry_requires_authority() {
    let mut pool = new_pool();
    let r = set_mint_entry(&mut pool, &key(7), 0, b"x".to_vec(), b"s".to_vec(), b"u".to_vec());
    assert_eq!(r.err().unwrap(), ErrorCode::InvalidAuthority);
}

#[test]
fn set_mint_entry_rejected_after_first_draw() {
    let mut pool = new_pool();
    add_entry(&mut pool, 0, b"rec0");
    get_random_output_mint(&mut pool, 0).unwrap();
    let r = set_mint_entry(&mut pool, &key(1), 1, b"x".to_vec(), b"s".to_vec(), b"u".to_vec());
    assert_eq!(r.err().unwrap(), ErrorCode::MintingAlreadyStarted);
}

#[test]
fn get_output_mint_rejects_out_of_range_index() {
    let mut pool = new_pool();
    add_entry(&mut pool, 0, b"rec0");
    let r = get_output_mint(&mut pool, 1);
    assert_eq!(r.err().unwrap(), ErrorCode::InvalidIndex);
}

#[test]
fn draw_returns_selected_record_and_compacts() {
    let mut pool = new_pool();
    add_entry(&mut pool, 0, b"rec0");
    add_entry(&mut pool, 1, b"rec1");
    add_entry(&mut pool, 2, b"rec2");
    let before = pool.data.len();
    // Entropy 4 over 3 remaining records selects slot 1.
    let e = get_random_output_mint(&mut pool, 4).unwrap();
    assert_eq!(e.name, b"rec1".to_vec());
    assert_eq!(pool.config.count, 1);
    assert_eq!(pool.data.len(), before - MINT_ENTRY_SIZE);
    assert_region_invariant(&pool);
}

#[test]
fn drawing_everything_yields_each_record_exactly_once() {
    let mut pool = new_pool();
    for i in 0..4u64 {
        add_entry(&mut pool, i, format!("rec{}", i).as_bytes());
    }
    let mut names: Vec<Vec<u8>> = Vec::new();
    for entropy in [2u64, 7, 0, 11] {
        let e = get_random_output_mint(&mut pool, entropy).unwrap();
        names.push(e.name);
        assert_region_invariant(&pool);
    }
    names.sort();
    let expected: Vec<Vec<u8>> =
        vec![b"rec0".to_vec(), b"rec1".to_vec(), b"rec2".to_vec(), b"rec3".to_vec()];
    assert_eq!(names, expected);
    // The (supply + 1)-th draw fails: the supply is exhausted.
    let r = get_random_output_mint(&mut pool, 5);
    assert_eq!(r.err().unwrap(), ErrorCode::NotTokensRemaining);
}

#[test]
fn metadata_edit_relocates_records_byte_identically() {
    let mut pool = new_pool();
    for i in 0..5u64 {
        add_entry(&mut pool, i, format!("item{}", i).as_bytes());
    }
    let old_len = pool.data.len();
    let records_before = pool.data[old_len - 5 * MINT_ENTRY_SIZE..].to_vec();
    // Grow the metadata by exactly 37 bytes.
    let old_meta_len = pool.config.metadata.len();
    let new_meta = vec![b'm'; old_meta_len + 37];
    set_mint_config_metadata(&mut pool, &key(1), new_meta.clone()).unwrap();
    assert_eq!(pool.config.metadata, new_meta);
    assert_eq!(pool.data.len(), old_len + 37);
    let records_after = pool.data[pool.data.len() - 5 * MINT_ENTRY_SIZE..].to_vec();
    assert_eq!(records_before, records_after);
    assert_region_invariant(&pool);
}

#[test]
fn metadata_shrink_relocates_records_byte_identically() {
    let mut pool = new_pool();
    set_mint_config_metadata(&mut pool, &key(1), vec![b'm'; 64]).unwrap();
    for i in 0..3u64 {
        add_entry(&mut pool, i, format!("item{}", i).as_bytes());
    }
    let old_len = pool.data.len();
    let records_before = pool.data[old_len - 3 * MINT_ENTRY_SIZE..].to_vec();
    set_mint_config_metadata(&mut pool, &key(1), vec![]).unwrap();
    assert_eq!(pool.data.len(), old_len - 64);
    let records_after = pool.data[pool.data.len() - 3 * MINT_ENTRY_SIZE..].to_vec();
    assert_eq!(records_before, records_after);
    assert_region_invariant(&pool);
}

#[test]
fn metadata_edit_requires_authority() {
    let mut pool = new_pool();
    let r = set_mint_config_metadata(&mut pool, &key(9), vec![]);
    assert_eq!(r.err().unwrap(), ErrorCode::InvalidAuthority);
}

#[test]
fn update_replaces_template_and_keeps_records() {
    let mut pool = new_pool();
    add_entry(&mut pool, 0, b"keepme");
    let mut new_output = plain_output_config();
    new_output.creators = vec![Creator { address: key(5), share: 100 }];
    update_mint_config(
        &mut pool,
        &key(1),
        key(2),
        new_output,
        vec![plain_phase(), plain_phase()],
        b"updated".to_vec(),
    )
    .unwrap();
    assert_eq!(pool.config.authority, key(2));
    assert_eq!(pool.config.mint_phases.len(), 2);
    assert_eq!(pool.config.supply, 1);
    assert_region_invariant(&pool);
    let e = get_random_output_mint(&mut pool, 0).unwrap();
    assert_eq!(e.name, b"keepme".to_vec());
}

#[test]
fn update_requires_old_authority() {
    let mut pool = new_pool();
    let r = update_mint_config(
        &mut pool,
        &key(2),
        key(2),
        plain_output_config(),
        vec![],
        vec![],
    );
    assert_eq!(r.err().unwrap(), ErrorCode::InvalidAuthority);
}

#[test]
fn close_pool_requires_authority() {
    let pool = new_pool();
    assert_eq!(
        mint_generator::pool::close_mint_config(pool, &key(9)).err().unwrap(),
        ErrorCode::InvalidAuthority
    );
    let pool = new_pool();
    assert!(mint_generator::pool::close_mint_config(pool, &key(1)).is_ok());
}

#[test]
fn skipped_slots_are_zero_filled() {
    let mut pool = new_pool();
    // Writing slot 2 first leaves slots 0 and 1 zero-filled.
    add_entry(&mut pool, 2, b"late");
    assert_eq!(pool.config.supply, 3);
    assert_region_invariant(&pool);
    let start = pool.data.len() - 3 * MINT_ENTRY_SIZE;
    assert!(pool.data[start..start + 2 * MINT_ENTRY_SIZE].iter().all(|&b| b == 0));
}

#[test]
fn set_mint_entry_overflow_index_is_rejected() {
    let mut pool = new_pool();
    let r = set_mint_entry(
        &mut pool,
        &key(1),
        u64::MAX,
        b"x".to_vec(),
        b"s".to_vec(),
        b"u".to_vec(),
    );
    assert_eq!(r.err().unwrap(), ErrorCode::ArithmeticOverflow);
    // The failed request changed nothing.
    assert_eq!(pool.config.supply, 0);
    assert_region_invariant(&pool);
}
