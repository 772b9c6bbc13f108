use mint_generator::address::AccountId;
use mint_generator::authorization::{handle_authorization_checks, MintPhaseAuthorization};
use mint_generator::config::{MintConfig, OutputMintConfig, TokenStandard};
use mint_generator::errors::ErrorCode;
use mint_generator::mint::{mint, output_mint_creators, OutputCreator};
use mint_generator::phase::{
    MintPhase, MintPhaseAuthorizationCheck, MintPhaseAuthorizationMode,
    MintPhaseStartEndCondition, MintPhaseTokenCheck, MintPhaseTokenCheckAddressKind,
    MintPhaseTokenCheckMode,
};
use mint_generator::token_check::{TokenAccountFacts, TokenCheckAction, TokenCheckContext};
use mint_generator::pool::{init_mint_config, set_mint_entry, PoolAccount};
use mint_generator::release::{
    create_pending_release, release_output_mint, OutputMintPendingRelease,
};
use mint_generator::utils::{pseudo_random_number, resize_account_funding, ResizeFunding};
use solana_program::pubkey::Pubkey;

fn key(n: u8) -> AccountId {
    AccountId { bytes: [n; 32] }
}

fn pda(seeds: &[&[u8]], program_id: &AccountId) -> (AccountId, u8) {
    let pid = Pubkey::new_from_array(program_id.bytes);
    let (k, bump) = Pubkey::find_program_address(seeds, &pid);
    (AccountId { bytes: k.to_bytes() }, bump)
}

#[test]
fn pool_seeds_accept_only_the_derived_address() {
    let program_id = key(200);
    let name = b"my-pool".to_vec();
    let (expected, bump) = pda(&[b"mint-config", b"my-pool"], &program_id);
    let seeds = MintConfig::seeds(&name, &expected, &program_id).unwrap();
    assert_eq!(seeds.len(), 3);
    assert_eq!(seeds[0], b"mint-config".to_vec());
    assert_eq!(seeds[1], b"my-pool".to_vec());
    assert_eq!(seeds[2], vec![bump]);
    // Any other claimed address is rejected.
    let r = MintConfig::seeds(&name, &key(5), &program_id);
    assert_eq!(r.err().unwrap(), ErrorCode::InvalidMintConfigId);
}

#[test]
fn authorization_seeds_accept_only_the_derived_address() {
    let program_id = key(201);
    let pool_key = key(10);
    let user = key(11);
    let (expected, bump) = pda(
        &[b"authorization", &pool_key.bytes, &3u8.to_le_bytes(), &user.bytes],
        &program_id,
    );
    let seeds =
        MintPhaseAuthorization::seeds(&pool_key, 3, &user, &expected, &program_id).unwrap();
    assert_eq!(seeds.len(), 5);
    assert_eq!(seeds[0], b"authorization".to_vec());
    assert_eq!(seeds[2], vec![3u8]);
    assert_eq!(seeds[4], vec![bump]);
    let r = MintPhaseAuthorization::seeds(&pool_key, 3, &user, &key(5), &program_id);
    assert_eq!(r.err().unwrap(), ErrorCode::InvalidMintPhaseAuthorization);
}

#[test]
fn release_seeds_accept_only_the_derived_address() {
    let program_id = key(202);
    let pool_key = key(10);
    let mint_id = key(12);
    let (expected, bump) =
        pda(&[b"output-mint-release", &pool_key.bytes, &mint_id.bytes], &program_id);
    let (seeds, b) =
        OutputMintPendingRelease::seeds(&pool_key, &mint_id, &expected, &program_id).unwrap();
    assert_eq!(b, bump);
    assert_eq!(seeds[0], b"output-mint-release".to_vec());
    let r = OutputMintPendingRelease::seeds(&pool_key, &mint_id, &key(5), &program_id);
    assert_eq!(r.err().unwrap(), ErrorCode::InvalidOutputMintsPendingRelease);
}

#[test]
fn pending_release_record_creation_and_release() {
    let program_id = key(203);
    let pool_key = key(10);
    let output_mint = key(12);
    let user = key(13);
    let release_authority = key(14);
    let cfg = MintConfig {
        bump: 0,
        authority: key(1),
        name: b"p".to_vec(),
        supply: 0,
        count: 0,
        output_mint_config: OutputMintConfig {
            seller_fee_basis_points: 0,
            token_standard: TokenStandard::NonFungible,
            collection: None,
            ruleset: None,
            creators: vec![],
            merkle_tree: None,
            release_authority: Some(release_authority),
        },
        mint_phases: vec![],
        metadata: vec![],
    };
    let (record_key, bump) =
        pda(&[b"output-mint-release", &pool_key.bytes, &output_mint.bytes], &program_id);
    let record =
        create_pending_release(&cfg, &pool_key, &output_mint, &user, &record_key, &program_id)
            .unwrap()
            .unwrap();
    assert_eq!(record.bump, bump);
    assert_eq!(record.mint_config, pool_key);
    assert_eq!(record.mint, output_mint);
    assert_eq!(record.holder, user);

    // The wrong signer may not release.
    let r = release_output_mint(
        &cfg, &record, &pool_key, &output_mint, &key(9), &record_key, &program_id,
    );
    assert_eq!(r.err().unwrap(), ErrorCode::InvalidAuthority);
    // A record for another item may not release this one.
    let r = release_output_mint(
        &cfg, &record, &pool_key, &key(15), &release_authority, &record_key, &program_id,
    );
    assert_eq!(r.err().unwrap(), ErrorCode::InvalidOutputMintsPendingRelease);
    // The release authority releases, and gets the signing seed list back.
    let seeds = release_output_mint(
        &cfg, &record, &pool_key, &output_mint, &release_authority, &record_key, &program_id,
    )
    .unwrap();
    assert_eq!(seeds.len(), 4);
    assert_eq!(seeds[3], vec![bump]);
}

#[test]
fn pending_release_skipped_without_release_authority() {
    let cfg = MintConfig {
        bump: 0,
        authority: key(1),
        name: b"p".to_vec(),
        supply: 0,
        count: 0,
        output_mint_config: OutputMintConfig {
            seller_fee_basis_points: 0,
            token_standard: TokenStandard::NonFungible,
            collection: None,
            ruleset: None,
            creators: vec![],
            merkle_tree: None,
            release_authority: None,
        },
        mint_phases: vec![],
        metadata: vec![],
    };
    let r = create_pending_release(&cfg, &key(10), &key(12), &key(13), &key(14), &key(200));
    assert!(r.unwrap().is_none());
}

#[test]
fn entropy_formula_is_exact() {
    let mut data = vec![0u8; 32];
    // The slot-hash word sits at offset 12, little endian.
    data[12..20].copy_from_slice(&10_000u64.to_le_bytes());
    assert_eq!(pseudo_random_number(&data, 1_000), 9_000);
    // The subtraction saturates at zero.
    assert_eq!(pseudo_random_number(&data, 20_000), 0);
}

#[test]
fn resize_funding_covers_all_three_cases() {
    assert_eq!(resize_account_funding(100, 150), ResizeFunding::Fund { amount: 50 });
    assert_eq!(resize_account_funding(150, 100), ResizeFunding::Refund { amount: 50 });
    assert_eq!(resize_account_funding(100, 100), ResizeFunding::Unchanged);
}

#[test]
fn creator_list_starts_with_the_pool() {
    let mut cfg = MintConfig {
        bump: 0,
        authority: key(1),
        name: b"p".to_vec(),
        supply: 0,
        count: 0,
        output_mint_config: OutputMintConfig {
            seller_fee_basis_points: 0,
            token_standard: TokenStandard::NonFungible,
            collection: None,
            ruleset: None,
            creators: vec![],
            merkle_tree: None,
            release_authority: None,
        },
        mint_phases: vec![],
        metadata: vec![],
    };
    cfg.output_mint_config.creators =
        vec![mint_generator::config::Creator { address: key(7), share: 60 }];
    let r = output_mint_creators(&cfg, &key(10));
    assert_eq!(r.len(), 2);
    assert_eq!(r[0], OutputCreator { address: key(10), verified: true, share: 0 });
    assert_eq!(r[1], OutputCreator { address: key(7), verified: false, share: 60 });
}

fn open_phase(authorization: Option<MintPhaseAuthorizationCheck>) -> MintPhase {
    MintPhase {
        start_condition: None,
        end_condition: None,
        token_checks: vec![],
        authorization,
        metadata: vec![],
    }
}

fn pool_with_phase(phase: MintPhase) -> PoolAccount {
    init_mint_config(
        0,
        key(1),
        b"pool".to_vec(),
        OutputMintConfig {
            seller_fee_basis_points: 0,
            token_standard: TokenStandard::NonFungible,
            collection: None,
            ruleset: None,
            creators: vec![],
            merkle_tree: None,
            release_authority: None,
        },
        vec![phase],
        vec![],
    )
    .unwrap()
}

#[test]
fn full_draw_scenario() {
    // Create a pool with supply 0, add three item records, then draw once
    // with entropy selecting slot 1.
    let mut pool = pool_with_phase(open_phase(None));
    assert_eq!(pool.config.supply, 0);
    for (i, name) in [b"item0", b"item1", b"item2"].iter().enumerate() {
        set_mint_entry(
            &mut pool,
            &key(1),
            i as u64,
            name.to_vec(),
            b"IT".to_vec(),
            b"https://example.com".to_vec(),
        )
        .unwrap();
    }
    assert_eq!(pool.config.supply, 3);

    let mut record: Option<MintPhaseAuthorization> = None;
    let outcome = mint(
        &mut pool,
        &key(200),
        &key(10),
        0,
        &key(3),
        0,
        4, // 4 mod 3 selects slot 1
        &vec![],
        &key(3),
        &key(3),
        true,
        &key(0),
        &mut record,
    )
    .unwrap();
    assert_eq!(outcome.entry.name, b"item1".to_vec());
    assert_eq!(outcome.entry.symbol, b"IT".to_vec());
    assert!(!outcome.compressed);
    assert_eq!(outcome.actions.len(), 0);
    assert_eq!(pool.config.count, 1);
    assert_eq!(outcome.new_account_size, pool.data.len());
    assert_eq!(pool.data.len(), pool.config.account_size().unwrap());

    // The two remaining records are item0 and item2, in some order.
    let mut rest = Vec::new();
    for entropy in [0u64, 0] {
        let e = mint_generator::pool::get_random_output_mint(&mut pool, entropy).unwrap();
        rest.push(e.name);
    }
    rest.sort();
    assert_eq!(rest, vec![b"item0".to_vec(), b"item2".to_vec()]);
}

#[test]
fn draw_under_default_allow_keeps_ledger_empty() {
    let program_id = key(204);
    let pool_key = key(10);
    let user = key(3);
    let phase = open_phase(Some(MintPhaseAuthorizationCheck {
        mode: MintPhaseAuthorizationMode::DefaultAllowed,
    }));
    let mut pool = pool_with_phase(phase);
    for i in 0..2u64 {
        set_mint_entry(&mut pool, &key(1), i, b"x".to_vec(), b"s".to_vec(), b"u".to_vec())
            .unwrap();
    }
    let (auth_key, _bump) = pda(
        &[b"authorization", &pool_key.bytes, &0u8.to_le_bytes(), &user.bytes],
        &program_id,
    );
    let mut record: Option<MintPhaseAuthorization> = None;
    // Two draws in a row, still with no record: no state accumulates.
    for _ in 0..2 {
        mint(
            &mut pool, &program_id, &pool_key, 0, &user, 0, 0, &vec![], &user, &user, true,
            &auth_key, &mut record,
        )
        .unwrap();
        assert!(record.is_none());
    }
    assert_eq!(pool.config.count, 2);
}

#[test]
fn draw_under_default_deny_requires_record() {
    let program_id = key(205);
    let pool_key = key(10);
    let user = key(3);
    let phase = open_phase(Some(MintPhaseAuthorizationCheck {
        mode: MintPhaseAuthorizationMode::DefaultDisallowed,
    }));
    let mut pool = pool_with_phase(phase);
    set_mint_entry(&mut pool, &key(1), 0, b"x".to_vec(), b"s".to_vec(), b"u".to_vec()).unwrap();
    let (auth_key, _bump) = pda(
        &[b"authorization", &pool_key.bytes, &0u8.to_le_bytes(), &user.bytes],
        &program_id,
    );
    let mut record: Option<MintPhaseAuthorization> = None;
    let r = mint(
        &mut pool, &program_id, &pool_key, 0, &user, 0, 0, &vec![], &user, &user, true,
        &auth_key, &mut record,
    );
    assert_eq!(r.err().unwrap(), ErrorCode::InvalidMintPhaseAuthorization);
    // Nothing was drawn and nothing was consumed.
    assert_eq!(pool.config.count, 0);

    // With a quota record in place at the right derived address, the draw
    // passes and consumes one use.
    record = Some(MintPhaseAuthorization {
        bump: 0,
        mint_config: pool_key,
        mint_phase_index: 0,
        user,
        count: 0,
        remaining: Some(2),
    });
    mint(
        &mut pool, &program_id, &pool_key, 0, &user, 0, 0, &vec![], &user, &user, true,
        &auth_key, &mut record,
    )
    .unwrap();
    let a = record.unwrap();
    assert_eq!(a.count, 1);
    assert_eq!(a.remaining, Some(1));
}

#[test]
fn authorization_gate_rejects_wrong_holder_and_address() {
    let program_id = key(206);
    let pool_key = key(10);
    let user = key(3);
    let cfg = MintConfig {
        bump: 0,
        authority: key(1),
        name: b"p".to_vec(),
        supply: 1,
        count: 0,
        output_mint_config: OutputMintConfig {
            seller_fee_basis_points: 0,
            token_standard: TokenStandard::NonFungible,
            collection: None,
            ruleset: None,
            creators: vec![],
            merkle_tree: None,
            release_authority: None,
        },
        mint_phases: vec![open_phase(Some(MintPhaseAuthorizationCheck {
            mode: MintPhaseAuthorizationMode::DefaultAllowed,
        }))],
        metadata: vec![],
    };
    let phase = &cfg.mint_phases[0];
    let (auth_key, _bump) = pda(
        &[b"authorization", &pool_key.bytes, &0u8.to_le_bytes(), &user.bytes],
        &program_id,
    );
    let mut record: Option<MintPhaseAuthorization> = None;

    // The holder must sign.
    let r = handle_authorization_checks(
        &program_id, &cfg, &pool_key, 0, phase, &user, &user, false, &auth_key, &mut record,
    );
    assert_eq!(r.err().unwrap(), ErrorCode::HolderNotSigner);
    // The holder must be the user or the authority.
    let r = handle_authorization_checks(
        &program_id, &cfg, &pool_key, 0, phase, &user, &key(9), true, &auth_key, &mut record,
    );
    assert_eq!(r.err().unwrap(), ErrorCode::IncorrectAuthorizationHolder);
    // The record account must sit at the triple's derived address.
    let r = handle_authorization_checks(
        &program_id, &cfg, &pool_key, 0, phase, &user, &user, true, &key(9), &mut record,
    );
    assert_eq!(r.err().unwrap(), ErrorCode::InvalidMintPhaseAuthorization);
    // With everything right, default-allow lets the draw through.
    let r = handle_authorization_checks(
        &program_id, &cfg, &pool_key, 0, phase, &user, &user, true, &auth_key, &mut record,
    );
    assert!(r.is_ok());
}

#[test]
fn draw_respects_phase_gate_and_token_checks() {
    let check = MintPhaseTokenCheck {
        address_kind: MintPhaseTokenCheckAddressKind::Mint,
        address: key(30),
        amount: 5,
        transfer_target: None,
        mode: MintPhaseTokenCheckMode::Check,
    };
    let phase = MintPhase {
        start_condition: Some(MintPhaseStartEndCondition {
            time_seconds: Some(1_000),
            count: None,
        }),
        end_condition: None,
        token_checks: vec![check],
        authorization: None,
        metadata: vec![],
    };
    let mut pool = pool_with_phase(phase);
    set_mint_entry(&mut pool, &key(1), 0, b"x".to_vec(), b"s".to_vec(), b"u".to_vec()).unwrap();

    let ctx = TokenCheckContext {
        holder: key(3),
        holder_is_signer: true,
        holder_balance: 0,
        token_account: Some(TokenAccountFacts {
            address: key(20),
            owner: key(3),
            mint: key(30),
            amount: 9,
        }),
        metadata: None,
        supplied_transfer_target: None,
    };
    let mut record: Option<MintPhaseAuthorization> = None;

    // An unknown phase index is rejected outright.
    let r = mint(
        &mut pool, &key(200), &key(10), 7, &key(3), 2_000, 0, &vec![], &key(3), &key(3), true,
        &key(0), &mut record,
    );
    assert_eq!(r.err().unwrap(), ErrorCode::InvalidPhase);
    // Before the start time the phase is pending for non-authority callers.
    let ctxs = vec![ctx];
    let r = mint(
        &mut pool, &key(200), &key(10), 0, &key(3), 999, 0, &ctxs, &key(3), &key(3), true,
        &key(0), &mut record,
    );
    assert_eq!(r.err().unwrap(), ErrorCode::PhaseNotActive);
    assert_eq!(pool.config.count, 0);
    // Once open, the token check passes on the supplied facts and the draw
    // goes through, reporting the verified check.
    let outcome = mint(
        &mut pool, &key(200), &key(10), 0, &key(3), 1_000, 0, &ctxs, &key(3), &key(3), true,
        &key(0), &mut record,
    )
    .unwrap();
    assert_eq!(outcome.actions, vec![TokenCheckAction::Verified]);
    assert_eq!(pool.config.count, 1);
}
