use bonding_curve::instructions::create_metadata::{
    self, CreateMetadata, CreateMetadataParams, CURVE_SEED,
};
use bonding_curve::state::accounts::{AccountInfo, Pubkey};
use bonding_curve::state::bonding_curve::BondingCurve;
use bonding_curve::state::curve_config::{CurveConfig, MigrationStatus};
use bonding_curve::utils::error::ErrorCode;
use bonding_curve::utils::metadata::{
    create_metadata_ix, find_metadata_account, validate_metadata_account, AccountMeta,
    METADATA_PROGRAM_ID, METADATA_SEED, RENT_SYSVAR_ID, SYSTEM_PROGRAM_ID,
};

fn key(byte: u8) -> Pubkey {
    Pubkey::new_from_array([byte; 32])
}

fn outside(key: &Pubkey) -> solana_program::pubkey::Pubkey {
    solana_program::pubkey::Pubkey::new_from_array(key.to_bytes())
}

fn account(key: Pubkey, owner: Pubkey) -> AccountInfo {
    AccountInfo { key, owner }
}

fn system() -> AccountInfo {
    account(Pubkey::new_from_array(SYSTEM_PROGRAM_ID), key(200))
}

fn metadata_program() -> AccountInfo {
    account(Pubkey::new_from_array(METADATA_PROGRAM_ID), key(201))
}

#[test]
fn program_addresses_are_those_of_the_ledger() {
    assert_eq!(METADATA_PROGRAM_ID, mpl_token_metadata::ID.to_bytes());
    assert_eq!(SYSTEM_PROGRAM_ID, solana_program::system_program::ID.to_bytes());
    assert_eq!(RENT_SYSVAR_ID, solana_program::sysvar::rent::ID.to_bytes());
    assert_eq!(&METADATA_SEED, b"metadata");
    assert_eq!(&CURVE_SEED, b"bonding_curve");
}

#[test]
fn metadata_address_is_the_derived_one() {
    for byte in [0u8, 1, 7, 255] {
        let mint = key(byte);
        let (expected, bump) = solana_program::pubkey::Pubkey::find_program_address(
            &[b"metadata", mpl_token_metadata::ID.as_ref(), outside(&mint).as_ref()],
            &mpl_token_metadata::ID,
        );
        let found = find_metadata_account(&mint);
        assert_eq!(found, Some((Pubkey::new_from_array(expected.to_bytes()), bump)));
        // The address is neither the token's nor the program's.
        let (address, _) = found.unwrap();
        assert_ne!(address, mint);
        assert_ne!(address.to_bytes(), METADATA_PROGRAM_ID);
    }
}

#[test]
fn metadata_addresses_differ_between_tokens() {
    let a = find_metadata_account(&key(1)).unwrap();
    let b = find_metadata_account(&key(2)).unwrap();
    assert_ne!(a.0, b.0);
    assert_eq!(find_metadata_account(&key(1)), Some(a));
}

#[test]
fn metadata_accounts_are_checked() {
    let mint = key(9);
    let (address, _) = find_metadata_account(&mint).unwrap();
    let system = system();
    let program = metadata_program();
    let metadata = account(address, system.key);
    assert_eq!(validate_metadata_account(&metadata, &program, &system, &mint), Ok(()));

    let owned_by_another = account(address, key(5));
    assert_eq!(
        validate_metadata_account(&owned_by_another, &program, &system, &mint),
        Err(ErrorCode::InvalidOwner)
    );
    let another_program = account(key(6), key(201));
    assert_eq!(
        validate_metadata_account(&metadata, &another_program, &system, &mint),
        Err(ErrorCode::InvalidMetadataProgram)
    );
    let elsewhere = account(key(7), system.key);
    assert_eq!(
        validate_metadata_account(&elsewhere, &program, &system, &mint),
        Err(ErrorCode::InvalidMetadataAddress)
    );
    // The address of another token's record.
    assert_eq!(
        validate_metadata_account(&metadata, &program, &system, &key(10)),
        Err(ErrorCode::InvalidMetadataAddress)
    );
    // The owner is looked at first, then the program.
    let wrong_twice = account(key(7), key(5));
    assert_eq!(
        validate_metadata_account(&wrong_twice, &another_program, &system, &mint),
        Err(ErrorCode::InvalidOwner)
    );
    assert_eq!(
        validate_metadata_account(&elsewhere, &another_program, &system, &mint),
        Err(ErrorCode::InvalidMetadataProgram)
    );
}

fn expected_data(name: &str, symbol: &str, uri: &str) -> Vec<u8> {
    let mut data = vec![33u8];
    for text in [name, symbol, uri] {
        data.extend_from_slice(&(text.len() as u32).to_le_bytes());
        data.extend_from_slice(text.as_bytes());
    }
    // No seller fee; no creators, collection or uses; not mutable; no
    // collection details.
    data.extend_from_slice(&[0, 0, 0, 0, 0, 0, 0]);
    data
}

#[test]
fn metadata_instruction_is_built() {
    let ix = create_metadata_ix(
        key(1),
        key(2),
        key(3),
        key(4),
        key(5),
        String::from("Token"),
        String::from("TKN"),
        String::from("https://example.org/t.json"),
    )
    .unwrap();
    assert_eq!(ix.program_id.to_bytes(), METADATA_PROGRAM_ID);
    assert_eq!(
        ix.accounts,
        vec![
            AccountMeta { pubkey: key(1), is_signer: false, is_writable: true },
            AccountMeta { pubkey: key(2), is_signer: false, is_writable: false },
            AccountMeta { pubkey: key(3), is_signer: true, is_writable: false },
            AccountMeta { pubkey: key(4), is_signer: true, is_writable: true },
            AccountMeta { pubkey: key(5), is_signer: true, is_writable: false },
            AccountMeta {
                pubkey: Pubkey::new_from_array(SYSTEM_PROGRAM_ID),
                is_signer: false,
                is_writable: false,
            },
            AccountMeta {
                pubkey: Pubkey::new_from_array(RENT_SYSVAR_ID),
                is_signer: false,
                is_writable: false,
            },
        ]
    );
    assert_eq!(ix.data, expected_data("Token", "TKN", "https://example.org/t.json"));
    assert_eq!(ix.data[0], 33);
    assert_eq!(&ix.data[1..5], &[5, 0, 0, 0]);
    assert_eq!(&ix.data[5..10], b"Token");
}

#[test]
fn metadata_instruction_is_that_of_the_metadata_program() {
    let name = "Nom \u{e9}t\u{e9}";
    let theirs = mpl_token_metadata::instructions::CreateMetadataAccountV3 {
        metadata: outside(&key(1)),
        mint: outside(&key(2)),
        mint_authority: outside(&key(3)),
        payer: outside(&key(4)),
        update_authority: (outside(&key(5)), true),
        system_program: solana_program::system_program::ID,
        rent: Some(solana_program::sysvar::rent::ID),
    }
    .instruction(mpl_token_metadata::instructions::CreateMetadataAccountV3InstructionArgs {
        data: mpl_token_metadata::types::DataV2 {
            name: String::from(name),
            symbol: String::new(),
            uri: String::from("u"),
            seller_fee_basis_points: 0,
            creators: None,
            collection: None,
            uses: None,
        },
        is_mutable: false,
        collection_details: None,
    });
    let ours = create_metadata_ix(
        key(1),
        key(2),
        key(3),
        key(4),
        key(5),
        String::from(name),
        String::new(),
        String::from("u"),
    )
    .unwrap();
    assert_eq!(ours.program_id.to_bytes(), theirs.program_id.to_bytes());
    assert_eq!(ours.data, theirs.data);
    assert_eq!(ours.data, expected_data(name, "", "u"));
    assert_eq!(ours.accounts.len(), theirs.accounts.len());
    for (mine, other) in ours.accounts.iter().zip(theirs.accounts.iter()) {
        assert_eq!(mine.pubkey.to_bytes(), other.pubkey.to_bytes());
        assert_eq!(mine.is_signer, other.is_signer);
        assert_eq!(mine.is_writable, other.is_writable);
    }
}

fn create_ctx(mint: Pubkey) -> CreateMetadata {
    let (address, _) = find_metadata_account(&mint).unwrap();
    CreateMetadata {
        creator: key(40),
        mint,
        curve: BondingCurve {
            mint,
            config: CurveConfig {
                migration_status: MigrationStatus::Active,
                is_subscribed: false,
                developer: key(40),
            },
            bump: 253,
            token_seed: String::from("seed"),
        },
        curve_key: key(41),
        metadata: account(address, Pubkey::new_from_array(SYSTEM_PROGRAM_ID)),
        metadata_program: metadata_program(),
        system_program: system(),
    }
}

fn params() -> CreateMetadataParams {
    CreateMetadataParams {
        name: String::from("Token"),
        symbol: String::from("TKN"),
        uri: String::from("https://example.org/t.json"),
    }
}

#[test]
fn metadata_is_prepared() {
    let mint = key(9);
    let ctx = create_ctx(mint);
    let invocation = create_metadata::handler(&ctx, params()).unwrap();
    let direct = create_metadata_ix(
        ctx.metadata.key,
        mint,
        key(41),
        key(40),
        key(41),
        String::from("Token"),
        String::from("TKN"),
        String::from("https://example.org/t.json"),
    )
    .unwrap();
    assert_eq!(invocation.instruction, direct);
    assert_eq!(invocation.instruction.accounts[2].pubkey, key(41));
    assert_eq!(invocation.instruction.accounts[3].pubkey, key(40));
    assert_eq!(invocation.instruction.accounts[4].pubkey, key(41));
    assert_eq!(
        invocation.signer_seeds,
        vec![b"bonding_curve".to_vec(), mint.to_bytes().to_vec(), vec![253u8]]
    );
    assert_eq!(bonding_curve::create_metadata(&ctx, params()).unwrap(), invocation);
}

#[test]
fn metadata_is_not_prepared_on_wrong_accounts() {
    let mut ctx = create_ctx(key(9));
    ctx.metadata.owner = key(77);
    assert_eq!(create_metadata::handler(&ctx, params()), Err(ErrorCode::InvalidOwner));
    let mut ctx = create_ctx(key(9));
    ctx.metadata_program.key = key(78);
    assert_eq!(create_metadata::handler(&ctx, params()), Err(ErrorCode::InvalidMetadataProgram));
    let mut ctx = create_ctx(key(9));
    ctx.mint = key(10);
    assert_eq!(create_metadata::handler(&ctx, params()), Err(ErrorCode::InvalidMetadataAddress));
}

#[test]
fn metadata_data_carry_fee_and_mutability() {
    // The layout that the library states, held against the metadata
    // program's own builder for a fee and a mutability other than the
    // library's.
    let theirs = mpl_token_metadata::instructions::CreateMetadataAccountV3 {
        metadata: outside(&key(1)),
        mint: outside(&key(2)),
        mint_authority: outside(&key(3)),
        payer: outside(&key(4)),
        update_authority: (outside(&key(5)), false),
        system_program: solana_program::system_program::ID,
        rent: Some(solana_program::sysvar::rent::ID),
    }
    .instruction(mpl_token_metadata::instructions::CreateMetadataAccountV3InstructionArgs {
        data: mpl_token_metadata::types::DataV2 {
            name: String::from("ab"),
            symbol: String::from("c"),
            uri: String::new(),
            seller_fee_basis_points: 0x0102,
            creators: None,
            collection: None,
            uses: None,
        },
        is_mutable: true,
        collection_details: None,
    });
    let expected: Vec<u8> = vec![
        33, 2, 0, 0, 0, b'a', b'b', 1, 0, 0, 0, b'c', 0, 0, 0, 0, 0x02, 0x01, 0, 0, 0, 1, 0,
    ];
    assert_eq!(theirs.data, expected);
    assert!(!theirs.accounts[4].is_signer);
}
