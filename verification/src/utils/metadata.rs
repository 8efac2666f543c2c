use vstd::prelude::*;
use vstd::bytes::{spec_u16_to_le_bytes, spec_u32_to_le_bytes};
use mpl_token_metadata::instructions::{CreateMetadataAccountV3, CreateMetadataAccountV3InstructionArgs};
use mpl_token_metadata::types::DataV2;
use vstd::slice::slice_to_vec;
use vstd::utf8::encode_utf8;
use crate::state::accounts::{AccountInfo, Pubkey};
use crate::utils::error::ErrorCode;

verus! {

/// Address of the program that keeps the names of tokens.
pub const METADATA_PROGRAM_ID: [u8; 32] = [
    11, 112, 101, 177, 227, 209, 124, 69,
    56, 157, 82, 127, 107, 4, 195, 205,
    88, 184, 108, 115, 26, 160, 253, 181,
    73, 182, 209, 188, 3, 248, 41, 70,
];

/// Address of the program that owns plain accounts.
pub const SYSTEM_PROGRAM_ID: [u8; 32] = [
    0, 0, 0, 0, 0, 0, 0, 0,
    0, 0, 0, 0, 0, 0, 0, 0,
    0, 0, 0, 0, 0, 0, 0, 0,
    0, 0, 0, 0, 0, 0, 0, 0,
];

/// Address of the account that holds the rent rules.
pub const RENT_SYSVAR_ID: [u8; 32] = [
    6, 167, 213, 23, 25, 44, 92, 81,
    33, 140, 201, 76, 61, 74, 241, 127,
    88, 218, 238, 8, 155, 161, 253, 68,
    227, 219, 217, 138, 0, 0, 0, 0,
];

/// The first seed of the address of a token's name record: `metadata`.
pub const METADATA_SEED: [u8; 8] = [109, 101, 116, 97, 100, 97, 116, 97];

/// The longest text, in bytes, that an instruction can carry.
pub const MAX_TEXT_BYTES: usize = 0xffff_ffff;

/// One account that an instruction names.
#[derive(Clone, Copy, Debug, PartialEq, Eq)]
pub struct AccountMeta {
    pub pubkey: Pubkey,
    /// Whether the account has to sign the transaction.
    pub is_signer: bool,
    /// Whether the instruction may change the account.
    pub is_writable: bool,
}

/// An instruction for another program.
#[derive(Debug, PartialEq, Eq)]
pub struct Instruction {
    /// The program that carries the instruction out.
    pub program_id: Pubkey,
    pub accounts: Vec<AccountMeta>,
    pub data: Vec<u8>,
}

/// The accounts that the instruction to record a token's name works on.
#[derive(Clone, Copy, Debug, PartialEq, Eq)]
pub struct MetadataAccounts {
    pub metadata: Pubkey,
    pub mint: Pubkey,
    pub mint_authority: Pubkey,
    pub payer: Pubkey,
    pub update_authority: Pubkey,
    pub update_authority_is_signer: bool,
    pub system_program: Pubkey,
    pub rent: Pubkey,
}

/// What `solana_program::pubkey::Pubkey::try_find_program_address` returns:
/// the address that the ledger derives from seeds for a program, with the
/// bump that makes it valid; `None` where no bump does, or where the seeds
/// are too many or too long.
pub uninterp spec fn program_address(seeds: Seq<Seq<u8>>, program_id: Seq<u8>) -> Option<(Seq<u8>, u8)>;

/// A text as an instruction carries it: its length in bytes, in four bytes
/// with the lowest first, and then its bytes.
pub open spec fn text_bytes(text: Seq<char>) -> Seq<u8> {
    spec_u32_to_le_bytes(encode_utf8(text).len() as u32) + encode_utf8(text)
}

/// The data of the instruction that records a name, a symbol and a link with
/// the given seller fee and mutability, and without creators, collection,
/// uses or collection details: the byte 33, which picks the instruction; the
/// three texts; the seller fee in two bytes, the lowest first; a zero for
/// each of the three things left out; a byte for the mutability; and a zero
/// for the collection details.
pub open spec fn create_metadata_data(
    name: Seq<char>,
    symbol: Seq<char>,
    uri: Seq<char>,
    seller_fee_basis_points: u16,
    is_mutable: bool,
) -> Seq<u8> {
    seq![33u8] + text_bytes(name) + text_bytes(symbol) + text_bytes(uri) + spec_u16_to_le_bytes(
        seller_fee_basis_points,
    ) + seq![0u8, 0u8, 0u8] + seq![if is_mutable { 1u8 } else { 0u8 }] + seq![0u8]
}

/// The seeds as sequences of bytes.
pub open spec fn seeds_view(seeds: Seq<Vec<u8>>) -> Seq<Seq<u8>> {
    Seq::new(seeds.len(), |i: int| seeds[i]@)
}

/// `mpl_token_metadata::ID`: the address of the metadata program, which is
/// claimed to be `METADATA_PROGRAM_ID`.
#[verifier::external_body]
fn metadata_program_id() -> (id: Pubkey)
    ensures
        id.bytes == METADATA_PROGRAM_ID,
{
    Pubkey { bytes: mpl_token_metadata::ID.to_bytes() }
}

/// `solana_program::system_program::ID`: the address of the system program,
/// which is claimed to be `SYSTEM_PROGRAM_ID`.
#[verifier::external_body]
fn system_program_id() -> (id: Pubkey)
    ensures
        id.bytes == SYSTEM_PROGRAM_ID,
{
    Pubkey { bytes: solana_program::system_program::ID.to_bytes() }
}

/// `solana_program::sysvar::rent::ID`: the address of the rent account,
/// which is claimed to be `RENT_SYSVAR_ID`.
#[verifier::external_body]
fn rent_sysvar_id() -> (id: Pubkey)
    ensures
        id.bytes == RENT_SYSVAR_ID,
{
    Pubkey { bytes: solana_program::sysvar::rent::ID.to_bytes() }
}

/// `solana_program::pubkey::Pubkey::try_find_program_address`: searches the
/// bump, from 255 down, with which the seeds hash to a valid address of the
/// program. The result depends on the seeds and the program alone, and is
/// what `program_address` names. The function does not panic.
#[verifier::external_body]
fn try_find_program_address(seeds: &Vec<Vec<u8>>, program_id: &Pubkey) -> (res: Option<(Pubkey, u8)>)
    ensures
        res matches Some((key, bump)) ==> program_address(seeds_view(seeds@), program_id.bytes@) == Some(
            (key.bytes@, bump),
        ),
        res is None ==> program_address(seeds_view(seeds@), program_id.bytes@) is None,
{
    let slices: Vec<&[u8]> = seeds.iter().map(|seed| seed.as_slice()).collect();
    let id = solana_program::pubkey::Pubkey::new_from_array(program_id.bytes);
    solana_program::pubkey::Pubkey::try_find_program_address(&slices, &id)
        .map(|(key, bump)| (Pubkey { bytes: key.to_bytes() }, bump))
}

/// The accounts that the instruction to record a name lists, in their order.
pub open spec fn metadata_account_metas(accounts: MetadataAccounts) -> Seq<AccountMeta> {
    seq![
        AccountMeta { pubkey: accounts.metadata, is_signer: false, is_writable: true },
        AccountMeta { pubkey: accounts.mint, is_signer: false, is_writable: false },
        AccountMeta { pubkey: accounts.mint_authority, is_signer: true, is_writable: false },
        AccountMeta { pubkey: accounts.payer, is_signer: true, is_writable: true },
        AccountMeta {
            pubkey: accounts.update_authority,
            is_signer: accounts.update_authority_is_signer,
            is_writable: false,
        },
        AccountMeta { pubkey: accounts.system_program, is_signer: false, is_writable: false },
        AccountMeta { pubkey: accounts.rent, is_signer: false, is_writable: false },
    ]
}

/// An account as an instruction of the ledger names it: its address, whether
/// it signs, and whether it may be changed.
pub open spec fn meta_entry(meta: AccountMeta) -> ([u8; 32], bool, bool) {
    (meta.pubkey.bytes, meta.is_signer, meta.is_writable)
}

/// `mpl_token_metadata::instructions::CreateMetadataAccountV3::instruction`:
/// builds the instruction that records a token's name, with the rent account
/// given, and without creators, collection, uses or collection details. The
/// result is the instruction's program, its accounts, each with its address
/// and whether it signs and may be changed, and its data.
///
/// The instruction is for the metadata program. It lists the seven accounts
/// in the order that the program documents: the metadata account, writable;
/// the mint; the mint authority, signing; the payer, writable and signing;
/// the update authority, signing if so asked; the system program; the rent
/// account. Its data are the instruction's number and the arguments as the
/// outside crate serialises them, which `create_metadata_data` writes out.
///
/// The outside function panics on a text of more than `MAX_TEXT_BYTES` bytes.
#[verifier::external_body]
fn create_metadata_account_v3(
    accounts: &MetadataAccounts,
    name: String,
    symbol: String,
    uri: String,
    seller_fee_basis_points: u16,
    is_mutable: bool,
) -> (ix: ([u8; 32], Vec<([u8; 32], bool, bool)>, Vec<u8>))
    requires
        encode_utf8(name@).len() <= MAX_TEXT_BYTES,
        encode_utf8(symbol@).len() <= MAX_TEXT_BYTES,
        encode_utf8(uri@).len() <= MAX_TEXT_BYTES,
    ensures
        ix.0 == METADATA_PROGRAM_ID,
        ix.1@ == metadata_account_metas(*accounts).map_values(|meta: AccountMeta| meta_entry(meta)),
        ix.2@ == create_metadata_data(name@, symbol@, uri@, seller_fee_basis_points, is_mutable),
{
    let ix = CreateMetadataAccountV3 {
        metadata: accounts.metadata.bytes.into(),
        mint: accounts.mint.bytes.into(),
        mint_authority: accounts.mint_authority.bytes.into(),
        payer: accounts.payer.bytes.into(),
        update_authority: (accounts.update_authority.bytes.into(), accounts.update_authority_is_signer),
        system_program: accounts.system_program.bytes.into(),
        rent: Some(accounts.rent.bytes.into()),
    }.instruction(CreateMetadataAccountV3InstructionArgs {
        data: DataV2 { name, symbol, uri, seller_fee_basis_points, creators: None, collection: None, uses: None },
        is_mutable,
        collection_details: None,
    });
    (ix.program_id.to_bytes(), ix.accounts.iter().map(|m| (m.pubkey.to_bytes(), m.is_signer, m.is_writable)).collect(), ix.data)
}

/// Puts the parts of an instruction together.
fn assemble_instruction(program_id: [u8; 32], entries: Vec<([u8; 32], bool, bool)>, data: Vec<u8>) -> (ix:
    Instruction)
    ensures
        ix.program_id.bytes == program_id,
        ix.accounts@.map_values(|meta: AccountMeta| meta_entry(meta)) == entries@,
        ix.data == data,
{
    let mut accounts: Vec<AccountMeta> = Vec::new();
    let mut i: usize = 0;
    while i < entries.len()
        invariant
            i <= entries.len(),
            accounts@.len() == i,
            forall|j: int| 0 <= j < i ==> meta_entry(#[trigger] accounts@[j]) == entries@[j],
        decreases entries.len() - i,
    {
        let entry: ([u8; 32], bool, bool) = entries[i];
        accounts.push(
            AccountMeta { pubkey: Pubkey { bytes: entry.0 }, is_signer: entry.1, is_writable: entry.2 },
        );
        i += 1;
    }
    assert(accounts@.map_values(|meta: AccountMeta| meta_entry(meta)) =~= entries@);
    Instruction { program_id: Pubkey { bytes: program_id }, accounts, data }
}

/// Two lists of accounts that an instruction names alike are the same.
proof fn lemma_entries_determine_metas(left: Seq<AccountMeta>, right: Seq<AccountMeta>)
    requires
        left.map_values(|meta: AccountMeta| meta_entry(meta)) == right.map_values(
            |meta: AccountMeta| meta_entry(meta),
        ),
    ensures
        left == right,
{
    let l = left.map_values(|meta: AccountMeta| meta_entry(meta));
    let r = right.map_values(|meta: AccountMeta| meta_entry(meta));
    assert(left.len() == l.len() && right.len() == r.len());
    assert forall|i: int| 0 <= i < left.len() implies left[i] == right[i] by {
        assert(l[i] == meta_entry(left[i]));
        assert(r[i] == meta_entry(right[i]));
    }
    assert(left =~= right);
}

/// The seeds of the address of a token's name record: the word `metadata`,
/// the metadata program's address, and the token's.
pub open spec fn metadata_seeds(mint: Pubkey) -> Seq<Seq<u8>> {
    seq![METADATA_SEED@, METADATA_PROGRAM_ID@, mint.bytes@]
}

/// The address of a token's name record, with its bump, where there is one.
pub open spec fn metadata_address(mint: Pubkey) -> Option<(Seq<u8>, u8)> {
    program_address(metadata_seeds(mint), METADATA_PROGRAM_ID@)
}

/// The address of the name record of the token `mint`, with its bump: the
/// address that the metadata program derives for the token. `None` in the
/// case, never seen, that no bump gives a valid address.
pub fn find_metadata_account(mint: &Pubkey) -> (res: Option<(Pubkey, u8)>)
    ensures
        res matches Some((key, bump)) ==> metadata_address(*mint) == Some((key.bytes@, bump)),
        res is None ==> metadata_address(*mint) is None,
{
    let program = metadata_program_id();
    let mut seeds: Vec<Vec<u8>> = Vec::new();
    seeds.push(slice_to_vec(METADATA_SEED.as_slice()));
    seeds.push(slice_to_vec(program.bytes.as_slice()));
    seeds.push(slice_to_vec(mint.bytes.as_slice()));
    assert(seeds_view(seeds@) =~= metadata_seeds(*mint));
    try_find_program_address(&seeds, &program)
}

/// What checking the accounts of a name record gives: the record's account
/// has to be owned by the system program still, the program has to be the
/// metadata program, and the account has to be the one that the program
/// derives for the token.
pub open spec fn metadata_account_check(
    metadata: AccountInfo,
    metadata_program: AccountInfo,
    system_program: AccountInfo,
    mint: Pubkey,
) -> Result<(), ErrorCode> {
    if metadata.owner != system_program.key {
        Err(ErrorCode::InvalidOwner)
    } else if metadata_program.key.bytes != METADATA_PROGRAM_ID {
        Err(ErrorCode::InvalidMetadataProgram)
    } else {
        match metadata_address(mint) {
            Some((address, _)) => if metadata.key.bytes@ == address {
                Ok(())
            } else {
                Err(ErrorCode::InvalidMetadataAddress)
            },
            None => Err(ErrorCode::InvalidMetadataAddress),
        }
    }
}

/// Checks the accounts that a token's name is to be recorded with.
pub fn validate_metadata_account(
    metadata: &AccountInfo,
    metadata_program: &AccountInfo,
    system_program: &AccountInfo,
    mint: &Pubkey,
) -> (res: Result<(), ErrorCode>)
    ensures
        res == metadata_account_check(*metadata, *metadata_program, *system_program, *mint),
{
    if metadata.owner != system_program.key {
        return Err(ErrorCode::InvalidOwner);
    }
    if metadata_program.key != metadata_program_id() {
        return Err(ErrorCode::InvalidMetadataProgram);
    }
    match find_metadata_account(mint) {
        Some((expected_metadata, _)) => {
            if metadata.key != expected_metadata {
                assert(metadata.key.bytes@ != expected_metadata.bytes@) by {
                    if metadata.key.bytes@ == expected_metadata.bytes@ {
                        assert(metadata.key.bytes =~= expected_metadata.bytes);
                    }
                }
                return Err(ErrorCode::InvalidMetadataAddress);
            }
            Ok(())
        },
        None => Err(ErrorCode::InvalidMetadataAddress),
    }
}

/// Whether a text is short enough for an instruction to carry.
pub open spec fn text_fits(text: Seq<char>) -> bool {
    encode_utf8(text).len() <= MAX_TEXT_BYTES
}

/// The accounts of the instruction that records a name: the update authority
/// signs, and the system program and the rent account are the ledger's.
pub open spec fn metadata_accounts(
    metadata: Pubkey,
    mint: Pubkey,
    mint_authority: Pubkey,
    payer: Pubkey,
    update_authority: Pubkey,
) -> MetadataAccounts {
    MetadataAccounts {
        metadata,
        mint,
        mint_authority,
        payer,
        update_authority,
        update_authority_is_signer: true,
        system_program: Pubkey { bytes: SYSTEM_PROGRAM_ID },
        rent: Pubkey { bytes: RENT_SYSVAR_ID },
    }
}

/// Builds the instruction that records the name, the symbol and the link of a
/// token: for the metadata program, on the given accounts, with no seller
/// fee, and not to be changed afterwards.
///
/// Fails with `MetadataCreationFailed` exactly when one of the texts is longer
/// than `MAX_TEXT_BYTES` bytes.
pub fn create_metadata_ix(
    metadata: Pubkey,
    mint: Pubkey,
    mint_authority: Pubkey,
    payer: Pubkey,
    update_authority: Pubkey,
    name: String,
    symbol: String,
    uri: String,
) -> (res: Result<Instruction, ErrorCode>)
    ensures
        !(text_fits(name@) && text_fits(symbol@) && text_fits(uri@)) ==> res == Err::<
            Instruction,
            ErrorCode,
        >(ErrorCode::MetadataCreationFailed),
        text_fits(name@) && text_fits(symbol@) && text_fits(uri@) ==> {
            &&& res matches Ok(ix)
            &&& ix.program_id.bytes == METADATA_PROGRAM_ID
            &&& ix.accounts@ == metadata_account_metas(
                metadata_accounts(metadata, mint, mint_authority, payer, update_authority),
            )
            &&& ix.data@ == create_metadata_data(name@, symbol@, uri@, 0, false)
        },
{
    if name.as_str().as_bytes().len() > MAX_TEXT_BYTES || symbol.as_str().as_bytes().len()
        > MAX_TEXT_BYTES || uri.as_str().as_bytes().len() > MAX_TEXT_BYTES {
        return Err(ErrorCode::MetadataCreationFailed);
    }
    let accounts = MetadataAccounts {
        metadata,
        mint,
        mint_authority,
        payer,
        update_authority,
        update_authority_is_signer: true,
        system_program: system_program_id(),
        rent: rent_sysvar_id(),
    };
    let (program_id, entries, data) = create_metadata_account_v3(&accounts, name, symbol, uri, 0, false);
    let ix = assemble_instruction(program_id, entries, data);
    proof {
        lemma_entries_determine_metas(ix.accounts@, metadata_account_metas(accounts));
    }
    Ok(ix)
}

} // verus!
