use vstd::prelude::*;
use vstd::slice::slice_to_vec;
use crate::state::accounts::{AccountInfo, Pubkey};
use crate::state::bonding_curve::BondingCurve;
use crate::utils::error::ErrorCode;
use crate::utils::metadata::{
    create_metadata_data, create_metadata_ix, metadata_account_check, metadata_account_metas,
    metadata_accounts, seeds_view, text_fits, validate_metadata_account, Instruction,
    METADATA_PROGRAM_ID,
};

verus! {

/// The first seed of a curve's address where a name is recorded:
/// `bonding_curve`.
pub const CURVE_SEED: [u8; 13] = [98, 111, 110, 100, 105, 110, 103, 95, 99, 117, 114, 118, 101];

/// What recording a token's name reads: who pays, the token, its curve with
/// the curve's address, and the accounts that the record is made with.
#[derive(Debug, PartialEq, Eq)]
pub struct CreateMetadata {
    pub creator: Pubkey,
    pub mint: Pubkey,
    pub curve: BondingCurve,
    /// The address of the curve, which has the say over the token.
    pub curve_key: Pubkey,
    /// The account that is to hold the record.
    pub metadata: AccountInfo,
    pub metadata_program: AccountInfo,
    pub system_program: AccountInfo,
}

/// The name, the symbol and the link of a token.
#[derive(Debug, PartialEq, Eq)]
pub struct CreateMetadataParams {
    pub name: String,
    pub symbol: String,
    pub uri: String,
}

/// An instruction to hand to the metadata program, and the seeds with which
/// the curve signs it.
#[derive(Debug, PartialEq, Eq)]
pub struct MetadataInvocation {
    pub instruction: Instruction,
    pub signer_seeds: Vec<Vec<u8>>,
}

/// The seeds with which the curve of a token signs: the word
/// `bonding_curve`, the token's address, and the bump.
pub open spec fn curve_signer_seeds(mint: Pubkey, bump: u8) -> Seq<Seq<u8>> {
    seq![CURVE_SEED@, mint.bytes@, seq![bump]]
}

/// Whether `res` is what preparing the recording of a name has to give.
///
/// The accounts are checked first, and an error of the check is returned as
/// it is. After that, a text that is too long gives `MetadataCreationFailed`.
/// Otherwise the result is the instruction for the metadata program, in which
/// the curve stands as mint authority and as update authority and the creator
/// pays, with the seeds with which the curve signs.
pub open spec fn prepares_metadata(
    ctx: CreateMetadata,
    params: CreateMetadataParams,
    res: Result<MetadataInvocation, ErrorCode>,
) -> bool {
    let check = metadata_account_check(ctx.metadata, ctx.metadata_program, ctx.system_program, ctx.mint);
    let fits = text_fits(params.name@) && text_fits(params.symbol@) && text_fits(params.uri@);
    &&& check matches Err(e) ==> res == Err::<MetadataInvocation, ErrorCode>(e)
    &&& check is Ok && !fits ==> res == Err::<MetadataInvocation, ErrorCode>(
        ErrorCode::MetadataCreationFailed,
    )
    &&& check is Ok && fits ==> {
        &&& res matches Ok(invocation)
        &&& invocation.instruction.program_id.bytes == METADATA_PROGRAM_ID
        &&& invocation.instruction.accounts@ == metadata_account_metas(
            metadata_accounts(ctx.metadata.key, ctx.mint, ctx.curve_key, ctx.creator, ctx.curve_key),
        )
        &&& invocation.instruction.data@ == create_metadata_data(
            params.name@,
            params.symbol@,
            params.uri@,
            0,
            false,
        )
        &&& seeds_view(invocation.signer_seeds@) == curve_signer_seeds(ctx.mint, ctx.curve.bump)
    }
}

/// Prepares the recording of a token's name: checks the accounts, and builds
/// the instruction for the metadata program.
pub fn handler(ctx: &CreateMetadata, params: CreateMetadataParams) -> (res: Result<MetadataInvocation, ErrorCode>)
    ensures
        prepares_metadata(*ctx, params, res),
{
    validate_metadata_account(&ctx.metadata, &ctx.metadata_program, &ctx.system_program, &ctx.mint)?;

    let metadata_ix = create_metadata_ix(
        ctx.metadata.key,
        ctx.mint,
        ctx.curve_key,
        ctx.creator,
        ctx.curve_key,
        params.name,
        params.symbol,
        params.uri,
    )?;

    let mut bump_seed: Vec<u8> = Vec::new();
    bump_seed.push(ctx.curve.bump);
    let mut curve_seeds: Vec<Vec<u8>> = Vec::new();
    curve_seeds.push(slice_to_vec(CURVE_SEED.as_slice()));
    curve_seeds.push(slice_to_vec(ctx.mint.bytes.as_slice()));
    curve_seeds.push(bump_seed);
    assert(seeds_view(curve_seeds@) =~= curve_signer_seeds(ctx.mint, ctx.curve.bump));
    Ok(MetadataInvocation { instruction: metadata_ix, signer_seeds: curve_seeds })
}

} // verus!
