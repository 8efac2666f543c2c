use vstd::prelude::*;
use crate::state::accounts::TokenAccount;
use crate::utils::error::ErrorCode;

verus! {

/// Checks that a token account holds exactly `expected`, and fails with
/// `BalanceMismatch` if it does not.
pub fn verify_token_balance(token_account: &TokenAccount, expected: u64) -> (res: Result<(), ErrorCode>)
    ensures
        token_account.amount == expected ==> res == Ok::<(), ErrorCode>(()),
        token_account.amount != expected ==> res == Err::<(), ErrorCode>(ErrorCode::BalanceMismatch),
{
    if token_account.amount != expected {
        return Err(ErrorCode::BalanceMismatch);
    }
    Ok(())
}

} // verus!
