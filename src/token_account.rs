//! Reading the balance held by an SPL token account from its raw data.

use vstd::prelude::*;
use crate::error::GameError;

verus! {

/// Length in bytes of a packed SPL token account.
pub const TOKEN_ACCOUNT_LEN: usize = 165;

/// The little-endian number held by eight bytes.
pub open spec fn le_u64(b: Seq<u8>) -> int
    recommends
        b.len() == 8,
{
    b[0] as int + 256 * (b[1] as int + 256 * (b[2] as int + 256 * (b[3] as int + 256 * (
    b[4] as int + 256 * (b[5] as int + 256 * (b[6] as int + 256 * b[7] as int))))))
}

/// A four-byte tag of an optional field: `0` for none, `1` for some.
pub open spec fn valid_option_tag(d: Seq<u8>, at: int) -> bool {
    &&& d[at + 1] == 0
    &&& d[at + 2] == 0
    &&& d[at + 3] == 0
    &&& (d[at] == 0 || d[at] == 1)
}

/// Whether `d` is a packed token account that is initialized: the right
/// length, a known state other than uninitialized, and well-formed tags on
/// the delegate, native-amount and close-authority fields.
pub open spec fn token_account_ok(d: Seq<u8>) -> bool {
    &&& d.len() == TOKEN_ACCOUNT_LEN
    &&& valid_option_tag(d, 72)
    &&& (d[108] == 1 || d[108] == 2)
    &&& valid_option_tag(d, 109)
    &&& valid_option_tag(d, 129)
}

/// The token amount that a packed token account holds: bytes 64 to 72.
pub open spec fn token_account_amount(d: Seq<u8>) -> int {
    le_u64(d.subrange(64, 72))
}

/// Relies on `spl_token::state::Account::unpack` (through `Pack`): it
/// accepts exactly the initialized, well-formed 165-byte accounts and reads
/// the amount as a little-endian `u64` at offset 64.
#[verifier::external_body]
fn unpack_token_amount(data: &[u8]) -> (r: Option<u64>)
    ensures
        r.is_some() <==> token_account_ok(data@),
        r.is_some() ==> r.unwrap() as int == token_account_amount(data@),
{
    <spl_token::state::Account as spl_token::solana_program::program_pack::Pack>::unpack(data)
        .ok()
        .map(|a| a.amount)
}

/// The balance that the token account `data` holds; `InvalidTokenAccount`
/// when `data` is not an initialized token account.
pub fn token_balance(data: &[u8]) -> (r: Result<u64, GameError>)
    ensures
        r is Ok <==> token_account_ok(data@),
        r is Ok ==> r == Ok::<u64, GameError>(token_account_amount(data@) as u64),
        r is Err ==> r == Err::<u64, GameError>(GameError::InvalidTokenAccount),
{
    match unpack_token_amount(data) {
        Some(amount) => Ok(amount),
        None => Err(GameError::InvalidTokenAccount),
    }
}

/// `InvalidTokenAccount` unless `d` is an initialized token account.
pub open spec fn token_error(d: Seq<u8>) -> Option<GameError> {
    if token_account_ok(d) {
        None
    } else {
        Some(GameError::InvalidTokenAccount)
    }
}

/// The balance a token account holds, as a `u64`.
pub open spec fn balance_of(d: Seq<u8>) -> u64 {
    token_account_amount(d) as u64
}

} // verus!
