//! The host ledger and the token program, as far as the custody logic
//! relies on them.
use vstd::prelude::*;
use solana_program::program_error::ProgramError;
use solana_program::pubkey::{Pubkey, PubkeyError};
use solana_program::rent::Rent;
use solana_program::sysvar::Sysvar;
use solana_program::program_pack::Pack;
use crate::error::BridgeError;
use crate::identity::Identity;
use crate::instruction::le_u64;

verus! {

/// Address of the token program.
pub open spec fn token_program_id() -> Seq<u8> {
    seq![
        6u8, 221, 246, 225, 215, 101, 161, 147, 217, 203, 225, 70, 206, 235, 121, 172,
        28, 180, 133, 237, 95, 91, 55, 145, 58, 140, 245, 133, 126, 255, 0, 169,
    ]
}

/// Address of the rent sysvar account.
pub open spec fn rent_sysvar_id() -> Seq<u8> {
    seq![
        6u8, 167, 213, 23, 25, 44, 92, 81, 33, 140, 201, 76, 61, 74, 241, 127,
        88, 218, 238, 8, 155, 161, 253, 68, 227, 219, 217, 138, 0, 0, 0, 0,
    ]
}

/// The program-derived address for `seeds` under `program_id`, or `None`
/// where the hash lands on the curve and no such address exists.
pub uninterp spec fn program_address(seeds: Seq<Seq<u8>>, program_id: Seq<u8>) -> Option<Seq<u8>>;

/// Whether a 4-byte option tag of a token account is one of the two valid ones.
pub open spec fn valid_option_tag(data: Seq<u8>, at: int) -> bool {
    data[at + 1] == 0 && data[at + 2] == 0 && data[at + 3] == 0 && (data[at] == 0 || data[at] == 1)
}

/// Why a token account's data fails to decode, if it does.
pub open spec fn token_account_error(data: Seq<u8>) -> Option<BridgeError> {
    if data.len() != 165 {
        Some(BridgeError::InvalidAccountData)
    } else if !valid_option_tag(data, 72) || data[108] > 2 || !valid_option_tag(data, 109)
        || !valid_option_tag(data, 129) {
        Some(BridgeError::InvalidAccountData)
    } else if data[108] == 0 {
        Some(BridgeError::UninitializedAccount)
    } else {
        None
    }
}

/// Relies on spl_token::check_id: true exactly for the token program's address.
#[verifier::external_body]
pub(crate) fn is_token_program(id: &Identity) -> (r: bool)
    ensures
        r == (id@ == token_program_id()),
{
    spl_token::check_id(&Pubkey::new_from_array(id.bytes))
}

/// Relies on Pubkey::create_program_address with the seeds
/// `[registry, [bump_seed]]`: it succeeds exactly when the address exists.
/// Two seeds of 32 and 1 bytes are within the host's seed limits, so the
/// only failure is `InvalidSeeds`.
#[verifier::external_body]
pub(crate) fn create_program_address(registry: &Identity, bump_seed: u8, program_id: &Identity) -> (r:
    Result<Identity, BridgeError>)
    ensures
        match r {
            Ok(a) => program_address(seq![registry@, seq![bump_seed]], program_id@) == Some(a@),
            Err(e) => program_address(seq![registry@, seq![bump_seed]], program_id@) is None
                && e == BridgeError::InvalidSeeds,
        },
{
    let program = Pubkey::new_from_array(program_id.bytes);
    match Pubkey::create_program_address(&[&registry.bytes[..], &[bump_seed]], &program) {
        Ok(a) => Ok(Identity { bytes: a.to_bytes() }),
        Err(PubkeyError::MaxSeedLengthExceeded) => Err(BridgeError::MaxSeedLengthExceeded),
        Err(PubkeyError::InvalidSeeds) => Err(BridgeError::InvalidSeeds),
        Err(PubkeyError::IllegalOwner) => Err(BridgeError::IllegalOwner),
    }
}

/// The rent-exempt minimum that the rent sysvar holding `rent_data` gives
/// for an account of `data_len` bytes (computed by the host in floating point).
pub uninterp spec fn rent_minimum(rent_data: Seq<u8>, data_len: nat) -> u64;

/// Whether the host's integer part of the rent computation, `(128 + data_len)`
/// times the rate in the first eight bytes of `rent_data`, fits in a `u64`.
pub open spec fn rent_computable(rent_data: Seq<u8>, data_len: nat) -> bool {
    128 + data_len <= u64::MAX && (128 + data_len) * le_u64(rent_data, 0) <= u64::MAX
}

/// Relies on Sysvar::from_account_info for Rent and on Rent::minimum_balance.
/// The first refuses an account whose address is not the rent sysvar's and
/// otherwise decodes the data with bincode, which reads a `u64` (the rate per
/// byte-year, little-endian), an `f64` and a `u8` (17 bytes) and accepts
/// trailing bytes. The second multiplies `128 + data_len` by that rate in
/// `u64`, which panics on overflow; the `requires` excludes that.
#[verifier::external_body]
pub(crate) fn rent_minimum_balance(key: &Identity, owner: &Identity, rent_data: &Vec<u8>, data_len: usize) -> (r: Option<u64>)
    requires
        rent_data@.len() >= 17 ==> rent_computable(rent_data@, data_len as nat),
    ensures
        r is Some <==> (key@ == rent_sysvar_id() && rent_data@.len() >= 17),
        r matches Some(m) ==> m == rent_minimum(rent_data@, data_len as nat),
{
    let key = Pubkey::new_from_array(key.bytes);
    let owner = Pubkey::new_from_array(owner.bytes);
    let mut lamports: u64 = 0;
    let mut bytes = rent_data.clone();
    let info = solana_program::account_info::AccountInfo::new(
        &key, false, false, &mut lamports, &mut bytes, &owner, false, 0,
    );
    Rent::from_account_info(&info).ok().map(|rent| rent.minimum_balance(data_len))
}

/// Relies on Pack::unpack for spl_token's Account: the owner field of a
/// decodable, initialized token account.
#[verifier::external_body]
pub(crate) fn token_account_owner(data: &Vec<u8>) -> (r: Result<Identity, BridgeError>)
    ensures
        match token_account_error(data@) {
            Some(e) => r == Err::<Identity, BridgeError>(e),
            None => r matches Ok(o) && o@ == data@.subrange(32, 64),
        },
{
    match spl_token::state::Account::unpack(data) {
        Ok(a) => Ok(Identity { bytes: a.owner.to_bytes() }),
        Err(ProgramError::UninitializedAccount) => Err(BridgeError::UninitializedAccount),
        Err(_) => Err(BridgeError::InvalidAccountData),
    }
}

} // verus!
