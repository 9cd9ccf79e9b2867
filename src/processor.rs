//! Instruction handlers: registry bootstrap, deposit and withdrawal.
//! Each handler reads a snapshot of the accounts it is given and either
//! refuses the instruction or returns the effect that the host must apply.
use vstd::prelude::*;
use crate::error::BridgeError;
use crate::identity::Identity;
use crate::instruction::{
    instruction_decodable, le_u64, read_u64_le, utf8_decode, BridgeInstruction,
};
use crate::ledger::{
    create_program_address, is_token_program, program_address, rent_computable, rent_minimum,
    rent_minimum_balance, rent_sysvar_id, token_account_error, token_account_owner,
    token_program_id,
};
use crate::state::{
    copy_range, holds_registry, registry_decodable, registry_len, IncognitoProxy, RegistryModel,
    UnshieldRequest,
};

verus! {

/// A snapshot of one account handed to an instruction.
#[derive(Debug, Clone)]
pub struct Account {
    pub key: Identity,
    /// The program that controls the account.
    pub owner: Identity,
    pub is_signer: bool,
    pub is_writable: bool,
    pub lamports: u64,
    pub data: Vec<u8>,
}

/// Who authorizes a token transfer.
#[derive(Debug, Clone, Copy)]
pub enum Authority {
    /// A signer holding its private key.
    HeldKey { key: Identity },
    /// The keyless vault authority, asserted by this program from its seeds.
    Derived { address: Identity, registry: Identity, bump_seed: u8 },
}

/// A transfer for the token program to perform.
#[derive(Debug, Clone, Copy)]
pub struct TokenTransfer {
    pub token_program: Identity,
    pub source: Identity,
    pub destination: Identity,
    pub authority: Authority,
    pub amount: u64,
}

/// What an accepted instruction asks the host to do.
#[derive(Debug, Clone)]
pub enum Outcome {
    /// Perform the deposit, then announce it for `inc_address`.
    Shielded { transfer: TokenTransfer, inc_address: String },
    /// Perform the withdrawal.
    Unshielded { transfer: TokenTransfer },
    /// Store `registry_data` as the registry account's new data.
    Initialized { registry_data: Vec<u8> },
}

/// Seeds of the vault authority: the registry's address and its bump seed.
pub open spec fn authority_seeds(registry: Seq<u8>, bump_seed: u8) -> Seq<Seq<u8>> {
    seq![registry, seq![bump_seed]]
}

/// Checks of a deposit once the signer and the rent minimum are known.
pub open spec fn shield_check(
    program_id: Seq<u8>,
    vault: Account,
    registry: Account,
    token_program: Seq<u8>,
    rent_minimum: u64,
) -> Result<(), BridgeError> {
    if registry.owner@ != program_id {
        Err(BridgeError::IncorrectProgramId)
    } else if vault.owner@ != token_program_id() {
        Err(BridgeError::IncorrectProgramId)
    } else if token_account_error(vault.data@) is Some {
        Err(token_account_error(vault.data@)->Some_0)
    } else if !registry_decodable(registry.data@) {
        Err(BridgeError::InvalidAccountData)
    } else if registry.data@[0] == 0 {
        Err(BridgeError::UninitializedAccount)
    } else {
        match program_address(authority_seeds(registry.key@, registry.data@[1]), program_id) {
            None => Err(BridgeError::InvalidSeeds),
            Some(a) => if vault.data@.subrange(32, 64) != a {
                Err(BridgeError::IncorrectProgramId)
            } else if vault.lamports < rent_minimum {
                Err(BridgeError::NotRentExempt)
            } else if token_program != token_program_id() {
                Err(BridgeError::IncorrectProgramId)
            } else {
                Ok(())
            },
        }
    }
}

/// The transfer of a deposit: `amount` from the depositor's token account
/// into the vault, under the depositor's own signature.
pub open spec fn is_shield_transfer(accounts: Seq<Account>, amount: u64, t: TokenTransfer) -> bool {
    &&& t.token_program@ == accounts[5].key@
    &&& t.source@ == accounts[1].key@
    &&& t.destination@ == accounts[2].key@
    &&& t.authority matches Authority::HeldKey { key } && key@ == accounts[0].key@
    &&& t.amount == amount
}

/// Checks of a withdrawal once the signer is known; on success, the vault
/// authority's address.
pub open spec fn unshield_check(
    program_id: Seq<u8>,
    vault: Seq<u8>,
    registry: Account,
    token_program: Seq<u8>,
) -> Result<Seq<u8>, BridgeError> {
    if !registry_decodable(registry.data@) {
        Err(BridgeError::InvalidAccountData)
    } else if registry.data@[0] == 0 {
        Err(BridgeError::UninitializedAccount)
    } else if registry.data@.subrange(2, 34) != vault {
        Err(BridgeError::IncorrectProgramId)
    } else if registry.owner@ != program_id {
        Err(BridgeError::IncorrectProgramId)
    } else {
        match program_address(authority_seeds(registry.key@, registry.data@[1]), program_id) {
            None => Err(BridgeError::InvalidSeeds),
            Some(a) => if token_program != token_program_id() {
                Err(BridgeError::IncorrectProgramId)
            } else {
                Ok(a)
            },
        }
    }
}

/// The transfer of a withdrawal: `amount` from the vault to the destination
/// account, under the vault authority `address` derived from the registry.
pub open spec fn is_unshield_transfer(
    accounts: Seq<Account>,
    amount: u64,
    address: Seq<u8>,
    t: TokenTransfer,
) -> bool {
    &&& t.token_program@ == accounts[6].key@
    &&& t.source@ == accounts[2].key@
    &&& t.destination@ == accounts[5].key@
    &&& t.authority matches Authority::Derived { address: d, registry, bump_seed } && d@ == address
        && registry@ == accounts[4].key@ && bump_seed == accounts[4].data@[1]
    &&& t.amount == amount
}

/// Checks of a registry bootstrap once the signer is known.
pub open spec fn init_check(program_id: Seq<u8>, registry: Account, payload_beacons: nat) -> Result<
    (),
    BridgeError,
> {
    if registry.owner@ != program_id {
        Err(BridgeError::IncorrectProgramId)
    } else if !registry_decodable(registry.data@) {
        Err(BridgeError::InvalidAccountData)
    } else if registry.data@[0] == 1 {
        Err(BridgeError::BeaconsInitialized)
    } else if registry_len(payload_beacons as int) > registry.data@.len() || payload_beacons
        > u32::MAX {
        Err(BridgeError::InvalidAccountData)
    } else {
        Ok(())
    }
}

/// Refuses a custody account whose balance is below the rent-exempt minimum.
pub fn assert_rent_exempt(lamports: u64, minimum: u64) -> (r: Result<(), BridgeError>)
    ensures
        r is Ok <==> lamports >= minimum,
        r is Err ==> r == Err::<(), BridgeError>(BridgeError::NotRentExempt),
{
    if lamports < minimum {
        Err(BridgeError::NotRentExempt)
    } else {
        Ok(())
    }
}

/// The checks of a deposit, given the rent-exempt minimum for the vault.
pub fn check_shield(
    program_id: &Identity,
    vault: &Account,
    registry: &Account,
    token_program: &Identity,
    rent_minimum: u64,
) -> (r: Result<(), BridgeError>)
    ensures
        r == shield_check(program_id@, *vault, *registry, token_program@, rent_minimum),
{
    if !registry.owner.equals(program_id) {
        return Err(BridgeError::IncorrectProgramId);
    }
    if !is_token_program(&vault.owner) {
        return Err(BridgeError::IncorrectProgramId);
    }
    let vault_owner = token_account_owner(&vault.data)?;
    let info = IncognitoProxy::unpack(&registry.data)?;
    let authority = create_program_address(&registry.key, info.bump_seed, program_id)?;
    if !vault_owner.equals(&authority) {
        return Err(BridgeError::IncorrectProgramId);
    }
    assert_rent_exempt(vault.lamports, rent_minimum)?;
    if !is_token_program(token_program) {
        return Err(BridgeError::IncorrectProgramId);
    }
    Ok(())
}

/// The checks of a withdrawal; on success, the vault authority.
pub fn check_unshield(
    program_id: &Identity,
    vault: &Identity,
    registry: &Account,
    token_program: &Identity,
) -> (r: Result<Identity, BridgeError>)
    ensures
        match unshield_check(program_id@, vault@, *registry, token_program@) {
            Ok(a) => r matches Ok(x) && x@ == a,
            Err(e) => r == Err::<Identity, BridgeError>(e),
        },
{
    let info = IncognitoProxy::unpack(&registry.data)?;
    proof {
        assert(registry.data@.subrange(2, 34) == info.vault@);
    }
    if !info.vault.equals(vault) {
        return Err(BridgeError::IncorrectProgramId);
    }
    if !registry.owner.equals(program_id) {
        return Err(BridgeError::IncorrectProgramId);
    }
    let authority = create_program_address(&registry.key, info.bump_seed, program_id)?;
    if !is_token_program(token_program) {
        return Err(BridgeError::IncorrectProgramId);
    }
    Ok(authority)
}

/// The rent-exempt minimum for the vault, from the rent sysvar's data.
pub open spec fn vault_rent_minimum(accounts: Seq<Account>) -> u64 {
    rent_minimum(accounts[3].data@, accounts[2].data@.len())
}

/// What a deposit returns on `accounts`: refusals in the order the
/// handler checks, then the checks of `shield_check` against the rent
/// minimum that the rent sysvar gives for the vault.
pub open spec fn shield_result(
    program_id: Seq<u8>,
    accounts: Seq<Account>,
    amount: u64,
    inc_address: Seq<char>,
    r: Result<Outcome, BridgeError>,
) -> bool {
    if accounts.len() == 0 {
        r == Err::<Outcome, BridgeError>(BridgeError::NotEnoughAccountKeys)
    } else if !accounts[0].is_signer {
        r == Err::<Outcome, BridgeError>(BridgeError::MissingRequiredSignature)
    } else if accounts.len() < 6 {
        r == Err::<Outcome, BridgeError>(BridgeError::NotEnoughAccountKeys)
    } else if accounts[3].key@ != rent_sysvar_id() || accounts[3].data@.len() < 17
        || !rent_computable(accounts[3].data@, accounts[2].data@.len()) {
        r == Err::<Outcome, BridgeError>(BridgeError::InvalidArgument)
    } else {
        match shield_check(
            program_id,
            accounts[2],
            accounts[4],
            accounts[5].key@,
            vault_rent_minimum(accounts),
        ) {
            Err(e) => r == Err::<Outcome, BridgeError>(e),
            Ok(_) => r matches Ok(Outcome::Shielded { transfer, inc_address: a })
                && a@ == inc_address && is_shield_transfer(accounts, amount, transfer),
        }
    }
}

/// What a withdrawal of `amount` returns on `accounts`.
pub open spec fn unshield_result(
    program_id: Seq<u8>,
    accounts: Seq<Account>,
    amount: u64,
    r: Result<Outcome, BridgeError>,
) -> bool {
    if accounts.len() == 0 {
        r == Err::<Outcome, BridgeError>(BridgeError::NotEnoughAccountKeys)
    } else if !accounts[0].is_signer {
        r == Err::<Outcome, BridgeError>(BridgeError::MissingRequiredSignature)
    } else if accounts.len() < 7 {
        r == Err::<Outcome, BridgeError>(BridgeError::NotEnoughAccountKeys)
    } else {
        match unshield_check(program_id, accounts[2].key@, accounts[4], accounts[6].key@) {
            Err(e) => r == Err::<Outcome, BridgeError>(e),
            Ok(a) => r matches Ok(Outcome::Unshielded { transfer }) && is_unshield_transfer(
                accounts,
                amount,
                a,
                transfer,
            ),
        }
    }
}

/// `payload` marked initialized: what a bootstrap stores.
pub open spec fn installed(payload: RegistryModel) -> RegistryModel {
    RegistryModel {
        is_initialized: true,
        bump_seed: payload.bump_seed,
        vault: payload.vault,
        beacons: payload.beacons,
    }
}

/// What a bootstrap installing `payload` returns on `accounts`: on success
/// the registry's data with `payload`, marked initialized whatever its own
/// flag says, written over its start.
pub open spec fn init_result(
    program_id: Seq<u8>,
    accounts: Seq<Account>,
    payload: RegistryModel,
    r: Result<Outcome, BridgeError>,
) -> bool {
    if accounts.len() == 0 {
        r == Err::<Outcome, BridgeError>(BridgeError::NotEnoughAccountKeys)
    } else if !accounts[0].is_signer {
        r == Err::<Outcome, BridgeError>(BridgeError::MissingRequiredSignature)
    } else if accounts.len() < 2 {
        r == Err::<Outcome, BridgeError>(BridgeError::NotEnoughAccountKeys)
    } else {
        match init_check(program_id, accounts[1], payload.beacons.len()) {
            Err(e) => r == Err::<Outcome, BridgeError>(e),
            Ok(_) => {
                let old_data = accounts[1].data@;
                let end = registry_len(payload.beacons.len() as int);
                r matches Ok(Outcome::Initialized { registry_data: d }) && d@.len() == old_data.len()
                    && holds_registry(d@, installed(payload)) && d@.subrange(end, d@.len() as int)
                    == old_data.subrange(end, old_data.len() as int)
            },
        }
    }
}

/// Entry point of the program's instructions.
pub struct Processor;

impl Processor {
    /// Registry bootstrap. Accounts: initializer (signer), registry.
    /// On success, the registry's new data holding `init_beacon_info`,
    /// marked initialized.
    pub fn process_init_beacon(
        accounts: &Vec<Account>,
        init_beacon_info: IncognitoProxy,
        program_id: &Identity,
    ) -> (r: Result<Outcome, BridgeError>)
        ensures
            init_result(program_id@, accounts@, init_beacon_info@, r),
    {
        if accounts.len() < 1 {
            return Err(BridgeError::NotEnoughAccountKeys);
        }
        if !accounts[0].is_signer {
            return Err(BridgeError::MissingRequiredSignature);
        }
        if accounts.len() < 2 {
            return Err(BridgeError::NotEnoughAccountKeys);
        }
        let registry = &accounts[1];
        if !registry.owner.equals(program_id) {
            return Err(BridgeError::IncorrectProgramId);
        }
        let current = IncognitoProxy::unpack_unchecked(&registry.data)?;
        if current.is_initialized {
            return Err(BridgeError::BeaconsInitialized);
        }
        let mut data = copy_range(&registry.data, 0, registry.data.len());
        let stored = IncognitoProxy {
            is_initialized: true,
            bump_seed: init_beacon_info.bump_seed,
            vault: init_beacon_info.vault,
            beacons: init_beacon_info.beacons,
        };
        stored.pack(&mut data)?;
        proof {
            let end = registry_len(stored@.beacons.len() as int);
            assert(stored@ == installed(init_beacon_info@));
            assert(stored@.beacons.len() == stored.beacons@.len());
            assert(data@.subrange(end, data@.len() as int) == registry.data@.subrange(
                end,
                registry.data@.len() as int,
            ));
        }
        Ok(Outcome::Initialized { registry_data: data })
    }

    /// Deposit. Accounts: depositor (signer), depositor's token account,
    /// vault token account, rent sysvar, registry, token program.
    pub fn process_shield(
        accounts: &Vec<Account>,
        amount: u64,
        inc_address: String,
        program_id: &Identity,
    ) -> (r: Result<Outcome, BridgeError>)
        ensures
            shield_result(program_id@, accounts@, amount, inc_address@, r),
    {
        if accounts.len() < 1 {
            return Err(BridgeError::NotEnoughAccountKeys);
        }
        if !accounts[0].is_signer {
            return Err(BridgeError::MissingRequiredSignature);
        }
        if accounts.len() < 6 {
            return Err(BridgeError::NotEnoughAccountKeys);
        }
        let depositor = &accounts[0];
        let depositor_token = &accounts[1];
        let vault = &accounts[2];
        let rent_account = &accounts[3];
        let registry = &accounts[4];
        let token_program = &accounts[5];
        if rent_account.data.len() < 17 {
            return Err(BridgeError::InvalidArgument);
        }
        let rate = read_u64_le(&rent_account.data, 0);
        let len = vault.data.len();
        let base = match (len as u64).checked_add(128) {
            Some(base) => base,
            None => return Err(BridgeError::InvalidArgument),
        };
        if base.checked_mul(rate).is_none() {
            return Err(BridgeError::InvalidArgument);
        }
        let minimum = match rent_minimum_balance(&rent_account.key, &rent_account.owner, &rent_account.data, len) {
            Some(m) => m,
            None => return Err(BridgeError::InvalidArgument),
        };
        let checked = check_shield(program_id, vault, registry, &token_program.key, minimum);
        checked?;
        let transfer = TokenTransfer {
            token_program: token_program.key,
            source: depositor_token.key,
            destination: vault.key,
            authority: Authority::HeldKey { key: depositor.key },
            amount,
        };
        Ok(Outcome::Shielded { transfer, inc_address })
    }

    /// Withdrawal. Accounts: withdrawer (signer), withdrawer's token account,
    /// vault token account, vault authority, registry, destination token
    /// account, token program.
    pub fn process_unshield(
        accounts: &Vec<Account>,
        unshield_info: UnshieldRequest,
        program_id: &Identity,
    ) -> (r: Result<Outcome, BridgeError>)
        ensures
            unshield_result(program_id@, accounts@, unshield_info.amount, r),
    {
        if accounts.len() < 1 {
            return Err(BridgeError::NotEnoughAccountKeys);
        }
        if !accounts[0].is_signer {
            return Err(BridgeError::MissingRequiredSignature);
        }
        if accounts.len() < 7 {
            return Err(BridgeError::NotEnoughAccountKeys);
        }
        let vault = &accounts[2];
        let registry = &accounts[4];
        let destination = &accounts[5];
        let token_program = &accounts[6];
        let address = check_unshield(program_id, &vault.key, registry, &token_program.key)?;
        let bump_seed = registry.data[1];
        let transfer = TokenTransfer {
            token_program: token_program.key,
            source: vault.key,
            destination: destination.key,
            authority: Authority::Derived { address, registry: registry.key, bump_seed },
            amount: unshield_info.amount,
        };
        Ok(Outcome::Unshielded { transfer })
    }

    /// Decodes `instruction_data` and runs the instruction it names.
    pub fn process(program_id: &Identity, accounts: &Vec<Account>, instruction_data: &Vec<u8>) -> (r:
        Result<Outcome, BridgeError>)
        ensures
            !instruction_decodable(instruction_data@) ==> r == Err::<Outcome, BridgeError>(
                BridgeError::InvalidInstructionData,
            ),
            instruction_decodable(instruction_data@) && accounts@.len() >= 1 && !accounts@[0].is_signer
                ==> r == Err::<Outcome, BridgeError>(BridgeError::MissingRequiredSignature),
            instruction_decodable(instruction_data@) && instruction_data@[0] == 0 ==> shield_result(
                program_id@,
                accounts@,
                le_u64(instruction_data@, 1),
                utf8_decode(instruction_data@.subrange(13, instruction_data@.len() as int))->Some_0,
                r,
            ),
            instruction_decodable(instruction_data@) && instruction_data@[0] == 1 ==> unshield_result(
                program_id@,
                accounts@,
                le_u64(instruction_data@, 1),
                r,
            ),
            instruction_decodable(instruction_data@) && instruction_data@[0] == 2 ==> exists|
                p: RegistryModel,
            |
                holds_registry(instruction_data@.subrange(1, instruction_data@.len() as int), p)
                    && #[trigger] init_result(program_id@, accounts@, p, r),
    {
        let instruction = BridgeInstruction::unpack(instruction_data)?;
        match instruction {
            BridgeInstruction::Shield { amount, inc_address } => {
                Self::process_shield(accounts, amount, inc_address, program_id)
            },
            BridgeInstruction::UnShield { unshield_info } => {
                Self::process_unshield(accounts, unshield_info, program_id)
            },
            BridgeInstruction::InitBeacon { init_beacon_info } => {
                let ghost p = init_beacon_info@;
                let r = Self::process_init_beacon(accounts, init_beacon_info, program_id);
                assert(init_result(program_id@, accounts@, p, r));
                r
            },
        }
    }
}

/// The registry is write-once: after one bootstrap succeeds, every later
/// bootstrap of that registry by a signer, with any payload, is refused as
/// already initialized.
pub proof fn lemma_registry_write_once(
    program_id: Seq<u8>,
    accounts: Seq<Account>,
    payload: RegistryModel,
    r: Result<Outcome, BridgeError>,
    later: Seq<Account>,
    later_payload: RegistryModel,
    later_r: Result<Outcome, BridgeError>,
)
    requires
        init_result(program_id, accounts, payload, r),
        r matches Ok(Outcome::Initialized { registry_data }) && later.len() >= 2
            && later[1].data@ == registry_data@,
        later[0].is_signer,
        later[1].owner@ == program_id,
        init_result(program_id, later, later_payload, later_r),
    ensures
        later_r == Err::<Outcome, BridgeError>(BridgeError::BeaconsInitialized),
{
}

/// A withdrawal is refused as `IncorrectProgramId` whenever the vault
/// account supplied is not the vault that the registry names, and succeeds
/// only when it is.
pub proof fn lemma_unshield_needs_registered_vault(
    program_id: Seq<u8>,
    accounts: Seq<Account>,
    amount: u64,
    r: Result<Outcome, BridgeError>,
)
    requires
        unshield_result(program_id, accounts, amount, r),
    ensures
        r is Ok ==> accounts[2].key@ == accounts[4].data@.subrange(2, 34),
        accounts.len() >= 7 && accounts[0].is_signer && registry_decodable(accounts[4].data@)
            && accounts[4].data@[0] == 1 && accounts[2].key@ != accounts[4].data@.subrange(2, 34)
            ==> r == Err::<Outcome, BridgeError>(BridgeError::IncorrectProgramId),
{
}

/// The vault authority is a function of the program, the registry and the
/// bump seed: two derivations from the same inputs give the same address.
pub proof fn lemma_authority_deterministic(
    program_id: Seq<u8>,
    registry: Seq<u8>,
    bump_seed: u8,
    a: Seq<u8>,
    b: Seq<u8>,
)
    requires
        program_address(authority_seeds(registry, bump_seed), program_id) == Some(a),
        program_address(authority_seeds(registry, bump_seed), program_id) == Some(b),
    ensures
        a == b,
{
}

/// A deposit is accepted only into a vault whose recorded owner is the
/// authority derived from the program, the registry and its bump seed.
pub proof fn lemma_shield_needs_vault_authority(
    program_id: Seq<u8>,
    accounts: Seq<Account>,
    amount: u64,
    inc_address: Seq<char>,
    r: Result<Outcome, BridgeError>,
)
    requires
        shield_result(program_id, accounts, amount, inc_address, r),
        r is Ok,
    ensures
        accounts.len() >= 6,
        program_address(authority_seeds(accounts[4].key@, accounts[4].data@[1]), program_id)
            == Some(accounts[2].data@.subrange(32, 64)),
{
}

/// A deposit that passes the signer, rent sysvar and ownership checks is
/// refused as `IncorrectProgramId` when the vault's recorded owner is not
/// the authority derived for the registry.
pub proof fn lemma_shield_refuses_foreign_vault(
    program_id: Seq<u8>,
    accounts: Seq<Account>,
    amount: u64,
    inc_address: Seq<char>,
    r: Result<Outcome, BridgeError>,
)
    requires
        shield_result(program_id, accounts, amount, inc_address, r),
        accounts.len() >= 6,
        accounts[0].is_signer,
        accounts[3].key@ == rent_sysvar_id(),
        accounts[3].data@.len() >= 17,
        rent_computable(accounts[3].data@, accounts[2].data@.len()),
        accounts[4].owner@ == program_id,
        accounts[2].owner@ == token_program_id(),
        token_account_error(accounts[2].data@) is None,
        registry_decodable(accounts[4].data@),
        accounts[4].data@[0] == 1,
        program_address(authority_seeds(accounts[4].key@, accounts[4].data@[1]), program_id) is Some,
        program_address(authority_seeds(accounts[4].key@, accounts[4].data@[1]), program_id)
            != Some(accounts[2].data@.subrange(32, 64)),
    ensures
        r == Err::<Outcome, BridgeError>(BridgeError::IncorrectProgramId),
{
}

} // verus!
