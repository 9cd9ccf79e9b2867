//! Instruction payloads: a leading tag byte, then the tag's body.
//! Shield: amount (u64 LE), destination address (u32 LE length, UTF-8 bytes).
//! Unshield: amount (u64 LE), destination (32 bytes).
//! InitBeacon: a registry in its account layout.
use vstd::prelude::*;
use crate::error::BridgeError;
use crate::identity::Identity;
use crate::state::{
    copy_range, holds_registry, le_u32, read_u32_le, registry_decodable, registry_len,
    IncognitoProxy, UnshieldRequest,
};

verus! {

/// The characters that UTF-8 bytes spell, or `None` where they are not UTF-8.
pub uninterp spec fn utf8_decode(bytes: Seq<u8>) -> Option<Seq<char>>;

/// Relies on String::from_utf8: it accepts exactly the valid UTF-8 byte
/// strings and keeps the characters they spell.
#[verifier::external_body]
fn string_from_utf8(bytes: Vec<u8>) -> (r: Option<String>)
    ensures
        match utf8_decode(bytes@) {
            Some(c) => r matches Some(s) && s@ == c,
            None => r is None,
        },
{
    String::from_utf8(bytes).ok()
}

/// Little-endian `u64` in the eight bytes at `at`.
pub open spec fn le_u64(data: Seq<u8>, at: int) -> u64 {
    (data[at] as u64) | ((data[at + 1] as u64) << 8u64) | ((data[at + 2] as u64) << 16u64)
        | ((data[at + 3] as u64) << 24u64) | ((data[at + 4] as u64) << 32u64)
        | ((data[at + 5] as u64) << 40u64) | ((data[at + 6] as u64) << 48u64)
        | ((data[at + 7] as u64) << 56u64)
}

/// Reads the little-endian `u64` at `at`.
pub fn read_u64_le(data: &Vec<u8>, at: usize) -> (r: u64)
    requires
        at + 8 <= data@.len(),
    ensures
        r == le_u64(data@, at as int),
{
    let _len = data.len();
    (data[at] as u64) | ((data[at + 1] as u64) << 8u64) | ((data[at + 2] as u64) << 16u64)
        | ((data[at + 3] as u64) << 24u64) | ((data[at + 4] as u64) << 32u64)
        | ((data[at + 5] as u64) << 40u64) | ((data[at + 6] as u64) << 48u64)
        | ((data[at + 7] as u64) << 56u64)
}

/// A decoded instruction.
pub enum BridgeInstruction {
    /// Deposit `amount` into the vault for `inc_address` on the other chain.
    Shield { amount: u64, inc_address: String },
    /// Withdraw from the vault.
    UnShield { unshield_info: UnshieldRequest },
    /// Install the registry.
    InitBeacon { init_beacon_info: IncognitoProxy },
}

/// Length of the destination address of a Shield payload.
pub open spec fn shield_text_len(data: Seq<u8>) -> int {
    le_u32(data, 9) as int
}

/// Whether `data` is a well-formed Shield payload, its text aside.
pub open spec fn shield_framed(data: Seq<u8>) -> bool {
    data.len() >= 13 && data.len() == 13 + shield_text_len(data)
}

/// Whether `data` is a well-formed InitBeacon payload.
pub open spec fn init_framed(data: Seq<u8>) -> bool {
    let body = data.subrange(1, data.len() as int);
    registry_decodable(body) && data.len() == 1 + registry_len(le_u32(body, 34) as int)
}

/// Whether `data` decodes to an instruction.
pub open spec fn instruction_decodable(data: Seq<u8>) -> bool {
    data.len() >= 1 && (
        (data[0] == 0 && shield_framed(data) && utf8_decode(data.subrange(13, data.len() as int)) is Some)
        || (data[0] == 1 && data.len() == 41)
        || (data[0] == 2 && init_framed(data)))
}

impl BridgeInstruction {
    /// Decodes an instruction payload.
    pub fn unpack(data: &Vec<u8>) -> (r: Result<BridgeInstruction, BridgeError>)
        ensures
            r is Ok <==> instruction_decodable(data@),
            r is Err ==> r == Err::<BridgeInstruction, BridgeError>(BridgeError::InvalidInstructionData),
            r matches Ok(BridgeInstruction::Shield { amount, inc_address }) ==> data@[0] == 0
                && amount == le_u64(data@, 1)
                && utf8_decode(data@.subrange(13, data@.len() as int)) == Some(inc_address@),
            r matches Ok(BridgeInstruction::UnShield { unshield_info }) ==> data@[0] == 1
                && unshield_info.amount == le_u64(data@, 1)
                && unshield_info.destination@ == data@.subrange(9, 41),
            r matches Ok(BridgeInstruction::InitBeacon { init_beacon_info }) ==> data@[0] == 2
                && holds_registry(data@.subrange(1, data@.len() as int), init_beacon_info@),
    {
        let len = data.len();
        if len == 0 {
            return Err(BridgeError::InvalidInstructionData);
        }
        let tag = data[0];
        if tag == 0 {
            if len < 13 {
                return Err(BridgeError::InvalidInstructionData);
            }
            let amount = read_u64_le(data, 1);
            let n = read_u32_le(data, 9);
            if (n as usize) != len - 13 {
                return Err(BridgeError::InvalidInstructionData);
            }
            let text = copy_range(data, 13, len);
            match string_from_utf8(text) {
                Some(inc_address) => Ok(BridgeInstruction::Shield { amount, inc_address }),
                None => Err(BridgeError::InvalidInstructionData),
            }
        } else if tag == 1 {
            if len != 41 {
                return Err(BridgeError::InvalidInstructionData);
            }
            let amount = read_u64_le(data, 1);
            let destination = Identity::from_slice(data, 9);
            Ok(BridgeInstruction::UnShield { unshield_info: UnshieldRequest { amount, destination } })
        } else if tag == 2 {
            let body = copy_range(data, 1, len);
            match IncognitoProxy::unpack_unchecked(&body) {
                Ok(p) => {
                    if p.beacons.len() != (len - 1 - 38) / 32 || (len - 1 - 38) % 32 != 0 {
                        return Err(BridgeError::InvalidInstructionData);
                    }
                    Ok(BridgeInstruction::InitBeacon { init_beacon_info: p })
                },
                Err(_) => Err(BridgeError::InvalidInstructionData),
            }
        } else {
            Err(BridgeError::InvalidInstructionData)
        }
    }
}

} // verus!
