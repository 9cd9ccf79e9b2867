//! The registry record and the withdrawal request, with the registry's
//! byte layout in account data:
//! flag (1) | bump seed (1) | vault (32) | beacon count (u32 LE) | beacons (32 each).
use vstd::prelude::*;
use crate::error::BridgeError;
use crate::identity::Identity;

verus! {

/// Offset of the first beacon in registry data.
pub const BEACONS_OFFSET: usize = 38;

/// Configuration binding a vault to its authority seed and attester set.
#[derive(Debug, Clone)]
pub struct IncognitoProxy {
    pub is_initialized: bool,
    pub bump_seed: u8,
    pub vault: Identity,
    pub beacons: Vec<Identity>,
}

/// The registry as plain values.
pub struct RegistryModel {
    pub is_initialized: bool,
    pub bump_seed: u8,
    pub vault: Seq<u8>,
    pub beacons: Seq<Seq<u8>>,
}

impl View for IncognitoProxy {
    type V = RegistryModel;

    open spec fn view(&self) -> RegistryModel {
        RegistryModel {
            is_initialized: self.is_initialized,
            bump_seed: self.bump_seed,
            vault: self.vault@,
            beacons: self.beacons@.map_values(|b: Identity| b@),
        }
    }
}

/// Withdrawal request: the amount and the account it is meant for. The
/// handler pays the destination token account supplied with the instruction;
/// no attestation ties either field to a burn on the other chain.
#[derive(Debug, Clone, Copy)]
pub struct UnshieldRequest {
    pub amount: u64,
    pub destination: Identity,
}

/// Little-endian `u32` in the four bytes at `at`.
pub open spec fn le_u32(data: Seq<u8>, at: int) -> u32 {
    (data[at] as u32) | ((data[at + 1] as u32) << 8u32) | ((data[at + 2] as u32) << 16u32)
        | ((data[at + 3] as u32) << 24u32)
}

/// Where the bytes of `n` beacons end.
pub open spec fn registry_len(n: int) -> int {
    38 + 32 * n
}

/// Whether `data` starts with a well-formed registry.
pub open spec fn registry_decodable(data: Seq<u8>) -> bool {
    data.len() >= 38 && data[0] <= 1 && registry_len(le_u32(data, 34) as int) <= data.len()
}

/// Whether `data` starts with the bytes of registry `m`.
pub open spec fn holds_registry(data: Seq<u8>, m: RegistryModel) -> bool {
    &&& registry_len(m.beacons.len() as int) <= data.len()
    &&& data[0] == (if m.is_initialized { 1u8 } else { 0u8 })
    &&& data[1] == m.bump_seed
    &&& data.subrange(2, 34) == m.vault
    &&& le_u32(data, 34) == m.beacons.len()
    &&& forall|i: int|
        0 <= i < m.beacons.len() ==> #[trigger] m.beacons[i] == data.subrange(
            registry_len(i),
            registry_len(i) + 32,
        )
}

/// The registry layout is unambiguous: bytes that start with a registry are
/// decodable, and no two registries start the same bytes, so decoding what
/// was packed gives back the registry that was packed.
pub proof fn lemma_registry_layout_unique(data: Seq<u8>, m: RegistryModel, n: RegistryModel)
    requires
        holds_registry(data, m),
        holds_registry(data, n),
    ensures
        registry_decodable(data),
        m == n,
{
    assert(m.beacons =~= n.beacons) by {
        assert forall|i: int| 0 <= i < m.beacons.len() implies m.beacons[i] == n.beacons[i] by {
            assert(m.beacons[i] == data.subrange(registry_len(i), registry_len(i) + 32));
            assert(n.beacons[i] == data.subrange(registry_len(i), registry_len(i) + 32));
        }
    }
}

proof fn lemma_u32_bytes(n: u32)
    ensures
        ((n as u8) as u32) | ((((n >> 8u32) as u8) as u32) << 8u32) | ((((n >> 16u32) as u8) as u32)
            << 16u32) | ((((n >> 24u32) as u8) as u32) << 24u32) == n,
{
    assert(((n as u8) as u32) | ((((n >> 8u32) as u8) as u32) << 8u32) | ((((n >> 16u32) as u8)
        as u32) << 16u32) | ((((n >> 24u32) as u8) as u32) << 24u32) == n) by (bit_vector);
}

/// Reads the little-endian `u32` at `at`.
pub fn read_u32_le(data: &Vec<u8>, at: usize) -> (r: u32)
    requires
        at + 4 <= data@.len(),
    ensures
        r == le_u32(data@, at as int),
{
    let _len = data.len();
    (data[at] as u32) | ((data[at + 1] as u32) << 8u32) | ((data[at + 2] as u32) << 16u32)
        | ((data[at + 3] as u32) << 24u32)
}

/// Copies `data[start..end]` into a new vector.
pub fn copy_range(data: &Vec<u8>, start: usize, end: usize) -> (r: Vec<u8>)
    requires
        start <= end <= data@.len(),
    ensures
        r@ == data@.subrange(start as int, end as int),
{
    let mut r: Vec<u8> = Vec::new();
    let mut i: usize = start;
    while i < end
        invariant
            start <= i <= end,
            end <= data@.len(),
            r@ == data@.subrange(start as int, i as int),
        decreases end - i,
    {
        r.push(data[i]);
        i = i + 1;
        assert(r@ =~= data@.subrange(start as int, i as int));
    }
    r
}

impl IncognitoProxy {
    /// Decodes the registry at the start of `data`, initialized or not.
    pub fn unpack_unchecked(data: &Vec<u8>) -> (r: Result<IncognitoProxy, BridgeError>)
        ensures
            r is Ok <==> registry_decodable(data@),
            r is Err ==> r == Err::<IncognitoProxy, BridgeError>(BridgeError::InvalidAccountData),
            r matches Ok(p) ==> holds_registry(data@, p@),
    {
        let len = data.len();
        if len < BEACONS_OFFSET || data[0] > 1 {
            return Err(BridgeError::InvalidAccountData);
        }
        let count = read_u32_le(data, 34);
        if (count as usize) > (len - BEACONS_OFFSET) / 32 {
            return Err(BridgeError::InvalidAccountData);
        }
        let vault = Identity::from_slice(data, 2);
        let mut beacons: Vec<Identity> = Vec::new();
        let mut i: usize = 0;
        while i < count as usize
            invariant
                len == data@.len(),
                len >= 38,
                count as usize <= (len - 38) / 32,
                i <= count,
                beacons@.len() == i,
                forall|j: int|
                    0 <= j < i ==> #[trigger] beacons@[j]@ == data@.subrange(
                        registry_len(j),
                        registry_len(j) + 32,
                    ),
            decreases count - i,
        {
            let b = Identity::from_slice(data, BEACONS_OFFSET + 32 * i);
            beacons.push(b);
            i = i + 1;
        }
        let p = IncognitoProxy { is_initialized: data[0] == 1, bump_seed: data[1], vault, beacons };
        assert(p@.beacons.len() == count);
        Ok(p)
    }

    /// Decodes the registry at the start of `data`; an uninitialized one is refused.
    pub fn unpack(data: &Vec<u8>) -> (r: Result<IncognitoProxy, BridgeError>)
        ensures
            !registry_decodable(data@) ==> r == Err::<IncognitoProxy, BridgeError>(
                BridgeError::InvalidAccountData,
            ),
            registry_decodable(data@) && data@[0] == 0 ==> r == Err::<IncognitoProxy, BridgeError>(
                BridgeError::UninitializedAccount,
            ),
            registry_decodable(data@) && data@[0] == 1 ==> r is Ok,
            r matches Ok(p) ==> holds_registry(data@, p@) && p.is_initialized,
    {
        let p = IncognitoProxy::unpack_unchecked(data)?;
        if p.is_initialized {
            Ok(p)
        } else {
            Err(BridgeError::UninitializedAccount)
        }
    }

    /// Writes the registry at the start of `data`, keeping the bytes after it.
    pub fn pack(&self, data: &mut Vec<u8>) -> (r: Result<(), BridgeError>)
        ensures
            r is Ok <==> registry_len(self.beacons@.len() as int) <= old(data)@.len()
                && self.beacons@.len() <= u32::MAX,
            r is Err ==> r == Err::<(), BridgeError>(BridgeError::InvalidAccountData)
                && final(data)@ == old(data)@,
            r is Ok ==> final(data)@.len() == old(data)@.len() && holds_registry(final(data)@, self@)
                && final(data)@.subrange(
                registry_len(self.beacons@.len() as int),
                final(data)@.len() as int,
            ) == old(data)@.subrange(
                registry_len(self.beacons@.len() as int),
                old(data)@.len() as int,
            ),
    {
        let len = data.len();
        let n = self.beacons.len();
        if len < BEACONS_OFFSET || n > (len - BEACONS_OFFSET) / 32 || n > 0xffff_ffff {
            return Err(BridgeError::InvalidAccountData);
        }
        let ghost start = data@;
        data[0] = if self.is_initialized { 1u8 } else { 0u8 };
        data[1] = self.bump_seed;
        let mut k: usize = 0;
        while k < 32
            invariant
                k <= 32,
                data@.len() == len,
                len >= 38,
                self.vault@.len() == 32,
                data@[0] == (if self.is_initialized { 1u8 } else { 0u8 }),
                data@[1] == self.bump_seed,
                forall|j: int| 2 <= j < 2 + k ==> data@[j] == self.vault@[j - 2],
                forall|j: int| 34 <= j < len ==> data@[j] == start[j],
            decreases 32 - k,
        {
            data[2 + k] = self.vault.bytes[k];
            k = k + 1;
        }
        let c = n as u32;
        data[34] = (#[verifier::truncate] (c as u8));
        data[35] = (#[verifier::truncate] ((c >> 8u32) as u8));
        data[36] = (#[verifier::truncate] ((c >> 16u32) as u8));
        data[37] = (#[verifier::truncate] ((c >> 24u32) as u8));
        proof {
            lemma_u32_bytes(c);
            assert(data@.subrange(2, 34) =~= self.vault@);
        }
        let mut i: usize = 0;
        while i < n
            invariant
                i <= n,
                n == self.beacons@.len(),
                n <= (len - 38) / 32,
                data@.len() == len,
                len >= 38,
                data@[0] == (if self.is_initialized { 1u8 } else { 0u8 }),
                data@[1] == self.bump_seed,
                data@.subrange(2, 34) == self.vault@,
                le_u32(data@, 34) == n,
                forall|j: int|
                    0 <= j < i ==> #[trigger] self.beacons@[j]@ == data@.subrange(
                        registry_len(j),
                        registry_len(j) + 32,
                    ),
                forall|j: int| registry_len(i as int) <= j < len ==> data@[j] == start[j],
            decreases n - i,
        {
            let b = self.beacons[i];
            let base = BEACONS_OFFSET + 32 * i;
            let ghost before = data@;
            let mut k: usize = 0;
            while k < 32
                invariant
                    k <= 32,
                    i < n,
                    n <= (len - 38) / 32,
                    base == registry_len(i as int),
                    data@.len() == len,
                    b@.len() == 32,
                    forall|j: int| 0 <= j < base ==> data@[j] == before[j],
                    forall|j: int| base <= j < base + k ==> data@[j] == b@[j - base],
                    forall|j: int| base + 32 <= j < len ==> data@[j] == before[j],
                decreases 32 - k,
            {
                data[base + k] = b.bytes[k];
                k = k + 1;
            }
            proof {
                assert(data@.subrange(base as int, base + 32) =~= b@);
                assert(data@.subrange(2, 34) =~= before.subrange(2, 34));
                assert forall|j: int| 0 <= j < i implies #[trigger] self.beacons@[j]@
                    == data@.subrange(registry_len(j), registry_len(j) + 32) by {
                    assert(data@.subrange(registry_len(j), registry_len(j) + 32)
                        =~= before.subrange(registry_len(j), registry_len(j) + 32));
                }
            }
            i = i + 1;
        }
        proof {
            let m = self@;
            assert forall|j: int| 0 <= j < m.beacons.len() implies #[trigger] m.beacons[j]
                == data@.subrange(registry_len(j), registry_len(j) + 32) by {
                assert(self.beacons@[j]@ == data@.subrange(registry_len(j), registry_len(j) + 32));
            }
            assert(data@.subrange(registry_len(n as int), len as int) =~= start.subrange(
                registry_len(n as int),
                len as int,
            ));
        }
        Ok(())
    }
}

} // verus!
