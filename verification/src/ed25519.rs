//! The signature packet: the data of the companion instruction that has the
//! platform verify Ed25519 signatures. A count byte, a padding byte, then one
//! 14-byte entry for each signature with two-byte little-endian offsets into
//! the same data.

use vstd::prelude::*;
use vstd::slice::slice_subrange;
use crate::address::Address;
use crate::bytes::{bytes_eq, le16, read_address, views};
use crate::error::EscrowError;
use crate::quorum::contains_address;

verus! {

/// Where the entries start in the packet.
pub const OFFSETS_START: usize = 2;

/// The size of one entry.
pub const OFFSETS_SIZE: usize = 14;

/// The size of a signature.
pub const SIGNATURE_SIZE: usize = 64;

/// The size of a public key.
pub const PUBLIC_KEY_SIZE: usize = 32;

/// Where one entry says its signature, public key and message stand.
#[derive(Clone, Copy, Debug, PartialEq, Eq, Structural)]
pub struct Ed25519SignatureOffsets {
    pub signature_offset: usize,
    pub public_key_offset: usize,
    pub message_offset: usize,
    pub message_size: usize,
}

/// The entry that stands at `offset` in `data`: the signature's offset in its
/// bytes 0 and 1, the public key's in 4 and 5, the message's in 8 and 9, and
/// the message's size in 10 and 11.
pub open spec fn offsets_at(data: Seq<u8>, offset: int) -> Ed25519SignatureOffsets {
    Ed25519SignatureOffsets {
        signature_offset: le16(data[offset], data[offset + 1]) as usize,
        public_key_offset: le16(data[offset + 4], data[offset + 5]) as usize,
        message_offset: le16(data[offset + 8], data[offset + 9]) as usize,
        message_size: le16(data[offset + 10], data[offset + 11]) as usize,
    }
}

/// The `i`-th entry of the packet.
pub open spec fn entry(data: Seq<u8>, i: int) -> Ed25519SignatureOffsets {
    offsets_at(data, 2 + 14 * i)
}

/// The packet has a count of at least one and room for that many entries.
pub open spec fn packet_well_formed(data: Seq<u8>) -> bool {
    &&& data.len() >= 2
    &&& data[0] > 0
    &&& 2 + 14 * data[0] <= data.len()
}

impl Ed25519SignatureOffsets {
    /// Whether the message lies within `data`.
    pub open spec fn message_in(self, data: Seq<u8>) -> bool {
        self.message_offset + self.message_size <= data.len()
    }

    /// Whether the signature lies within `data`.
    pub open spec fn signature_in(self, data: Seq<u8>) -> bool {
        self.signature_offset + 64 <= data.len()
    }

    /// Whether the public key lies within `data`.
    pub open spec fn public_key_in(self, data: Seq<u8>) -> bool {
        self.public_key_offset + 32 <= data.len()
    }

    /// The message that the entry points to.
    pub open spec fn message_of(self, data: Seq<u8>) -> Seq<u8> {
        data.subrange(self.message_offset as int, self.message_offset + self.message_size)
    }

    /// The signature that the entry points to.
    pub open spec fn signature_of(self, data: Seq<u8>) -> Seq<u8> {
        data.subrange(self.signature_offset as int, self.signature_offset + 64)
    }

    /// The public key that the entry points to.
    pub open spec fn public_key_of(self, data: Seq<u8>) -> Seq<u8> {
        data.subrange(self.public_key_offset as int, self.public_key_offset + 32)
    }

    /// Reads the entry that stands at `offset`.
    pub fn from_bytes(data: &[u8], offset: usize) -> (r: Ed25519SignatureOffsets)
        requires
            offset + 12 <= data.len(),
        ensures
            r == offsets_at(data@, offset as int),
            r.signature_offset < 65536,
            r.public_key_offset < 65536,
            r.message_offset < 65536,
            r.message_size < 65536,
    {
        let signature_offset: usize = data[offset] as usize + 256 * (data[offset + 1] as usize);
        let public_key_offset: usize = data[offset + 4] as usize + 256 * (data[offset + 5] as usize);
        let message_offset: usize = data[offset + 8] as usize + 256 * (data[offset + 9] as usize);
        let message_size: usize = data[offset + 10] as usize + 256 * (data[offset + 11] as usize);
        Ed25519SignatureOffsets { signature_offset, public_key_offset, message_offset, message_size }
    }

    /// The 64 bytes of the signature.
    pub fn get_signature<'a>(&self, data: &'a [u8]) -> (r: &'a [u8])
        requires
            self.signature_in(data@),
        ensures
            r@ == self.signature_of(data@),
    {
        let len: usize = data.len();
        assert(len == data@.len());
        slice_subrange(data, self.signature_offset, self.signature_offset + 64)
    }

    /// The 32 bytes of the public key.
    pub fn get_public_key<'a>(&self, data: &'a [u8]) -> (r: &'a [u8])
        requires
            self.public_key_in(data@),
        ensures
            r@ == self.public_key_of(data@),
    {
        let len: usize = data.len();
        assert(len == data@.len());
        slice_subrange(data, self.public_key_offset, self.public_key_offset + 32)
    }

    /// The bytes of the message.
    pub fn get_message<'a>(&self, data: &'a [u8]) -> (r: &'a [u8])
        requires
            self.message_in(data@),
        ensures
            r@ == self.message_of(data@),
    {
        let len: usize = data.len();
        assert(len == data@.len());
        slice_subrange(data, self.message_offset, self.message_offset + self.message_size)
    }
}

/// Reads the entries of a packet. Fails with `InvalidInstructionFormat` if the
/// packet is shorter than two bytes, counts no signature, or is cut short
/// before the last entry.
pub fn parse_ed25519_instruction_offsets(data: &[u8]) -> (r: Result<
    Vec<Ed25519SignatureOffsets>,
    EscrowError,
>)
    ensures
        match r {
            Ok(offsets) => {
                &&& packet_well_formed(data@)
                &&& offsets@.len() == data@[0]
                &&& forall|i: int| 0 <= i < offsets@.len() ==> offsets@[i] == entry(data@, i)
            },
            Err(e) => e == EscrowError::InvalidInstructionFormat && !packet_well_formed(data@),
        },
{
    if data.len() < 2 {
        return Err(EscrowError::InvalidInstructionFormat);
    }
    let num_signatures: usize = data[0] as usize;
    if num_signatures == 0 {
        return Err(EscrowError::InvalidInstructionFormat);
    }
    if data.len() - OFFSETS_START < num_signatures * OFFSETS_SIZE {
        return Err(EscrowError::InvalidInstructionFormat);
    }
    let mut offsets: Vec<Ed25519SignatureOffsets> = Vec::new();
    let mut i: usize = 0;
    while i < num_signatures
        invariant
            i <= num_signatures,
            num_signatures == data@[0],
            2 + 14 * num_signatures <= data.len(),
            offsets@.len() == i,
            forall|j: int| 0 <= j < i ==> offsets@[j] == entry(data@, j),
        decreases num_signatures - i,
    {
        let offset_i: usize = OFFSETS_START + i * OFFSETS_SIZE;
        offsets.push(Ed25519SignatureOffsets::from_bytes(data, offset_i));
        i += 1;
    }
    Ok(offsets)
}

/// What one entry adds to the signers found so far. An entry whose message
/// does not lie within the packet, or whose message is the expected one while
/// its signature or public key does not lie within the packet, spoils the
/// packet. An entry with another message adds nothing. An entry with the
/// expected message adds its public key if its signature is one of the
/// expected ones and the key has not been found before: each key is found once.
pub open spec fn step_signers(
    found: Option<Seq<Address>>,
    data: Seq<u8>,
    e: Ed25519SignatureOffsets,
    expected_signatures: Seq<Seq<u8>>,
    expected_message: Seq<u8>,
) -> Option<Seq<Address>> {
    match found {
        None => None,
        Some(signers) => if !e.message_in(data) {
            None
        } else if e.message_of(data) != expected_message {
            Some(signers)
        } else if !e.signature_in(data) || !e.public_key_in(data) {
            None
        } else if expected_signatures.contains(e.signature_of(data)) && !signers.contains(
            key_of(e.public_key_of(data)),
        ) {
            Some(signers.push(key_of(e.public_key_of(data))))
        } else {
            Some(signers)
        },
    }
}

/// The address whose bytes are `bytes`.
pub open spec fn key_of(bytes: Seq<u8>) -> Address {
    choose|a: Address| a@ == bytes
}

/// The signers that the first `n` entries of the packet prove, each once, in
/// the order of the entries that prove them first; `None` if one of these entries spoils the packet.
pub open spec fn signers_upto(
    data: Seq<u8>,
    expected_signatures: Seq<Seq<u8>>,
    expected_message: Seq<u8>,
    n: int,
) -> Option<Seq<Address>>
    decreases n,
{
    if n <= 0 {
        Some(Seq::<Address>::empty())
    } else {
        step_signers(
            signers_upto(data, expected_signatures, expected_message, n - 1),
            data,
            entry(data, n - 1),
            expected_signatures,
            expected_message,
        )
    }
}

/// The signers that a packet proves for `expected_message`, each once, or the error.
pub open spec fn proven_signers(
    data: Seq<u8>,
    expected_signatures: Seq<Seq<u8>>,
    expected_message: Seq<u8>,
) -> Result<Seq<Address>, EscrowError> {
    if !packet_well_formed(data) {
        Err(EscrowError::InvalidInstructionFormat)
    } else {
        match signers_upto(data, expected_signatures, expected_message, data[0] as int) {
            Some(signers) => Ok(signers),
            None => Err(EscrowError::InvalidInstructionFormat),
        }
    }
}

/// The signers that a packet proves are a set: no key stands twice among them.
pub proof fn lemma_signers_distinct(
    data: Seq<u8>,
    expected_signatures: Seq<Seq<u8>>,
    expected_message: Seq<u8>,
    n: int,
)
    ensures
        signers_upto(data, expected_signatures, expected_message, n) matches Some(signers)
            ==> signers.no_duplicates(),
    decreases n,
{
    if n > 0 {
        lemma_signers_distinct(data, expected_signatures, expected_message, n - 1);
    }
}

/// Once an entry has spoiled the packet, it stays spoiled.
pub proof fn lemma_spoiled_stays(
    data: Seq<u8>,
    expected_signatures: Seq<Seq<u8>>,
    expected_message: Seq<u8>,
    k: int,
    n: int,
)
    requires
        0 <= k <= n,
        signers_upto(data, expected_signatures, expected_message, k) is None,
    ensures
        signers_upto(data, expected_signatures, expected_message, n) is None,
    decreases n - k,
{
    if k < n {
        lemma_spoiled_stays(data, expected_signatures, expected_message, k, n - 1);
    }
}

/// Whether `signature` is one of `expected`.
fn is_expected(expected: &[Vec<u8>], signature: &[u8]) -> (r: bool)
    ensures
        r == views(expected@).contains(signature@),
{
    let mut i: usize = 0;
    while i < expected.len()
        invariant
            i <= expected.len(),
            forall|j: int| 0 <= j < i ==> views(expected@)[j] != signature@,
        decreases expected.len() - i,
    {
        if bytes_eq(signature, expected[i].as_slice()) {
            assert(views(expected@)[i as int] == signature@);
            return true;
        }
        i += 1;
    }
    false
}

/// Finds the signers that the packet `data` proves for `expected_message`: the
/// public keys of the entries whose message is `expected_message` and whose
/// signature is among `expected_signatures`, each key once, in the order of
/// the entries that prove them first.
pub fn verify_ed25519_signatures(
    data: &[u8],
    expected_signatures: &[Vec<u8>],
    expected_message: &[u8],
) -> (r: Result<Vec<Address>, EscrowError>)
    ensures
        match r {
            Ok(signers) => proven_signers(data@, views(expected_signatures@), expected_message@)
                == Ok::<Seq<Address>, EscrowError>(signers@) && signers@.no_duplicates(),
            Err(e) => proven_signers(data@, views(expected_signatures@), expected_message@)
                == Err::<Seq<Address>, EscrowError>(e),
        },
{
    let offsets = match parse_ed25519_instruction_offsets(data) {
        Ok(offsets) => offsets,
        Err(e) => {
            return Err(e);
        },
    };
    let ghost sigs = views(expected_signatures@);
    let mut valid_pubkeys: Vec<Address> = Vec::new();
    let mut i: usize = 0;
    while i < offsets.len()
        invariant
            i <= offsets.len(),
            packet_well_formed(data@),
            offsets@.len() == data@[0],
            forall|j: int| 0 <= j < offsets@.len() ==> offsets@[j] == entry(data@, j),
            sigs == views(expected_signatures@),
            signers_upto(data@, sigs, expected_message@, i as int) == Some(valid_pubkeys@),
            valid_pubkeys@.no_duplicates(),
        decreases offsets.len() - i,
    {
        let offset = offsets[i];
        assert(offset == entry(data@, i as int));
        if offset.message_offset > data.len() || offset.message_size > data.len()
            - offset.message_offset {
            proof {
                lemma_spoiled_stays(data@, sigs, expected_message@, i + 1, data@[0] as int);
            }
            return Err(EscrowError::InvalidInstructionFormat);
        }
        let msg_bytes = offset.get_message(data);
        if bytes_eq(msg_bytes, expected_message) {
            if offset.signature_offset > data.len() || data.len() - offset.signature_offset < 64
                || offset.public_key_offset > data.len() || data.len() - offset.public_key_offset
                < 32 {
                proof {
                    lemma_spoiled_stays(data@, sigs, expected_message@, i + 1, data@[0] as int);
                }
                return Err(EscrowError::InvalidInstructionFormat);
            }
            let sig_bytes = offset.get_signature(data);
            if is_expected(expected_signatures, sig_bytes) {
                let key = read_address(data, offset.public_key_offset);
                proof {
                    crate::address::lemma_address_eq(key, key_of(offset.public_key_of(data@)));
                    assert(key@ == offset.public_key_of(data@));
                    assert(key_of(offset.public_key_of(data@))@ == offset.public_key_of(data@));
                }
                if !contains_address(valid_pubkeys.as_slice(), &key) {
                    valid_pubkeys.push(key);
                }
            }
        }
        i += 1;
    }
    Ok(valid_pubkeys)
}

} // verus!
