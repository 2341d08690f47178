//! The persistent records of an escrow: its parties, asset, balance and status.

use vstd::prelude::*;
use vstd::slice::slice_to_vec;
use crate::address::{lemma_address_eq, program_address, try_find_program_address, Address};
use crate::bytes::{
    append_address, append_byte, append_i64, append_u64, holds_at, views, le64, le64_signed, lemma_le64,
    lemma_le64_signed, read_address, read_i64, read_id, read_u64,
};
use crate::error::{EscrowError, ProgramError};
use crate::layout::{
    append_optional_address, append_token_type, bool_byte, bool_tag, lemma_address_at,
    lemma_byte_at, lemma_holds_concat, lemma_optional_address_at, lemma_same_place,
    lemma_token_type_at, optional_address_bytes, read_bool, read_optional_address, read_state,
    read_token_type, state_byte, state_tag, token_type_bytes,
};
use crate::quorum::Roles;

verus! {

/// The most payments one release may make.
pub const MAX_PAYMENT_TARGETS: usize = 4;

/// The highest signature threshold of an escrow without a moderator; with a
/// moderator it is one more.
pub const MAX_REQUIRED_SIGNATURES: u8 = 2;

/// The seed prefix of an escrow account's derived address.
pub const ESCROW_SEED_PREFIX: [u8; 6] = [101, 115, 99, 114, 111, 119];

/// Where an escrow stands in its life. `Completed` is final.
#[derive(Clone, Copy, Debug, PartialEq, Eq, Structural)]
pub enum EscrowState {
    Uninitialized,
    Active,
    Completed,
}

/// One payment of a release: who receives, and how much.
#[derive(Clone, Copy, Debug, PartialEq, Eq)]
pub struct PaymentTarget {
    pub recipient: Address,
    pub amount: u64,
}

/// The asset an escrow holds: the native coin, or tokens of one mint.
#[derive(Clone, Copy, Debug, PartialEq, Eq)]
pub enum TokenType {
    Sol,
    Spl(Address),
}

/// The record of an escrow whose parties sign on chain, one `Sign` each.
#[derive(Clone, Copy, Debug, PartialEq, Eq)]
pub struct Escrow {
    pub state: EscrowState,
    pub buyer: Address,
    pub seller: Address,
    pub moderator: Option<Address>,
    pub token_type: TokenType,
    pub amount: u64,
    pub unlock_time: i64,
    pub required_signatures: u8,
    pub buyer_signed: bool,
    pub seller_signed: bool,
    pub moderator_signed: bool,
    pub is_initialized: bool,
    pub unique_id: [u8; 20],
    pub bump_seed: u8,
}

/// The terms shared by every escrow whose release is authorized by signed messages.
#[derive(Clone, Copy, Debug, PartialEq, Eq)]
pub struct EscrowAccount {
    pub is_initialized: bool,
    pub buyer: Address,
    pub seller: Address,
    pub moderator: Option<Address>,
    /// The party who paid the deposit.
    pub payer_address: Address,
    pub required_signatures: u8,
    pub unlock_time: i64,
    pub unique_id: [u8; 20],
    pub amount: u64,
    pub bump: u8,
}

/// An escrow of the native coin.
#[derive(Clone, Copy, Debug, PartialEq, Eq)]
pub struct SolEscrow {
    pub base: EscrowAccount,
}

/// An escrow of tokens of one mint.
#[derive(Clone, Copy, Debug, PartialEq, Eq)]
pub struct TokenEscrow {
    pub base: EscrowAccount,
    pub mint: Address,
}

/// `len` bytes that are all zero.
pub open spec fn zeros(len: nat) -> Seq<u8> {
    Seq::new(len, |i: int| 0u8)
}

/// The threshold is at least one and at most the number of parties:
/// two, or three where there is a moderator.
pub open spec fn threshold_valid(required_signatures: u8, moderator: Option<Address>) -> bool {
    1 <= required_signatures <= 2 + (if moderator is Some { 1int } else { 0int })
}

impl Escrow {
    /// The size of the account that holds the record.
    pub const LEN: usize = 256;

    /// The parties of this escrow.
    pub open spec fn spec_roles(self) -> Roles {
        Roles { buyer: self.buyer, seller: self.seller, moderator: self.moderator }
    }

    /// The parties of this escrow.
    pub fn roles(&self) -> (r: Roles)
        ensures
            r == self.spec_roles(),
    {
        Roles { buyer: self.buyer, seller: self.seller, moderator: self.moderator }
    }

    /// The parties whose signature is recorded: buyer, seller, moderator, in this order.
    pub open spec fn spec_signed_parties(self) -> Seq<Address> {
        let b = if self.buyer_signed { seq![self.buyer] } else { Seq::<Address>::empty() };
        let s = if self.seller_signed { seq![self.seller] } else { Seq::<Address>::empty() };
        let m = match self.moderator {
            Some(m) => if self.moderator_signed { seq![m] } else { Seq::<Address>::empty() },
            None => Seq::<Address>::empty(),
        };
        b + s + m
    }

    /// The parties whose signature is recorded.
    pub fn signed_parties(&self) -> (signed: Vec<Address>)
        ensures
            signed@ == self.spec_signed_parties(),
    {
        let mut signed: Vec<Address> = Vec::new();
        if self.buyer_signed {
            signed.push(self.buyer);
        }
        if self.seller_signed {
            signed.push(self.seller);
        }
        match self.moderator {
            Some(m) => {
                if self.moderator_signed {
                    signed.push(m);
                }
            },
            None => {},
        }
        assert(signed@ =~= self.spec_signed_parties());
        signed
    }
}

impl Escrow {
    /// The bytes of the record: its fields one after another, in the order of
    /// their declaration.
    pub open spec fn spec_pack(self) -> Seq<u8> {
        seq![state_byte(self.state)] + self.buyer@ + self.seller@ + optional_address_bytes(
            self.moderator,
        ) + token_type_bytes(self.token_type) + le64(self.amount) + le64_signed(self.unlock_time)
            + seq![self.required_signatures] + seq![bool_byte(self.buyer_signed)] + seq![
            bool_byte(self.seller_signed),
        ] + seq![bool_byte(self.moderator_signed)] + seq![bool_byte(self.is_initialized)]
            + self.unique_id@ + seq![self.bump_seed]
    }

    /// Where the asset stands in the bytes of the record.
    pub open spec fn token_type_offset(self) -> int {
        65 + (if self.moderator is Some { 33int } else { 1int })
    }

    /// Where the amount stands in the bytes of the record.
    pub open spec fn amount_offset(self) -> int {
        self.token_type_offset() + (if self.token_type is Spl { 33int } else { 1int })
    }

    /// The number of bytes of the record: between 109 and 173.
    pub open spec fn spec_packed_len(self) -> int {
        self.amount_offset() + 42
    }

    /// The record stands at the front of `data`, field by field.
    pub open spec fn laid_out(self, data: Seq<u8>) -> bool {
        let a = self.amount_offset();
        &&& holds_at(data, 0, seq![state_byte(self.state)])
        &&& holds_at(data, 1, self.buyer@)
        &&& holds_at(data, 33, self.seller@)
        &&& holds_at(data, 65, optional_address_bytes(self.moderator))
        &&& holds_at(data, self.token_type_offset(), token_type_bytes(self.token_type))
        &&& holds_at(data, a, le64(self.amount))
        &&& holds_at(data, a + 8, le64_signed(self.unlock_time))
        &&& holds_at(data, a + 16, seq![self.required_signatures])
        &&& holds_at(data, a + 17, seq![bool_byte(self.buyer_signed)])
        &&& holds_at(data, a + 18, seq![bool_byte(self.seller_signed)])
        &&& holds_at(data, a + 19, seq![bool_byte(self.moderator_signed)])
        &&& holds_at(data, a + 20, seq![bool_byte(self.is_initialized)])
        &&& holds_at(data, a + 21, self.unique_id@)
        &&& holds_at(data, a + 41, seq![self.bump_seed])
    }

    /// The bytes of the record stand at the front of `data` exactly when each
    /// field stands at its place.
    pub proof fn lemma_layout(self, data: Seq<u8>)
        ensures
            self.spec_pack().len() == self.spec_packed_len(),
            109 <= self.spec_packed_len() <= 173,
            holds_at(data, 0, self.spec_pack()) <==> self.laid_out(data),
    {
        let f0 = seq![state_byte(self.state)];
        let f3 = optional_address_bytes(self.moderator);
        let f4 = token_type_bytes(self.token_type);
        let front1 = f0 + self.buyer@;
        let front2 = front1 + self.seller@;
        let front3 = front2 + f3;
        let front4 = front3 + f4;
        let front5 = front4 + le64(self.amount);
        let front6 = front5 + le64_signed(self.unlock_time);
        let front7 = front6 + seq![self.required_signatures];
        let front8 = front7 + seq![bool_byte(self.buyer_signed)];
        let front9 = front8 + seq![bool_byte(self.seller_signed)];
        let front10 = front9 + seq![bool_byte(self.moderator_signed)];
        let front11 = front10 + seq![bool_byte(self.is_initialized)];
        let front12 = front11 + self.unique_id@;
        lemma_address_eq(self.buyer, self.seller);
        lemma_optional_address_at(data, 65, self.moderator);
        lemma_token_type_at(data, self.token_type_offset(), self.token_type);
        lemma_le64(self.amount, self.amount);
        lemma_le64_signed(self.unlock_time, self.unlock_time);
        assert(self.unique_id@.len() == 20);
        lemma_holds_concat(data, 0, f0, self.buyer@);
        lemma_holds_concat(data, 0, front1, self.seller@);
        lemma_holds_concat(data, 0, front2, f3);
        lemma_holds_concat(data, 0, front3, f4);
        lemma_holds_concat(data, 0, front4, le64(self.amount));
        lemma_holds_concat(data, 0, front5, le64_signed(self.unlock_time));
        lemma_holds_concat(data, 0, front6, seq![self.required_signatures]);
        lemma_holds_concat(data, 0, front7, seq![bool_byte(self.buyer_signed)]);
        lemma_holds_concat(data, 0, front8, seq![bool_byte(self.seller_signed)]);
        lemma_holds_concat(data, 0, front9, seq![bool_byte(self.moderator_signed)]);
        lemma_holds_concat(data, 0, front10, seq![bool_byte(self.is_initialized)]);
        lemma_holds_concat(data, 0, front11, self.unique_id@);
        lemma_holds_concat(data, 0, front12, seq![self.bump_seed]);
    }

    /// At the front of a byte string stands at most one record.
    pub proof fn lemma_unpack_unique(data: Seq<u8>, e1: Escrow, e2: Escrow)
        requires
            holds_at(data, 0, e1.spec_pack()),
            holds_at(data, 0, e2.spec_pack()),
        ensures
            e1 == e2,
    {
        e1.lemma_layout(data);
        e2.lemma_layout(data);
        lemma_byte_at(data, 0, state_byte(e1.state));
        lemma_byte_at(data, 0, state_byte(e2.state));
        lemma_address_at(data, 1, e1.buyer, e2.buyer);
        lemma_address_at(data, 33, e1.seller, e2.seller);
        lemma_optional_address_at(data, 65, e1.moderator);
        lemma_optional_address_at(data, 65, e2.moderator);
        if let Some(m1) = e1.moderator {
            if let Some(m2) = e2.moderator {
                lemma_address_at(data, 66, m1, m2);
            }
        }
        let t = e1.token_type_offset();
        lemma_token_type_at(data, t, e1.token_type);
        lemma_token_type_at(data, t, e2.token_type);
        if let TokenType::Spl(m1) = e1.token_type {
            if let TokenType::Spl(m2) = e2.token_type {
                lemma_address_at(data, t + 1, m1, m2);
            }
        }
        let a = e1.amount_offset();
        lemma_le64(e1.amount, e2.amount);
        lemma_le64(e2.amount, e1.amount);
        lemma_le64_signed(e1.unlock_time, e2.unlock_time);
        lemma_le64_signed(e2.unlock_time, e1.unlock_time);
        lemma_byte_at(data, a + 16, e1.required_signatures);
        lemma_byte_at(data, a + 16, e2.required_signatures);
        lemma_byte_at(data, a + 17, bool_byte(e1.buyer_signed));
        lemma_byte_at(data, a + 17, bool_byte(e2.buyer_signed));
        lemma_byte_at(data, a + 18, bool_byte(e1.seller_signed));
        lemma_byte_at(data, a + 18, bool_byte(e2.seller_signed));
        lemma_byte_at(data, a + 19, bool_byte(e1.moderator_signed));
        lemma_byte_at(data, a + 19, bool_byte(e2.moderator_signed));
        lemma_byte_at(data, a + 20, bool_byte(e1.is_initialized));
        lemma_byte_at(data, a + 20, bool_byte(e2.is_initialized));
        lemma_same_place(data, a + 21, e1.unique_id@, e2.unique_id@);
        assert(e1.unique_id =~= e2.unique_id);
        lemma_byte_at(data, a + 41, e1.bump_seed);
        lemma_byte_at(data, a + 41, e2.bump_seed);
    }

    /// The bytes of the record.
    pub fn try_to_vec(&self) -> (data: Vec<u8>)
        ensures
            data@ == self.spec_pack(),
            data@.len() == self.spec_packed_len(),
    {
        proof {
            self.lemma_layout(Seq::<u8>::empty());
        }
        let mut out: Vec<u8> = Vec::new();
        out.push(state_tag(&self.state));
        assert(out@ =~= seq![state_byte(self.state)]);
        append_address(&mut out, &self.buyer);
        append_address(&mut out, &self.seller);
        append_optional_address(&mut out, &self.moderator);
        append_token_type(&mut out, &self.token_type);
        append_u64(&mut out, self.amount);
        append_i64(&mut out, self.unlock_time);
        append_byte(&mut out, self.required_signatures);
        append_byte(&mut out, bool_tag(self.buyer_signed));
        append_byte(&mut out, bool_tag(self.seller_signed));
        append_byte(&mut out, bool_tag(self.moderator_signed));
        append_byte(&mut out, bool_tag(self.is_initialized));
        out.extend_from_slice(self.unique_id.as_slice());
        append_byte(&mut out, self.bump_seed);
        out
    }

    /// Writes the bytes of the record to the front of `dst` and leaves the rest as it was.
    pub fn pack_into_slice(&self, dst: &mut [u8])
        requires
            old(dst)@.len() >= self.spec_packed_len(),
        ensures
            final(dst)@.len() == old(dst)@.len(),
            holds_at(final(dst)@, 0, self.spec_pack()),
            forall|i: int|
                self.spec_packed_len() <= i < old(dst)@.len() ==> final(dst)@[i] == old(dst)@[i],
    {
        let data = self.try_to_vec();
        let mut i: usize = 0;
        while i < data.len()
            invariant
                i <= data.len(),
                data@.len() <= dst@.len(),
                dst@.len() == old(dst)@.len(),
                forall|j: int| 0 <= j < i ==> dst@[j] == data@[j],
                forall|j: int| data@.len() <= j < dst@.len() ==> dst@[j] == old(dst)@[j],
            decreases data.len() - i,
        {
            dst[i] = data[i];
            i += 1;
        }
        assert(dst@.subrange(0, data@.len() as int) =~= data@);
    }

    /// Reads the record that stands at the front of `src`. What follows the
    /// record is not looked at. Fails if no record stands there.
    pub fn unpack_from_slice(src: &[u8]) -> (r: Result<Escrow, ProgramError>)
        ensures
            match r {
                Ok(e) => holds_at(src@, 0, e.spec_pack()),
                Err(err) => err == ProgramError::InvalidAccountData && forall|e: Escrow|
                    !holds_at(src@, 0, e.spec_pack()),
            },
    {
        proof {
            assert forall|e: Escrow|
                holds_at(src@, 0, #[trigger] e.spec_pack()) <==> e.laid_out(src@) by {
                e.lemma_layout(src@);
            }
        }
        let state = match read_state(src, 0) {
            Some(s) => s,
            None => {
                return Err(ProgramError::InvalidAccountData);
            },
        };
        if src.len() < 65 {
            assert forall|e: Escrow| !e.laid_out(src@) by {
                lemma_address_eq(e.seller, e.seller);
            }
            return Err(ProgramError::InvalidAccountData);
        }
        let buyer = read_address(src, 1);
        let seller = read_address(src, 33);
        let (moderator, at_token) = match read_optional_address(src, 65) {
            Some(read) => read,
            None => {
                return Err(ProgramError::InvalidAccountData);
            },
        };
        proof {
            lemma_optional_address_at(src@, 65, moderator);
            assert forall|e: Escrow| e.laid_out(src@) implies e.token_type_offset() == at_token by {
                lemma_optional_address_at(src@, 65, e.moderator);
            }
        }
        let (token_type, at_amount) = match read_token_type(src, at_token) {
            Some(read) => read,
            None => {
                return Err(ProgramError::InvalidAccountData);
            },
        };
        proof {
            lemma_token_type_at(src@, at_token as int, token_type);
            assert forall|e: Escrow| e.laid_out(src@) implies e.amount_offset() == at_amount by {
                lemma_token_type_at(src@, at_token as int, e.token_type);
            }
        }
        if src.len() - at_amount < 42 {
            assert forall|e: Escrow| !e.laid_out(src@) by {
                if e.laid_out(src@) {
                    lemma_byte_at(src@, e.amount_offset() + 41, e.bump_seed);
                }
            }
            return Err(ProgramError::InvalidAccountData);
        }
        let amount = read_u64(src, at_amount);
        let unlock_time = read_i64(src, at_amount + 8);
        let required_signatures: u8 = src[at_amount + 16];
        let buyer_signed = match read_bool(src, at_amount + 17) {
            Some(b) => b,
            None => {
                return Err(ProgramError::InvalidAccountData);
            },
        };
        let seller_signed = match read_bool(src, at_amount + 18) {
            Some(b) => b,
            None => {
                return Err(ProgramError::InvalidAccountData);
            },
        };
        let moderator_signed = match read_bool(src, at_amount + 19) {
            Some(b) => b,
            None => {
                return Err(ProgramError::InvalidAccountData);
            },
        };
        let is_initialized = match read_bool(src, at_amount + 20) {
            Some(b) => b,
            None => {
                return Err(ProgramError::InvalidAccountData);
            },
        };
        let unique_id = read_id(src, at_amount + 21);
        let bump_seed: u8 = src[at_amount + 41];
        let e = Escrow {
            state,
            buyer,
            seller,
            moderator,
            token_type,
            amount,
            unlock_time,
            required_signatures,
            buyer_signed,
            seller_signed,
            moderator_signed,
            is_initialized,
            unique_id,
            bump_seed,
        };
        proof {
            lemma_byte_at(src@, at_amount + 16, required_signatures);
            lemma_byte_at(src@, at_amount + 41, bump_seed);
            assert(e.laid_out(src@));
        }
        Ok(e)
    }
}

/// The seeds of an escrow account's address as a client derives it: the
/// prefix, the buyer, the seller, the moderator where there is one, and the identifier.
pub open spec fn address_seeds(
    buyer: Address,
    seller: Address,
    moderator: Option<Address>,
    unique_id: Seq<u8>,
) -> Seq<Seq<u8>> {
    match moderator {
        Some(m) => seq![ESCROW_SEED_PREFIX@, buyer@, seller@, m@, unique_id],
        None => seq![ESCROW_SEED_PREFIX@, buyer@, seller@, unique_id],
    }
}

impl Escrow {
    /// Derives the address of the escrow account of these parties and this
    /// identifier under the program `program_id`, with its bump seed; `None`
    /// where no bump seed yields an address.
    pub fn get_escrow_address(
        program_id: &Address,
        buyer: &Address,
        seller: &Address,
        moderator: Option<&Address>,
        unique_id: [u8; 20],
    ) -> (r: Option<(Address, u8)>)
        ensures
            match r {
                Some((address, bump)) => program_address(
                    address_seeds(
                        *buyer,
                        *seller,
                        match moderator {
                            Some(m) => Some(*m),
                            None => None,
                        },
                        unique_id@,
                    ),
                    program_id@,
                ) == Some((address@, bump)),
                None => program_address(
                    address_seeds(
                        *buyer,
                        *seller,
                        match moderator {
                            Some(m) => Some(*m),
                            None => None,
                        },
                        unique_id@,
                    ),
                    program_id@,
                ) is None,
            },
    {
        let mut seeds: Vec<Vec<u8>> = Vec::new();
        seeds.push(slice_to_vec(ESCROW_SEED_PREFIX.as_slice()));
        seeds.push(slice_to_vec(buyer.bytes.as_slice()));
        seeds.push(slice_to_vec(seller.bytes.as_slice()));
        match moderator {
            Some(m) => {
                seeds.push(slice_to_vec(m.bytes.as_slice()));
                seeds.push(slice_to_vec(unique_id.as_slice()));
                assert(views(seeds@) =~= address_seeds(*buyer, *seller, Some(*m), unique_id@));
            },
            None => {
                seeds.push(slice_to_vec(unique_id.as_slice()));
                assert(views(seeds@) =~= address_seeds(*buyer, *seller, None, unique_id@));
            },
        }
        try_find_program_address(&seeds, program_id)
    }
}

impl Default for Escrow {
    /// The record of an account that holds no escrow yet.
    fn default() -> (e: Escrow)
        ensures
            e.state == EscrowState::Uninitialized,
            e.buyer@ == zeros(32),
            e.seller@ == zeros(32),
            e.moderator is None,
            e.token_type == TokenType::Sol,
            e.amount == 0,
            e.unlock_time == 0,
            e.required_signatures == 0,
            !e.buyer_signed && !e.seller_signed && !e.moderator_signed,
            !e.is_initialized,
            e.unique_id@ == zeros(20),
            e.bump_seed == 0,
    {
        let e = Escrow {
            state: EscrowState::Uninitialized,
            buyer: Address { bytes: [0u8; 32] },
            seller: Address { bytes: [0u8; 32] },
            moderator: None,
            token_type: TokenType::Sol,
            amount: 0,
            unlock_time: 0,
            required_signatures: 0,
            buyer_signed: false,
            seller_signed: false,
            moderator_signed: false,
            is_initialized: false,
            unique_id: [0u8; 20],
            bump_seed: 0,
        };
        assert(e.buyer@ =~= zeros(32));
        assert(e.unique_id@ =~= zeros(20));
        e
    }
}

impl EscrowAccount {
    /// The terms of a freshly funded escrow.
    pub fn new(
        buyer: Address,
        seller: Address,
        moderator: Option<Address>,
        payer_address: Address,
        required_signatures: u8,
        unlock_time: i64,
        unique_id: [u8; 20],
        amount: u64,
        bump: u8,
    ) -> (account: EscrowAccount)
        ensures
            account == (EscrowAccount {
                is_initialized: true,
                buyer,
                seller,
                moderator,
                payer_address,
                required_signatures,
                unlock_time,
                unique_id,
                amount,
                bump,
            }),
    {
        EscrowAccount {
            is_initialized: true,
            buyer,
            seller,
            moderator,
            payer_address,
            required_signatures,
            unlock_time,
            unique_id,
            amount,
            bump,
        }
    }

    /// Accepts a threshold of at least one and at most the number of parties.
    pub fn validate_required_signatures(&self) -> (r: Result<(), EscrowError>)
        ensures
            r is Ok <==> threshold_valid(self.required_signatures, self.moderator),
            r is Err ==> r == Err::<(), EscrowError>(EscrowError::InvalidRequiredSignatures),
    {
        let max_possible: u8 = if self.moderator.is_some() {
            MAX_REQUIRED_SIGNATURES + 1
        } else {
            MAX_REQUIRED_SIGNATURES
        };
        if self.required_signatures == 0 {
            return Err(EscrowError::InvalidRequiredSignatures);
        }
        if self.required_signatures > max_possible {
            return Err(EscrowError::InvalidRequiredSignatures);
        }
        Ok(())
    }

    /// The parties of this escrow.
    pub open spec fn spec_roles(self) -> Roles {
        Roles { buyer: self.buyer, seller: self.seller, moderator: self.moderator }
    }

    /// The parties of this escrow.
    pub fn roles(&self) -> (r: Roles)
        ensures
            r == self.spec_roles(),
    {
        Roles { buyer: self.buyer, seller: self.seller, moderator: self.moderator }
    }
}

/// Whether these are the terms of an account that holds no escrow yet:
/// every field zero, empty or false.
pub open spec fn is_blank(account: EscrowAccount) -> bool {
    &&& !account.is_initialized
    &&& account.buyer@ == zeros(32)
    &&& account.seller@ == zeros(32)
    &&& account.moderator is None
    &&& account.payer_address@ == zeros(32)
    &&& account.required_signatures == 0
    &&& account.unlock_time == 0
    &&& account.unique_id@ == zeros(20)
    &&& account.amount == 0
    &&& account.bump == 0
}

/// The terms of an account that holds no escrow yet.
pub fn blank_escrow_account() -> (account: EscrowAccount)
    ensures
        is_blank(account),
{
    let account = EscrowAccount {
        is_initialized: false,
        buyer: Address { bytes: [0u8; 32] },
        seller: Address { bytes: [0u8; 32] },
        moderator: None,
        payer_address: Address { bytes: [0u8; 32] },
        required_signatures: 0,
        unlock_time: 0,
        unique_id: [0u8; 20],
        amount: 0,
        bump: 0,
    };
    assert(account.buyer@ =~= zeros(32));
    assert(account.unique_id@ =~= zeros(20));
    account
}

impl Default for SolEscrow {
    fn default() -> (e: SolEscrow)
        ensures
            is_blank(e.base),
    {
        SolEscrow { base: blank_escrow_account() }
    }
}

impl Default for TokenEscrow {
    fn default() -> (e: TokenEscrow)
        ensures
            is_blank(e.base),
            e.mint@ == zeros(32),
    {
        let e = TokenEscrow { base: blank_escrow_account(), mint: Address { bytes: [0u8; 32] } };
        assert(e.mint@ =~= zeros(32));
        e
    }
}

impl SolEscrow {
    /// The shared terms of this escrow.
    pub fn as_ref(&self) -> (base: &EscrowAccount)
        ensures
            *base == self.base,
    {
        &self.base
    }
}

impl TokenEscrow {
    /// The shared terms of this escrow.
    pub fn as_ref(&self) -> (base: &EscrowAccount)
        ensures
            *base == self.base,
    {
        &self.base
    }
}

} // verus!
