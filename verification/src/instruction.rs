//! The instructions of the escrow program and their bytes: a tag byte, then
//! the fields of the instruction one after another.

use vstd::prelude::*;
use crate::address::{
    lemma_address_eq, Address, CLOCK_SYSVAR_ID, RENT_SYSVAR_ID, SYSTEM_PROGRAM_ID,
};
use crate::bytes::{
    append_address, append_byte, append_u32, append_u64, holds_at, le32, le64, lemma_le32,
    lemma_le64, read_address, read_id, read_u32, read_u64,
};
use crate::error::EscrowError;
use crate::layout::{
    append_optional_address, append_token_type, lemma_byte_at, lemma_holds_concat,
    lemma_optional_address_at, lemma_token_type_at, optional_address_bytes,
    read_optional_address, read_token_type, token_type_bytes,
};
use crate::state::{threshold_valid, PaymentTarget, TokenType, MAX_PAYMENT_TARGETS};

verus! {

/// An instruction of the escrow program.
#[derive(Clone, Debug, PartialEq, Eq)]
pub enum EscrowInstruction {
    /// Opens an escrow between the buyer, who pays for the account, and the seller.
    Initialize {
        moderator: Option<Address>,
        unique_id: [u8; 20],
        required_signatures: u8,
        unlock_hours: u64,
        token_type: TokenType,
    },
    /// Adds `amount` to the escrow's balance.
    Deposit { amount: u64 },
    /// Records the approval of the party that signs the transaction.
    Sign,
    /// Pays the escrow out and completes it.
    Release { payment_targets: Vec<PaymentTarget> },
}

/// An instruction with its list of payments as a sequence.
pub enum InstructionView {
    Initialize {
        moderator: Option<Address>,
        unique_id: [u8; 20],
        required_signatures: u8,
        unlock_hours: u64,
        token_type: TokenType,
    },
    Deposit { amount: u64 },
    Sign,
    Release { payment_targets: Seq<PaymentTarget> },
}

impl View for EscrowInstruction {
    type V = InstructionView;

    open spec fn view(&self) -> InstructionView {
        match *self {
            EscrowInstruction::Initialize {
                moderator,
                unique_id,
                required_signatures,
                unlock_hours,
                token_type,
            } => InstructionView::Initialize {
                moderator,
                unique_id,
                required_signatures,
                unlock_hours,
                token_type,
            },
            EscrowInstruction::Deposit { amount } => InstructionView::Deposit { amount },
            EscrowInstruction::Sign => InstructionView::Sign,
            EscrowInstruction::Release { payment_targets } => InstructionView::Release {
                payment_targets: payment_targets@,
            },
        }
    }
}

/// The bytes of one payment: 32 bytes of the recipient, 8 of the amount.
pub open spec fn target_bytes(target: PaymentTarget) -> Seq<u8> {
    target.recipient@ + le64(target.amount)
}

/// The bytes of the first `n` payments of a list.
pub open spec fn targets_bytes(targets: Seq<PaymentTarget>, n: int) -> Seq<u8>
    decreases n,
{
    if n <= 0 {
        Seq::<u8>::empty()
    } else {
        targets_bytes(targets, n - 1) + target_bytes(targets[n - 1])
    }
}

impl InstructionView {
    /// The tag byte of the instruction.
    pub open spec fn tag(self) -> u8 {
        match self {
            InstructionView::Initialize { .. } => 0,
            InstructionView::Deposit { .. } => 1,
            InstructionView::Sign => 2,
            InstructionView::Release { .. } => 3,
        }
    }

    /// Whether the instruction has bytes: a list of payments must be short
    /// enough for its length to be written in four bytes.
    pub open spec fn packable(self) -> bool {
        match self {
            InstructionView::Release { payment_targets } => payment_targets.len() <= u32::MAX,
            _ => true,
        }
    }

    /// The bytes of the instruction.
    pub open spec fn bytes(self) -> Seq<u8> {
        match self {
            InstructionView::Initialize {
                moderator,
                unique_id,
                required_signatures,
                unlock_hours,
                token_type,
            } => seq![0u8] + optional_address_bytes(moderator) + unique_id@
                + seq![required_signatures] + le64(unlock_hours) + token_type_bytes(token_type),
            InstructionView::Deposit { amount } => seq![1u8] + le64(amount),
            InstructionView::Sign => seq![2u8],
            InstructionView::Release { payment_targets } => seq![3u8] + le32(
                payment_targets.len() as u32,
            ) + targets_bytes(payment_targets, payment_targets.len() as int),
        }
    }

    /// The instruction's bytes are exactly `data`, said field by field.
    pub open spec fn fits(self, data: Seq<u8>) -> bool {
        match self {
            InstructionView::Initialize {
                moderator,
                unique_id,
                required_signatures,
                unlock_hours,
                token_type,
            } => {
                let at = 1 + (if moderator is Some { 33int } else { 1int });
                &&& holds_at(data, 0, seq![0u8])
                &&& holds_at(data, 1, optional_address_bytes(moderator))
                &&& holds_at(data, at, unique_id@)
                &&& holds_at(data, at + 20, seq![required_signatures])
                &&& holds_at(data, at + 21, le64(unlock_hours))
                &&& holds_at(data, at + 29, token_type_bytes(token_type))
                &&& data.len() == at + 29 + (if token_type is Spl { 33int } else { 1int })
            },
            InstructionView::Deposit { amount } => {
                &&& holds_at(data, 0, seq![1u8])
                &&& holds_at(data, 1, le64(amount))
                &&& data.len() == 9
            },
            InstructionView::Sign => {
                &&& holds_at(data, 0, seq![2u8])
                &&& data.len() == 1
            },
            InstructionView::Release { payment_targets } => {
                &&& holds_at(data, 0, seq![3u8])
                &&& holds_at(data, 1, le32(payment_targets.len() as u32))
                &&& holds_at(
                    data,
                    5,
                    targets_bytes(payment_targets, payment_targets.len() as int),
                )
                &&& data.len() == 5 + 40 * payment_targets.len()
            },
        }
    }

    /// `data` is the instruction's bytes exactly when each field stands at its
    /// place and nothing follows.
    pub proof fn lemma_fits(self, data: Seq<u8>)
        ensures
            (self.bytes() == data) <==> self.fits(data),
    {
        match self {
            InstructionView::Initialize {
                moderator,
                unique_id,
                required_signatures,
                unlock_hours,
                token_type,
            } => {
                let f1 = optional_address_bytes(moderator);
                let front1 = seq![0u8] + f1;
                let front2 = front1 + unique_id@;
                let front3 = front2 + seq![required_signatures];
                let front4 = front3 + le64(unlock_hours);
                let f5 = token_type_bytes(token_type);
                lemma_optional_address_at(data, 1, moderator);
                lemma_token_type_at(data, front4.len() as int, token_type);
                lemma_le64(unlock_hours, unlock_hours);
                assert(unique_id@.len() == 20);
                lemma_holds_concat(data, 0, seq![0u8], f1);
                lemma_holds_concat(data, 0, front1, unique_id@);
                lemma_holds_concat(data, 0, front2, seq![required_signatures]);
                lemma_holds_concat(data, 0, front3, le64(unlock_hours));
                lemma_holds_concat(data, 0, front4, f5);
                lemma_whole(data, front4 + f5);
            },
            InstructionView::Deposit { amount } => {
                lemma_le64(amount, amount);
                lemma_holds_concat(data, 0, seq![1u8], le64(amount));
                lemma_whole(data, seq![1u8] + le64(amount));
            },
            InstructionView::Sign => {
                lemma_whole(data, seq![2u8]);
            },
            InstructionView::Release { payment_targets } => {
                let n = payment_targets.len() as int;
                let front1 = seq![3u8] + le32(n as u32);
                lemma_le32(n as u32, n as u32);
                lemma_targets_len(payment_targets, n);
                lemma_holds_concat(data, 0, seq![3u8], le32(n as u32));
                lemma_holds_concat(data, 0, front1, targets_bytes(payment_targets, n));
                lemma_whole(data, front1 + targets_bytes(payment_targets, n));
            },
        }
    }
}

/// `data` is `bytes` exactly when `bytes` stands at its front and nothing follows.
pub proof fn lemma_whole(data: Seq<u8>, bytes: Seq<u8>)
    ensures
        (bytes == data) <==> (holds_at(data, 0, bytes) && data.len() == bytes.len()),
{
    if holds_at(data, 0, bytes) && data.len() == bytes.len() {
        assert(data.subrange(0, data.len() as int) =~= data);
    }
    if bytes == data {
        assert(data.subrange(0, data.len() as int) =~= data);
    }
}

/// `n` payments take `40 * n` bytes.
pub proof fn lemma_targets_len(targets: Seq<PaymentTarget>, n: int)
    requires
        0 <= n,
    ensures
        targets_bytes(targets, n).len() == 40 * n,
    decreases n,
{
    if n > 0 {
        lemma_targets_len(targets, n - 1);
        lemma_address_eq(targets[n - 1].recipient, targets[n - 1].recipient);
        lemma_le64(targets[n - 1].amount, targets[n - 1].amount);
    }
}

/// The bytes of a prefix depend only on that prefix.
pub proof fn lemma_targets_prefix(a: Seq<PaymentTarget>, b: Seq<PaymentTarget>, n: int)
    requires
        0 <= n <= a.len(),
        n <= b.len(),
        forall|i: int| 0 <= i < n ==> a[i] == b[i],
    ensures
        targets_bytes(a, n) == targets_bytes(b, n),
    decreases n,
{
    if n > 0 {
        lemma_targets_prefix(a, b, n - 1);
    }
}

/// Two lists of payments with the same bytes are the same list.
pub proof fn lemma_targets_unique(a: Seq<PaymentTarget>, b: Seq<PaymentTarget>, n: int)
    requires
        0 <= n <= a.len(),
        n <= b.len(),
        targets_bytes(a, n) == targets_bytes(b, n),
    ensures
        forall|i: int| 0 <= i < n ==> a[i] == b[i],
    decreases n,
{
    if n > 0 {
        let whole = targets_bytes(a, n);
        lemma_targets_len(a, n - 1);
        lemma_targets_len(b, n - 1);
        lemma_targets_len(a, n);
        let ta = a[n - 1];
        let tb = b[n - 1];
        lemma_holds_concat(whole, 0, targets_bytes(a, n - 1), target_bytes(ta));
        lemma_holds_concat(whole, 0, targets_bytes(b, n - 1), target_bytes(tb));
        assert(whole.subrange(0, whole.len() as int) =~= whole);
        assert(targets_bytes(a, n - 1) == targets_bytes(b, n - 1));
        lemma_targets_unique(a, b, n - 1);
        lemma_address_eq(ta.recipient, tb.recipient);
        lemma_le64(ta.amount, tb.amount);
        lemma_le64(tb.amount, ta.amount);
        let at = 40 * (n - 1);
        lemma_holds_concat(whole, at, ta.recipient@, le64(ta.amount));
        lemma_holds_concat(whole, at, tb.recipient@, le64(tb.amount));
    }
}

/// Two instructions with the same bytes are the same instruction.
pub proof fn lemma_bytes_unique(v1: InstructionView, v2: InstructionView)
    requires
        v1.packable(),
        v2.packable(),
        v1.bytes() == v2.bytes(),
    ensures
        v1 == v2,
{
    let data = v1.bytes();
    v1.lemma_fits(data);
    v2.lemma_fits(data);
    lemma_byte_at(data, 0, v1.tag());
    lemma_byte_at(data, 0, v2.tag());
    match v1 {
        InstructionView::Initialize {
            moderator: m1,
            unique_id: id1,
            required_signatures: r1,
            unlock_hours: h1,
            token_type: t1,
        } => {
            if let InstructionView::Initialize {
                moderator: m2,
                unique_id: id2,
                required_signatures: r2,
                unlock_hours: h2,
                token_type: t2,
            } = v2 {
                lemma_optional_address_at(data, 1, m1);
                lemma_optional_address_at(data, 1, m2);
                if let Some(a1) = m1 {
                    if let Some(a2) = m2 {
                        lemma_address_eq(a1, a2);
                    }
                }
                let at = 1 + (if m1 is Some { 33int } else { 1int });
                assert(id1 =~= id2);
                lemma_byte_at(data, at + 20, r1);
                lemma_byte_at(data, at + 20, r2);
                lemma_le64(h1, h2);
                lemma_le64(h2, h1);
                lemma_token_type_at(data, at + 29, t1);
                lemma_token_type_at(data, at + 29, t2);
                if let TokenType::Spl(a1) = t1 {
                    if let TokenType::Spl(a2) = t2 {
                        lemma_address_eq(a1, a2);
                    }
                }
            }
        },
        InstructionView::Deposit { amount: a1 } => {
            if let InstructionView::Deposit { amount: a2 } = v2 {
                lemma_le64(a1, a2);
                lemma_le64(a2, a1);
            }
        },
        InstructionView::Sign => {},
        InstructionView::Release { payment_targets: front1 } => {
            if let InstructionView::Release { payment_targets: front2 } = v2 {
                lemma_le32(front1.len() as u32, front2.len() as u32);
                lemma_le32(front2.len() as u32, front1.len() as u32);
                lemma_targets_len(front1, front1.len() as int);
                lemma_targets_len(front2, front2.len() as int);
                lemma_targets_unique(front1, front2, front1.len() as int);
                assert(front1 =~= front2);
            }
        },
    }
}

impl EscrowInstruction {
    /// The bytes of the instruction.
    pub fn try_to_vec(&self) -> (data: Vec<u8>)
        requires
            self@.packable(),
        ensures
            data@ == self@.bytes(),
    {
        let mut out: Vec<u8> = Vec::new();
        match self {
            EscrowInstruction::Initialize {
                moderator,
                unique_id,
                required_signatures,
                unlock_hours,
                token_type,
            } => {
                out.push(0);
                assert(out@ =~= seq![0u8]);
                append_optional_address(&mut out, moderator);
                out.extend_from_slice(unique_id.as_slice());
                append_byte(&mut out, *required_signatures);
                append_u64(&mut out, *unlock_hours);
                append_token_type(&mut out, token_type);
            },
            EscrowInstruction::Deposit { amount } => {
                out.push(1);
                assert(out@ =~= seq![1u8]);
                append_u64(&mut out, *amount);
            },
            EscrowInstruction::Sign => {
                out.push(2);
                assert(out@ =~= seq![2u8]);
            },
            EscrowInstruction::Release { payment_targets } => {
                out.push(3);
                assert(out@ =~= seq![3u8]);
                append_u32(&mut out, payment_targets.len() as u32);
                let ghost head = out@;
                let mut i: usize = 0;
                assert(out@ =~= head + targets_bytes(payment_targets@, 0));
                while i < payment_targets.len()
                    invariant
                        i <= payment_targets.len(),
                        out@ == head + targets_bytes(payment_targets@, i as int),
                    decreases payment_targets.len() - i,
                {
                    append_address(&mut out, &payment_targets[i].recipient);
                    append_u64(&mut out, payment_targets[i].amount);
                    assert(out@ =~= head + targets_bytes(payment_targets@, i + 1));
                    i += 1;
                }
            },
        }
        out
    }

    /// Reads the instruction whose bytes are exactly `data`. Fails with
    /// `InvalidInstruction` if `data` is the bytes of no instruction.
    pub fn try_from_slice(data: &[u8]) -> (r: Result<EscrowInstruction, EscrowError>)
        ensures
            match r {
                Ok(instruction) => instruction@.packable() && instruction@.bytes() == data@,
                Err(e) => e == EscrowError::InvalidInstruction && forall|v: InstructionView|
                    v.packable() ==> v.bytes() != data@,
            },
    {
        proof {
            assert forall|v: InstructionView| (#[trigger] v.bytes() == data@) <==> v.fits(data@) by {
                v.lemma_fits(data@);
            }
            assert forall|v: InstructionView| #[trigger] v.fits(data@) implies data@.len() > 0
                && data@[0] == v.tag() by {
                lemma_byte_at(data@, 0, v.tag());
            }
        }
        if data.len() == 0 {
            return Err(EscrowError::InvalidInstruction);
        }
        let tag: u8 = data[0];
        proof {
            lemma_byte_at(data@, 0, tag);
        }
        if tag == 0 {
            let (moderator, at) = match read_optional_address(data, 1) {
                Some(read) => read,
                None => {
                    return Err(EscrowError::InvalidInstruction);
                },
            };
            proof {
                lemma_optional_address_at(data@, 1, moderator);
                assert forall|v: InstructionView| v.fits(data@) implies (v matches InstructionView::Initialize {
                    moderator: m,
                    ..
                } && (m is Some <==> moderator is Some)) by {
                    if let InstructionView::Initialize { moderator: m, .. } = v {
                        lemma_optional_address_at(data@, 1, m);
                    }
                }
            }
            if data.len() - at < 29 {
                assert forall|v: InstructionView| !v.fits(data@) by {
                    if v.fits(data@) {
                        if let InstructionView::Initialize { unlock_hours, .. } = v {
                            lemma_le64(unlock_hours, unlock_hours);
                        }
                    }
                }
                return Err(EscrowError::InvalidInstruction);
            }
            let unique_id = read_id(data, at);
            let required_signatures: u8 = data[at + 20];
            let unlock_hours = read_u64(data, at + 21);
            let (token_type, end) = match read_token_type(data, at + 29) {
                Some(read) => read,
                None => {
                    return Err(EscrowError::InvalidInstruction);
                },
            };
            proof {
                lemma_token_type_at(data@, at + 29, token_type);
                assert forall|v: InstructionView| v.fits(data@) implies data@.len() == end by {
                    if let InstructionView::Initialize { token_type: t, .. } = v {
                        lemma_token_type_at(data@, at + 29, t);
                    }
                }
            }
            if end != data.len() {
                return Err(EscrowError::InvalidInstruction);
            }
            let instruction = EscrowInstruction::Initialize {
                moderator,
                unique_id,
                required_signatures,
                unlock_hours,
                token_type,
            };
            proof {
                lemma_byte_at(data@, at + 20, required_signatures);
                assert(instruction@.fits(data@));
            }
            Ok(instruction)
        } else if tag == 1 {
            if data.len() != 9 {
                return Err(EscrowError::InvalidInstruction);
            }
            let amount = read_u64(data, 1);
            let instruction = EscrowInstruction::Deposit { amount };
            assert(instruction@.fits(data@));
            Ok(instruction)
        } else if tag == 2 {
            if data.len() != 1 {
                return Err(EscrowError::InvalidInstruction);
            }
            let instruction = EscrowInstruction::Sign;
            assert(instruction@.fits(data@));
            Ok(instruction)
        } else if tag == 3 {
            if data.len() < 5 {
                assert forall|v: InstructionView| !v.fits(data@) by {
                    if let InstructionView::Release { payment_targets } = v {
                        lemma_le32(payment_targets.len() as u32, payment_targets.len() as u32);
                    }
                }
                return Err(EscrowError::InvalidInstruction);
            }
            let count: u32 = read_u32(data, 1);
            proof {
                assert forall|v: InstructionView| v.packable() && v.fits(data@) implies (v matches InstructionView::Release {
                    payment_targets,
                } && payment_targets.len() == count) by {
                    if let InstructionView::Release { payment_targets } = v {
                        lemma_le32(payment_targets.len() as u32, count);
                        lemma_le32(count, payment_targets.len() as u32);
                    }
                }
            }
            if (data.len() - 5) as u64 != 40 * (count as u64) {
                return Err(EscrowError::InvalidInstruction);
            }
            let mut payment_targets: Vec<PaymentTarget> = Vec::new();
            let mut i: usize = 0;
            assert(data@.subrange(5, 5) =~= targets_bytes(payment_targets@, 0));
            while i < count as usize
                invariant
                    i <= count,
                    data.len() == 5 + 40 * count,
                    payment_targets@.len() == i,
                    holds_at(data@, 5, targets_bytes(payment_targets@, i as int)),
                decreases count - i,
            {
                let at: usize = 5 + 40 * i;
                let recipient = read_address(data, at);
                let amount = read_u64(data, at + 32);
                let target = PaymentTarget { recipient, amount };
                let ghost before = payment_targets@;
                payment_targets.push(target);
                proof {
                    lemma_targets_prefix(before, payment_targets@, i as int);
                    lemma_targets_len(before, i as int);
                    lemma_address_eq(recipient, recipient);
                    lemma_holds_concat(data@, at as int, recipient@, le64(amount));
                    lemma_holds_concat(
                        data@,
                        5,
                        targets_bytes(before, i as int),
                        target_bytes(target),
                    );
                }
                i += 1;
            }
            let instruction = EscrowInstruction::Release { payment_targets };
            proof {
                lemma_byte_at(data@, 0, 3);
                assert(instruction@.fits(data@));
            }
            Ok(instruction)
        } else {
            Err(EscrowError::InvalidInstruction)
        }
    }
}

/// How a transaction refers to one account of an instruction.
#[derive(Clone, Copy, Debug, PartialEq, Eq)]
pub struct AccountMeta {
    pub pubkey: Address,
    /// The account must sign the transaction.
    pub is_signer: bool,
    /// The instruction may change the account.
    pub is_writable: bool,
}

/// An instruction as a client puts it into a transaction.
#[derive(Clone, Debug, PartialEq, Eq)]
pub struct Instruction {
    pub program_id: Address,
    pub accounts: Vec<AccountMeta>,
    pub data: Vec<u8>,
}

/// An account that the instruction may change.
pub open spec fn writable(pubkey: Address, is_signer: bool) -> AccountMeta {
    AccountMeta { pubkey, is_signer, is_writable: true }
}

/// An account that the instruction only reads.
pub open spec fn readonly(pubkey: Address, is_signer: bool) -> AccountMeta {
    AccountMeta { pubkey, is_signer, is_writable: false }
}

/// The address with the bytes `id`.
pub open spec fn address_of(id: Seq<u8>) -> Address {
    choose|a: Address| a@ == id
}

/// The accounts of `Initialize`: the buyer, who signs and pays; the escrow
/// account; the seller; the system program, the rent account and the clock;
/// and the moderator where there is one.
pub open spec fn initialize_accounts(
    buyer: Address,
    escrow_account: Address,
    seller: Address,
    moderator: Option<Address>,
) -> Seq<AccountMeta> {
    let fixed = seq![
        writable(buyer, true),
        writable(escrow_account, false),
        readonly(seller, false),
        readonly(address_of(SYSTEM_PROGRAM_ID@), false),
        readonly(address_of(RENT_SYSVAR_ID@), false),
        readonly(address_of(CLOCK_SYSVAR_ID@), false),
    ];
    match moderator {
        Some(m) => fixed.push(readonly(m, false)),
        None => fixed,
    }
}

/// The accounts of `Release`: the initiator, who signs; the escrow account;
/// the clock; and the recipient of each payment.
pub open spec fn release_accounts(
    initiator: Address,
    escrow_account: Address,
    payment_targets: Seq<PaymentTarget>,
) -> Seq<AccountMeta> {
    seq![
        readonly(initiator, true),
        writable(escrow_account, false),
        readonly(address_of(CLOCK_SYSVAR_ID@), false),
    ] + Seq::new(payment_targets.len(), |i: int| writable(payment_targets[i].recipient, false))
}

/// The address with the bytes `id`.
fn address(id: [u8; 32]) -> (a: Address)
    ensures
        a == address_of(id@),
{
    let a = Address::new(id);
    proof {
        lemma_address_eq(a, address_of(id@));
    }
    a
}

/// Builds the instruction that opens an escrow. The threshold must be one the
/// program accepts: at least one, and at most two, or three with a moderator.
pub fn initialize(
    program_id: &Address,
    buyer: &Address,
    escrow_account: &Address,
    seller: &Address,
    moderator: Option<&Address>,
    unlock_hours: u64,
    required_signatures: u8,
    token_type: TokenType,
    unique_id: [u8; 20],
) -> (instruction: Instruction)
    requires
        threshold_valid(
            required_signatures,
            match moderator {
                Some(m) => Some(*m),
                None => None,
            },
        ),
    ensures
        instruction.program_id == *program_id,
        instruction.accounts@ == initialize_accounts(
            *buyer,
            *escrow_account,
            *seller,
            match moderator {
                Some(m) => Some(*m),
                None => None,
            },
        ),
        instruction.data@ == (InstructionView::Initialize {
            moderator: match moderator {
                Some(m) => Some(*m),
                None => None,
            },
            unique_id,
            required_signatures,
            unlock_hours,
            token_type,
        }).bytes(),
{
    let mut accounts: Vec<AccountMeta> = Vec::new();
    accounts.push(AccountMeta { pubkey: *buyer, is_signer: true, is_writable: true });
    accounts.push(AccountMeta { pubkey: *escrow_account, is_signer: false, is_writable: true });
    accounts.push(AccountMeta { pubkey: *seller, is_signer: false, is_writable: false });
    accounts.push(
        AccountMeta { pubkey: address(SYSTEM_PROGRAM_ID), is_signer: false, is_writable: false },
    );
    accounts.push(
        AccountMeta { pubkey: address(RENT_SYSVAR_ID), is_signer: false, is_writable: false },
    );
    accounts.push(
        AccountMeta { pubkey: address(CLOCK_SYSVAR_ID), is_signer: false, is_writable: false },
    );
    let moderator_key: Option<Address> = match moderator {
        Some(m) => {
            accounts.push(AccountMeta { pubkey: *m, is_signer: false, is_writable: false });
            Some(*m)
        },
        None => None,
    };
    assert(accounts@ =~= initialize_accounts(*buyer, *escrow_account, *seller, moderator_key));
    let data = (EscrowInstruction::Initialize {
        moderator: moderator_key,
        unique_id,
        required_signatures,
        unlock_hours,
        token_type,
    }).try_to_vec();
    Instruction { program_id: *program_id, accounts, data }
}

/// Builds the instruction that releases an escrow to `payment_targets`.
#[verifier::loop_isolation(false)]
pub fn release(
    program_id: &Address,
    initiator: &Address,
    escrow_account: &Address,
    payment_targets: Vec<PaymentTarget>,
) -> (instruction: Instruction)
    requires
        payment_targets.len() <= MAX_PAYMENT_TARGETS,
    ensures
        instruction.program_id == *program_id,
        instruction.accounts@ == release_accounts(*initiator, *escrow_account, payment_targets@),
        instruction.data@ == (InstructionView::Release { payment_targets: payment_targets@ }).bytes(),
{
    let mut accounts: Vec<AccountMeta> = Vec::new();
    accounts.push(AccountMeta { pubkey: *initiator, is_signer: true, is_writable: false });
    accounts.push(AccountMeta { pubkey: *escrow_account, is_signer: false, is_writable: true });
    accounts.push(
        AccountMeta { pubkey: address(CLOCK_SYSVAR_ID), is_signer: false, is_writable: false },
    );
    let ghost head = accounts@;
    assert(head.len() == 3);
    let mut i: usize = 0;
    while i < payment_targets.len()
        invariant
            i <= payment_targets.len(),
            accounts@.len() == 3 + i,
            forall|j: int| 0 <= j < 3 ==> accounts@[j] == head[j],
            forall|k: int|
                3 <= k < 3 + i ==> accounts@[k] == writable(
                    payment_targets@[k - 3].recipient,
                    false,
                ),
        decreases payment_targets.len() - i,
    {
        accounts.push(
            AccountMeta { pubkey: payment_targets[i].recipient, is_signer: false, is_writable: true },
        );
        i += 1;
    }
    proof {
        let fixed = seq![
            readonly(*initiator, true),
            writable(*escrow_account, false),
            readonly(address_of(CLOCK_SYSVAR_ID@), false),
        ];
        let paid = Seq::new(
            payment_targets@.len(),
            |i: int| writable(payment_targets@[i].recipient, false),
        );
        assert(head =~= fixed);
        assert forall|k: int| 0 <= k < accounts@.len() implies accounts@[k] == (fixed + paid)[k] by {
            if k >= 3 {
                assert((fixed + paid)[k] == paid[k - 3]);
            } else {
                assert(accounts@[k] == head[k]);
            }
        }
        assert(accounts@ =~= fixed + paid);
    }
    let instruction = EscrowInstruction::Release { payment_targets };
    let data = instruction.try_to_vec();
    Instruction { program_id: *program_id, accounts, data }
}

/// Builds the instruction that deposits `amount` of the native coin into an
/// escrow: the depositor signs and pays.
pub fn deposit(program_id: &Address, depositor: &Address, escrow_account: &Address, amount: u64) -> (instruction:
    Instruction)
    ensures
        instruction.program_id == *program_id,
        instruction.accounts@ == seq![
            writable(*depositor, true),
            writable(*escrow_account, false),
            readonly(address_of(SYSTEM_PROGRAM_ID@), false),
        ],
        instruction.data@ == (InstructionView::Deposit { amount }).bytes(),
{
    let mut accounts: Vec<AccountMeta> = Vec::new();
    accounts.push(AccountMeta { pubkey: *depositor, is_signer: true, is_writable: true });
    accounts.push(AccountMeta { pubkey: *escrow_account, is_signer: false, is_writable: true });
    accounts.push(
        AccountMeta { pubkey: address(SYSTEM_PROGRAM_ID), is_signer: false, is_writable: false },
    );
    assert(accounts@ =~= seq![
        writable(*depositor, true),
        writable(*escrow_account, false),
        readonly(address_of(SYSTEM_PROGRAM_ID@), false),
    ]);
    let data = (EscrowInstruction::Deposit { amount }).try_to_vec();
    Instruction { program_id: *program_id, accounts, data }
}

/// Builds the instruction by which `signer` approves the release of an escrow.
pub fn sign(program_id: &Address, signer: &Address, escrow_account: &Address) -> (instruction:
    Instruction)
    ensures
        instruction.program_id == *program_id,
        instruction.accounts@ == seq![readonly(*signer, true), writable(*escrow_account, false)],
        instruction.data@ == InstructionView::Sign.bytes(),
{
    let mut accounts: Vec<AccountMeta> = Vec::new();
    accounts.push(AccountMeta { pubkey: *signer, is_signer: true, is_writable: false });
    accounts.push(AccountMeta { pubkey: *escrow_account, is_signer: false, is_writable: true });
    assert(accounts@ =~= seq![readonly(*signer, true), writable(*escrow_account, false)]);
    let data = EscrowInstruction::Sign.try_to_vec();
    Instruction { program_id: *program_id, accounts, data }
}

} // verus!
