//! How the fields of a record are laid out in bytes: a tag byte for each choice,
//! addresses as their 32 bytes, numbers little-endian.

use vstd::prelude::*;
use crate::address::{lemma_address_eq, Address};
use crate::bytes::{append_address, holds_at, read_address};
use crate::state::{EscrowState, TokenType};

verus! {

/// The byte of a flag: 1 if set, 0 if not.
pub open spec fn bool_byte(b: bool) -> u8 {
    if b { 1 } else { 0 }
}

/// The tag byte of a state.
pub open spec fn state_byte(s: EscrowState) -> u8 {
    match s {
        EscrowState::Uninitialized => 0,
        EscrowState::Active => 1,
        EscrowState::Completed => 2,
    }
}

/// An optional address: the tag 0, or the tag 1 and the 32 bytes.
pub open spec fn optional_address_bytes(o: Option<Address>) -> Seq<u8> {
    match o {
        None => seq![0u8],
        Some(a) => seq![1u8] + a@,
    }
}

/// An asset: the tag 0 for the native coin, or the tag 1 and the mint's 32 bytes.
pub open spec fn token_type_bytes(t: TokenType) -> Seq<u8> {
    match t {
        TokenType::Sol => seq![0u8],
        TokenType::Spl(mint) => seq![1u8] + mint@,
    }
}

/// `a + b` stands at `at` exactly when `a` stands at `at` and `b` right behind it.
pub proof fn lemma_holds_concat(data: Seq<u8>, at: int, a: Seq<u8>, b: Seq<u8>)
    ensures
        holds_at(data, at, a + b) <==> (holds_at(data, at, a) && holds_at(data, at + a.len(), b)),
{
    if holds_at(data, at, a + b) {
        let whole = data.subrange(at, at + (a + b).len());
        assert(data.subrange(at, at + a.len()) =~= whole.subrange(0, a.len() as int));
        assert(whole.subrange(0, a.len() as int) =~= a);
        assert(data.subrange(at + a.len(), at + a.len() + b.len()) =~= whole.subrange(
            a.len() as int,
            (a + b).len() as int,
        ));
        assert(whole.subrange(a.len() as int, (a + b).len() as int) =~= b);
    }
    if holds_at(data, at, a) && holds_at(data, at + a.len(), b) {
        assert(data.subrange(at, at + (a + b).len()) =~= data.subrange(at, at + a.len())
            + data.subrange(at + a.len(), at + a.len() + b.len()));
    }
}

/// One byte stands at `at` exactly when `data` has it there.
pub proof fn lemma_byte_at(data: Seq<u8>, at: int, x: u8)
    ensures
        holds_at(data, at, seq![x]) <==> (0 <= at < data.len() && data[at] == x),
{
    if 0 <= at < data.len() {
        if data[at] == x {
            assert(data.subrange(at, at + 1) =~= seq![x]);
        }
        if holds_at(data, at, seq![x]) {
            assert(data.subrange(at, at + 1)[0] == x);
        }
    }
}

/// At one place stands at most one byte string of a given length.
pub proof fn lemma_same_place(data: Seq<u8>, at: int, a: Seq<u8>, b: Seq<u8>)
    requires
        holds_at(data, at, a),
        holds_at(data, at, b),
        a.len() == b.len(),
    ensures
        a == b,
{
}

/// At one place stands at most one address.
pub proof fn lemma_address_at(data: Seq<u8>, at: int, a: Address, b: Address)
    requires
        holds_at(data, at, a@),
        holds_at(data, at, b@),
    ensures
        a == b,
{
    lemma_address_eq(a, b);
}

/// An optional address stands at `at` exactly when its tag does and, behind
/// the tag 1, the address.
pub proof fn lemma_optional_address_at(data: Seq<u8>, at: int, o: Option<Address>)
    ensures
        optional_address_bytes(o).len() == (if o is Some { 33int } else { 1int }),
        holds_at(data, at, optional_address_bytes(o)) <==> (match o {
            None => 0 <= at < data.len() && data[at] == 0,
            Some(a) => 0 <= at < data.len() && data[at] == 1 && holds_at(data, at + 1, a@),
        }),
{
    match o {
        None => {
            lemma_byte_at(data, at, 0);
        },
        Some(a) => {
            lemma_address_eq(a, a);
            lemma_holds_concat(data, at, seq![1u8], a@);
            lemma_byte_at(data, at, 1);
        },
    }
}

/// An asset stands at `at` exactly when its tag does and, behind the tag 1, the mint.
pub proof fn lemma_token_type_at(data: Seq<u8>, at: int, t: TokenType)
    ensures
        token_type_bytes(t).len() == (if t is Spl { 33int } else { 1int }),
        holds_at(data, at, token_type_bytes(t)) <==> (match t {
            TokenType::Sol => 0 <= at < data.len() && data[at] == 0,
            TokenType::Spl(mint) => 0 <= at < data.len() && data[at] == 1 && holds_at(
                data,
                at + 1,
                mint@,
            ),
        }),
{
    match t {
        TokenType::Sol => {
            lemma_byte_at(data, at, 0);
        },
        TokenType::Spl(mint) => {
            lemma_address_eq(mint, mint);
            lemma_holds_concat(data, at, seq![1u8], mint@);
            lemma_byte_at(data, at, 1);
        },
    }
}

/// Reads the flag whose byte stands at `at`; `None` if no flag's byte stands there.
pub fn read_bool(data: &[u8], at: usize) -> (r: Option<bool>)
    ensures
        match r {
            Some(b) => holds_at(data@, at as int, seq![bool_byte(b)]),
            None => forall|b: bool| !holds_at(data@, at as int, seq![bool_byte(b)]),
        },
{
    proof {
        assert forall|b: bool|
            holds_at(data@, at as int, seq![bool_byte(b)]) <==> (at < data@.len() && data@[at as int] == bool_byte(b)) by {
            lemma_byte_at(data@, at as int, bool_byte(b));
        }
    }
    if at >= data.len() {
        return None;
    }
    let byte: u8 = data[at];
    if byte == 0 {
        Some(false)
    } else if byte == 1 {
        Some(true)
    } else {
        None
    }
}

/// Reads the state whose tag stands at `at`; `None` if no state's tag stands there.
pub fn read_state(data: &[u8], at: usize) -> (r: Option<EscrowState>)
    ensures
        match r {
            Some(s) => holds_at(data@, at as int, seq![state_byte(s)]),
            None => forall|s: EscrowState| !holds_at(data@, at as int, seq![state_byte(s)]),
        },
{
    proof {
        assert forall|s: EscrowState|
            holds_at(data@, at as int, seq![state_byte(s)]) <==> (at < data@.len() && data@[at as int] == state_byte(s)) by {
            lemma_byte_at(data@, at as int, state_byte(s));
        }
    }
    if at >= data.len() {
        return None;
    }
    let byte: u8 = data[at];
    if byte == 0 {
        Some(EscrowState::Uninitialized)
    } else if byte == 1 {
        Some(EscrowState::Active)
    } else if byte == 2 {
        Some(EscrowState::Completed)
    } else {
        None
    }
}

/// Reads the optional address that stands at `at`, and where it ends;
/// `None` if no optional address stands there.
pub fn read_optional_address(data: &[u8], at: usize) -> (r: Option<(Option<Address>, usize)>)
    ensures
        match r {
            Some((o, end)) => holds_at(data@, at as int, optional_address_bytes(o)) && end == at
                + optional_address_bytes(o).len(),
            None => forall|o: Option<Address>| !holds_at(data@, at as int, optional_address_bytes(o)),
        },
{
    proof {
        assert forall|o: Option<Address>|
            optional_address_bytes(o).len() == (if o is Some { 33int } else { 1int }) && (holds_at(
                data@,
                at as int,
                #[trigger] optional_address_bytes(o),
            ) <==> (match o {
                None => at < data@.len() && data@[at as int] == 0,
                Some(a) => at < data@.len() && data@[at as int] == 1 && holds_at(
                    data@,
                    at + 1,
                    a@,
                ),
            })) by {
            lemma_optional_address_at(data@, at as int, o);
        }
    }
    if at >= data.len() {
        return None;
    }
    let tag: u8 = data[at];
    if tag == 0 {
        Some((None, at + 1))
    } else if tag == 1 {
        if data.len() - at < 33 {
            assert forall|o: Option<Address>| !holds_at(
                data@,
                at as int,
                optional_address_bytes(o),
            ) by {
                if let Some(a) = o {
                    lemma_address_eq(a, a);
                }
            }
            return None;
        }
        let a = read_address(data, at + 1);
        Some((Some(a), at + 33))
    } else {
        None
    }
}

/// Reads the asset that stands at `at`, and where it ends; `None` if no asset stands there.
pub fn read_token_type(data: &[u8], at: usize) -> (r: Option<(TokenType, usize)>)
    ensures
        match r {
            Some((t, end)) => holds_at(data@, at as int, token_type_bytes(t)) && end == at
                + token_type_bytes(t).len(),
            None => forall|t: TokenType| !holds_at(data@, at as int, token_type_bytes(t)),
        },
{
    proof {
        assert forall|t: TokenType|
            token_type_bytes(t).len() == (if t is Spl { 33int } else { 1int }) && (holds_at(
                data@,
                at as int,
                #[trigger] token_type_bytes(t),
            ) <==> (match t {
                TokenType::Sol => at < data@.len() && data@[at as int] == 0,
                TokenType::Spl(mint) => at < data@.len() && data@[at as int] == 1 && holds_at(
                    data@,
                    at + 1,
                    mint@,
                ),
            })) by {
            lemma_token_type_at(data@, at as int, t);
        }
    }
    if at >= data.len() {
        return None;
    }
    let tag: u8 = data[at];
    if tag == 0 {
        Some((TokenType::Sol, at + 1))
    } else if tag == 1 {
        if data.len() - at < 33 {
            assert forall|t: TokenType| !holds_at(data@, at as int, token_type_bytes(t)) by {
                if let TokenType::Spl(mint) = t {
                    lemma_address_eq(mint, mint);
                }
            }
            return None;
        }
        let mint = read_address(data, at + 1);
        Some((TokenType::Spl(mint), at + 33))
    } else {
        None
    }
}

/// Appends an optional address.
pub fn append_optional_address(out: &mut Vec<u8>, o: &Option<Address>)
    ensures
        final(out)@ == old(out)@ + optional_address_bytes(*o),
{
    match o {
        None => {
            out.push(0);
            assert(out@ =~= old(out)@ + optional_address_bytes(*o));
        },
        Some(a) => {
            out.push(1);
            append_address(out, a);
            assert(out@ =~= old(out)@ + optional_address_bytes(*o));
        },
    }
}

/// Appends an asset.
pub fn append_token_type(out: &mut Vec<u8>, t: &TokenType)
    ensures
        final(out)@ == old(out)@ + token_type_bytes(*t),
{
    match t {
        TokenType::Sol => {
            out.push(0);
            assert(out@ =~= old(out)@ + token_type_bytes(*t));
        },
        TokenType::Spl(mint) => {
            out.push(1);
            append_address(out, mint);
            assert(out@ =~= old(out)@ + token_type_bytes(*t));
        },
    }
}

/// The tag byte of a state.
pub fn state_tag(s: &EscrowState) -> (tag: u8)
    ensures
        tag == state_byte(*s),
{
    match s {
        EscrowState::Uninitialized => 0,
        EscrowState::Active => 1,
        EscrowState::Completed => 2,
    }
}

/// The byte of a flag.
pub fn bool_tag(b: bool) -> (tag: u8)
    ensures
        tag == bool_byte(b),
{
    if b { 1 } else { 0 }
}

} // verus!
