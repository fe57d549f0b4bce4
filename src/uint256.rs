use vstd::prelude::*;

verus! {

/// The value of a sequence of bytes read as a big-endian unsigned number.
pub open spec fn be_value(s: Seq<u8>) -> nat
    decreases s.len(),
{
    if s.len() == 0 {
        0
    } else {
        be_value(s.drop_last()) * 256 + s.last() as nat
    }
}

/// Two to the power 256: the first value that no `U256` holds.
pub open spec fn u256_bound() -> nat {
    pow2(256)
}

pub open spec fn pow2(n: nat) -> nat
    decreases n,
{
    if n == 0 {
        1
    } else {
        2 * pow2((n - 1) as nat)
    }
}

/// The decimal digit that stands for `d`, for `d < 10`.
pub open spec fn digit_char(d: nat) -> char {
    if d == 0 { '0' }
    else if d == 1 { '1' }
    else if d == 2 { '2' }
    else if d == 3 { '3' }
    else if d == 4 { '4' }
    else if d == 5 { '5' }
    else if d == 6 { '6' }
    else if d == 7 { '7' }
    else if d == 8 { '8' }
    else { '9' }
}

/// The decimal notation of `n`, without leading zeros ("0" for zero).
pub open spec fn decimal(n: nat) -> Seq<char>
    decreases n,
{
    if n < 10 {
        seq![digit_char(n)]
    } else {
        decimal(n / 10).push(digit_char(n % 10))
    }
}

/// An unsigned 256-bit integer, held as its 32 big-endian bytes.
#[derive(Clone, Copy, PartialEq, Eq, Debug)]
pub struct U256 {
    pub be_bytes: [u8; 32],
}

impl U256 {
    /// The number that the bytes stand for.
    pub open spec fn value(&self) -> nat {
        be_value(self.be_bytes@)
    }

    /// The number `v`.
    pub fn from_u128(v: u128) -> (r: U256)
        ensures
            r.value() == v as nat,
    {
        U256 { be_bytes: u128_to_be_bytes(v) }
    }

    /// The number zero.
    pub fn zero() -> (r: U256)
        ensures
            r.value() == 0,
    {
        U256::from_u128(0)
    }

    /// `self + other`, or `None` where the sum does not fit in 256 bits.
    pub fn checked_add(&self, other: &U256) -> (r: Option<U256>)
        ensures
            self.value() + other.value() < u256_bound() ==> r.is_some() && r.unwrap().value()
                == self.value() + other.value(),
            self.value() + other.value() >= u256_bound() ==> r.is_none(),
    {
        match be_bytes_checked_add(&self.be_bytes, &other.be_bytes) {
            Some(b) => Some(U256 { be_bytes: b }),
            None => None,
        }
    }

    /// The decimal notation of the number.
    pub fn to_decimal(&self) -> (r: String)
        ensures
            r@ == decimal(self.value()),
    {
        be_bytes_decimal(&self.be_bytes)
    }
}

/// Relies on `cosmwasm_std::Uint256::from(u128)` and `Uint256::to_be_bytes`:
/// the 32 big-endian bytes of `v`.
#[verifier::external_body]
fn u128_to_be_bytes(v: u128) -> (r: [u8; 32])
    ensures
        be_value(r@) == v as nat,
{
    cosmwasm_std::Uint256::from(v).to_be_bytes()
}

/// Relies on `cosmwasm_std::Uint256::checked_add`: the sum where it is below
/// 2^256, an overflow error otherwise (converted through `from_be_bytes` and
/// `to_be_bytes`).
#[verifier::external_body]
fn be_bytes_checked_add(a: &[u8; 32], b: &[u8; 32]) -> (r: Option<[u8; 32]>)
    ensures
        be_value(a@) + be_value(b@) < u256_bound() ==> r.is_some() && be_value(r.unwrap()@)
            == be_value(a@) + be_value(b@),
        be_value(a@) + be_value(b@) >= u256_bound() ==> r.is_none(),
{
    let x = cosmwasm_std::Uint256::from_be_bytes(*a);
    let y = cosmwasm_std::Uint256::from_be_bytes(*b);
    x.checked_add(y).ok().map(|s| s.to_be_bytes())
}

/// Relies on the `Display` impl of `cosmwasm_std::Uint256` (bnum's
/// `to_str_radix(10)`): plain decimal digits, without sign, separators or
/// leading zeros.
#[verifier::external_body]
fn be_bytes_decimal(a: &[u8; 32]) -> (r: String)
    ensures
        r@ == decimal(be_value(a@)),
{
    cosmwasm_std::Uint256::from_be_bytes(*a).to_string()
}

} // verus!
