use vstd::prelude::*;

verus! {

/// A 20-byte account address.
#[derive(Clone, Copy, Debug, PartialEq, Eq)]
pub struct Address {
    pub bytes: [u8; 20],
}

impl View for Address {
    type V = Seq<u8>;

    open spec fn view(&self) -> Seq<u8> {
        self.bytes@
    }
}

/// A 256-bit unsigned quantity, as four little-endian 64-bit limbs.
#[derive(Clone, Copy, Debug, PartialEq, Eq)]
pub struct Wei {
    pub limbs: [u64; 4],
}

pub open spec fn u128_bound() -> nat {
    0x1_0000_0000_0000_0000_0000_0000_0000_0000nat
}

pub open spec fn limb_base() -> nat {
    0x1_0000_0000_0000_0000nat
}

impl View for Wei {
    type V = nat;

    open spec fn view(&self) -> nat {
        self.limbs@[0] as nat + limb_base() * (self.limbs@[1] as nat + limb_base() * (
        self.limbs@[2] as nat + limb_base() * self.limbs@[3] as nat))
    }
}

/// The value of a hexadecimal digit, in either case.
pub open spec fn hex_digit(c: char) -> Option<nat> {
    if '0' <= c && c <= '9' {
        Some((c as u32 - '0' as u32) as nat)
    } else if 'a' <= c && c <= 'f' {
        Some((c as u32 - 'a' as u32 + 10) as nat)
    } else if 'A' <= c && c <= 'F' {
        Some((c as u32 - 'A' as u32 + 10) as nat)
    } else {
        None
    }
}

pub open spec fn is_hex(s: Seq<char>) -> bool {
    forall|i: int| 0 <= i < s.len() ==> (#[trigger] hex_digit(s[i])) is Some
}

pub open spec fn is_decimal(s: Seq<char>) -> bool {
    forall|i: int| 0 <= i < s.len() ==> '0' <= #[trigger] s[i] && s[i] <= '9'
}

/// The number that a string of hexadecimal digits denotes.
pub open spec fn hex_value(s: Seq<char>) -> nat
    decreases s.len(),
{
    if s.len() == 0 {
        0
    } else {
        hex_value(s.drop_last()) * 16 + hex_digit(s.last()).unwrap_or(0)
    }
}

/// The number that a string of decimal digits denotes.
pub open spec fn decimal_value(s: Seq<char>) -> nat
    decreases s.len(),
{
    if s.len() == 0 {
        0
    } else {
        decimal_value(s.drop_last()) * 10 + (s.last() as u32 - '0' as u32) as nat
    }
}

/// The bytes that an even-length string of hexadecimal digits encodes, two digits a byte.
pub open spec fn hex_bytes(s: Seq<char>) -> Seq<u8>
    decreases s.len(),
{
    if s.len() < 2 {
        Seq::empty()
    } else {
        seq![(hex_digit(s[0]).unwrap_or(0) * 16 + hex_digit(s[1]).unwrap_or(0)) as u8].add(
            hex_bytes(s.subrange(2, s.len() as int)),
        )
    }
}

/// What follows the first two characters.
pub open spec fn hex_tail(s: Seq<char>) -> Seq<char> {
    s.subrange(2, s.len() as int)
}

pub open spec fn has_hex_prefix(s: Seq<char>) -> bool {
    s.len() >= 2 && s[0] == '0' && s[1] == 'x'
}

/// `0x` followed by hexadecimal digits only.
pub open spec fn is_prefixed_hex(s: Seq<char>) -> bool {
    has_hex_prefix(s) && is_hex(hex_tail(s))
}

/// A non-empty string of decimal digits whose value fits in 128 bits.
pub open spec fn is_small_decimal(s: Seq<char>) -> bool {
    s.len() > 0 && is_decimal(s) && decimal_value(s) < u128_bound()
}

/// What the address parser makes of a string.
pub uninterp spec fn address_of(s: Seq<char>) -> Option<Seq<u8>>;

/// What the numeric-string parser makes of a string (decimal, or hexadecimal after `0x`).
pub uninterp spec fn quantity_of(s: Seq<char>) -> Option<nat>;

/// What the byte-string parser makes of a string of hexadecimal digits.
pub uninterp spec fn hex_data_of(s: Seq<char>) -> Option<Seq<u8>>;

/// Relies on `alloy_primitives::Address::from_str`: twenty bytes from forty hexadecimal
/// digits, with or without a `0x` prefix.
#[verifier::external_body]
pub(crate) fn parse_address(s: &str) -> (r: Option<Address>)
    ensures
        r is Some ==> address_of(s@) == Some(r->0@),
        r is None ==> address_of(s@) is None,
        is_prefixed_hex(s@) && s@.len() == 42 ==> r is Some && r->0@ == hex_bytes(hex_tail(s@)),
{
    match <alloy_primitives::Address as std::str::FromStr>::from_str(s) {
        Ok(a) => Some(Address { bytes: a.into_array() }),
        Err(_) => None,
    }
}

/// Relies on ethers' conversion of a stringified numeric into a `U256`: a decimal string
/// that fits in 128 bits is read as decimal, one with a `0x` prefix and at most 64 digits
/// as hexadecimal.
#[verifier::external_body]
pub(crate) fn parse_quantity(s: &str) -> (r: Option<Wei>)
    ensures
        r is Some ==> quantity_of(s@) == Some(r->0@),
        r is None ==> quantity_of(s@) is None,
        is_small_decimal(s@) ==> r is Some && r->0@ == decimal_value(s@),
        is_prefixed_hex(s@) && 2 < s@.len() <= 66 ==> r is Some && r->0@ == hex_value(hex_tail(s@)),
{
    let v = ethers_core::types::serde_helpers::StringifiedNumeric::String(s.to_string());
    match ethers_core::types::U256::try_from(v) {
        Ok(u) => Some(Wei { limbs: u.0 }),
        Err(_) => None,
    }
}

/// Relies on `ethers_core::types::Bytes::from_str`: hexadecimal digits, two a byte, with or
/// without a `0x` prefix.
#[verifier::external_body]
pub(crate) fn parse_hex_data(s: &str) -> (r: Option<Vec<u8>>)
    ensures
        r is Some ==> hex_data_of(s@) == Some(r->0@),
        r is None ==> hex_data_of(s@) is None,
        is_prefixed_hex(s@) && s@.len() % 2 == 0 ==> r is Some && r->0@ == hex_bytes(hex_tail(s@)),
{
    match <ethers_core::types::Bytes as std::str::FromStr>::from_str(s) {
        Ok(b) => Some(b.to_vec()),
        Err(_) => None,
    }
}

/// Whether two addresses hold the same bytes.
pub fn same_address(a: &Address, b: &Address) -> (r: bool)
    ensures
        r == (a@ == b@),
{
    let mut i: usize = 0;
    while i < 20
        invariant
            0 <= i <= 20,
            forall|j: int| 0 <= j < i ==> a.bytes@[j] == b.bytes@[j],
        decreases 20 - i,
    {
        if a.bytes[i] != b.bytes[i] {
            return false;
        }
        i = i + 1;
    }
    assert(a@ =~= b@);
    true
}

} // verus!
