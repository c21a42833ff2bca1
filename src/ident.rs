//! Correlation identifiers: 128-bit UUIDs, their canonical text form, and the
//! text forms that are read back.
use vstd::prelude::*;

verus! {

/// A correlation identifier, held as its 128-bit value (big-endian reading of
/// the sixteen UUID bytes).
#[derive(Clone, Copy, Debug, PartialEq, Eq, Hash, Structural)]
pub struct Uuid {
    pub value: u128,
}

/// The lowercase hexadecimal digit for `d < 16`.
pub open spec fn hex_digit_char(d: nat) -> char {
    if d < 10 {
        ((d + 48) as u8) as char
    } else {
        ((d + 87) as u8) as char
    }
}

/// The value of a hexadecimal digit of either case, if `c` is one.
pub open spec fn hex_digit_value(c: char) -> Option<nat> {
    if '0' <= c && c <= '9' {
        Some((c as u32 - 48) as nat)
    } else if 'a' <= c && c <= 'f' {
        Some((c as u32 - 87) as nat)
    } else if 'A' <= c && c <= 'F' {
        Some((c as u32 - 55) as nat)
    } else {
        None
    }
}

/// The last `k` hexadecimal digits of `n`, most significant first.
pub open spec fn hex_of(n: nat, k: nat) -> Seq<char>
    decreases k,
{
    if k == 0 {
        Seq::empty()
    } else {
        hex_of(n / 16, (k - 1) as nat).push(hex_digit_char(n % 16))
    }
}

/// The number written by the hexadecimal digits `s`, if all of them are digits.
pub open spec fn hex_value(s: Seq<char>) -> Option<nat>
    decreases s.len(),
{
    if s.len() == 0 {
        Some(0)
    } else {
        match (hex_value(s.drop_last()), hex_digit_value(s.last())) {
            (Some(a), Some(d)) => Some(a * 16 + d),
            _ => None,
        }
    }
}

/// The canonical text of an identifier: 32 lowercase hexadecimal digits in
/// groups of 8, 4, 4, 4 and 12, joined by hyphens.
pub open spec fn uuid_text(v: u128) -> Seq<char> {
    let h = hex_of(v as nat, 32);
    h.subrange(0, 8) + seq!['-'] + h.subrange(8, 12) + seq!['-'] + h.subrange(12, 16) + seq!['-']
        + h.subrange(16, 20) + seq!['-'] + h.subrange(20, 32)
}

/// `s` has 36 characters with hyphens where the canonical text has them.
pub open spec fn hyphens_in_place(s: Seq<char>) -> bool {
    s.len() == 36 && s[8] == '-' && s[13] == '-' && s[18] == '-' && s[23] == '-'
}

/// The 32 digits of a hyphenated text, without its hyphens.
pub open spec fn without_hyphens(s: Seq<char>) -> Seq<char> {
    s.subrange(0, 8) + s.subrange(9, 13) + s.subrange(14, 18) + s.subrange(19, 23) + s.subrange(
        24,
        36,
    )
}

/// The value of a hyphenated text, if it is one.
pub open spec fn hyphenated_value(s: Seq<char>) -> Option<nat> {
    if hyphens_in_place(s) {
        hex_value(without_hyphens(s))
    } else {
        None
    }
}

/// `c` lowered if it is an ASCII capital letter.
pub open spec fn ascii_lower(c: char) -> char {
    if 'A' <= c && c <= 'Z' {
        ((c as u32 + 32) as u8) as char
    } else {
        c
    }
}

/// The texts an identifier is read from: 32 digits; the hyphenated form; the
/// hyphenated form in braces; or `urn:uuid:` (of any case) and the hyphenated
/// form. Digits may be of either case.
pub open spec fn uuid_value_of(s: Seq<char>) -> Option<nat> {
    if s.len() == 32 {
        hex_value(s)
    } else if s.len() == 36 {
        hyphenated_value(s)
    } else if s.len() == 38 && s[0] == '{' && s[37] == '}' {
        hyphenated_value(s.subrange(1, 37))
    } else if s.len() == 45 && (forall|i: int|
        0 <= i < 9 ==> #[trigger] ascii_lower(s[i]) == seq!['u', 'r', 'n', ':', 'u', 'u', 'i', 'd', ':'][i])
    {
        hyphenated_value(s.subrange(9, 45))
    } else {
        None
    }
}

/// Relies on `uuid::Uuid::from_u128` and the `Display` of its `hyphenated()`
/// form: the lowercase hyphenated text of the value.
#[verifier::external_body]
fn format_uuid(v: u128) -> (r: String)
    ensures
        r@ == uuid_text(v),
{
    uuid::Uuid::from_u128(v).hyphenated().to_string()
}

/// Relies on `uuid::Uuid::parse_str` and `uuid::Uuid::as_u128`: which texts it
/// accepts, and the value it reads from them.
#[verifier::external_body]
fn parse_uuid(s: &str) -> (r: Option<u128>)
    ensures
        match r {
            Some(v) => uuid_value_of(s@) == Some(v as nat),
            None => uuid_value_of(s@) is None,
        },
{
    uuid::Uuid::parse_str(s).ok().map(|u| u.as_u128())
}

/// Relies on `uuid::Uuid::new_v4`: random bits, with the version nibble set
/// to 4 and the variant bits set to `10`.
#[verifier::external_body]
fn random_v4() -> (r: u128)
    ensures
        r & 0xF000_C000_0000_0000_0000u128 == 0x4000_8000_0000_0000_0000u128,
{
    uuid::Uuid::new_v4().as_u128()
}

pub proof fn lemma_hex_digit_round_trip(d: nat)
    requires
        d < 16,
    ensures
        hex_digit_value(hex_digit_char(d)) == Some(d),
{
}

pub proof fn lemma_hex_round_trip(n: nat, k: nat)
    requires
        n < pow16(k),
    ensures
        hex_value(hex_of(n, k)) == Some(n),
        hex_of(n, k).len() == k,
    decreases k,
{
    if k > 0 {
        assert(n / 16 < pow16((k - 1) as nat)) by (nonlinear_arith)
            requires
                n < pow16(k),
                pow16(k) == 16 * pow16((k - 1) as nat),
        ;
        lemma_hex_round_trip(n / 16, (k - 1) as nat);
        lemma_hex_digit_round_trip(n % 16);
        let h = hex_of(n, k);
        assert(h.drop_last() =~= hex_of(n / 16, (k - 1) as nat));
        assert((n / 16) * 16 + n % 16 == n) by (nonlinear_arith);
    }
}

pub open spec fn pow16(k: nat) -> nat
    decreases k,
{
    if k == 0 {
        1
    } else {
        16 * pow16((k - 1) as nat)
    }
}

/// The canonical text of every identifier reads back as that identifier.
pub proof fn lemma_uuid_text_round_trip(v: u128)
    ensures
        uuid_value_of(uuid_text(v)) == Some(v as nat),
{
    reveal_with_fuel(pow16, 33);
    assert(pow16(32) == 0x1_0000_0000_0000_0000_0000_0000_0000_0000nat);
    lemma_hex_round_trip(v as nat, 32);
    let s = uuid_text(v);
    assert(without_hyphens(s) =~= hex_of(v as nat, 32));
}

impl Uuid {
    pub fn from_u128(value: u128) -> (r: Uuid)
        ensures
            r.value == value,
    {
        Uuid { value }
    }

    pub fn as_u128(&self) -> (r: u128)
        ensures
            r == self.value,
    {
        self.value
    }

    /// A fresh random identifier of version 4.
    pub fn new_v4() -> (r: Uuid)
        ensures
            r.value & 0xF000_C000_0000_0000_0000u128 == 0x4000_8000_0000_0000_0000u128,
    {
        Uuid { value: random_v4() }
    }

    /// The canonical lowercase hyphenated text.
    pub fn to_hyphenated(&self) -> (r: String)
        ensures
            r@ == uuid_text(self.value),
    {
        format_uuid(self.value)
    }

    /// Reads an identifier from any of the accepted text forms.
    pub fn parse_str(s: &str) -> (r: Option<Uuid>)
        ensures
            match r {
                Some(u) => uuid_value_of(s@) == Some(u.value as nat),
                None => uuid_value_of(s@) is None,
            },
    {
        match parse_uuid(s) {
            Some(v) => Some(Uuid { value: v }),
            None => None,
        }
    }
}

} // verus!
