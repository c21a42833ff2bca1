//! JSON number literals, kept as written.
use vstd::prelude::*;
use crate::text::chars_of;

verus! {

/// `c` is an ASCII decimal digit.
pub open spec fn is_digit(c: char) -> bool {
    '0' <= c && c <= '9'
}

/// One step of the recogniser of the JSON number grammar
/// `-? (0 | [1-9][0-9]*) (. [0-9]+)? ([eE] [+-]? [0-9]+)?`.
/// States: 0 start, 1 after the sign, 2 after a leading zero, 3 in the integer
/// digits, 4 after the point, 5 in the fraction digits, 6 after the exponent
/// mark, 7 after the exponent sign, 8 in the exponent digits, 9 rejected.
pub open spec fn number_step(st: u8, c: char) -> u8 {
    if st == 0 && c == '-' {
        1
    } else if (st == 0 || st == 1) && c == '0' {
        2
    } else if (st == 0 || st == 1) && is_digit(c) {
        3
    } else if st == 3 && is_digit(c) {
        3
    } else if (st == 2 || st == 3) && c == '.' {
        4
    } else if (st == 4 || st == 5) && is_digit(c) {
        5
    } else if (st == 2 || st == 3 || st == 5) && (c == 'e' || c == 'E') {
        6
    } else if st == 6 && (c == '+' || c == '-') {
        7
    } else if (st == 6 || st == 7 || st == 8) && is_digit(c) {
        8
    } else {
        9
    }
}

/// The recogniser's state after reading `s`.
pub open spec fn number_state(s: Seq<char>) -> u8
    decreases s.len(),
{
    if s.len() == 0 {
        0
    } else {
        number_step(number_state(s.drop_last()), s.last())
    }
}

/// `s` is a JSON number literal.
pub open spec fn is_number(s: Seq<char>) -> bool {
    let st = number_state(s);
    st == 2 || st == 3 || st == 5 || st == 8
}

fn number_step_exec(st: u8, c: char) -> (r: u8)
    ensures
        r == number_step(st, c),
{
    let digit = '0' <= c && c <= '9';
    if st == 0 && c == '-' {
        1
    } else if (st == 0 || st == 1) && c == '0' {
        2
    } else if (st == 0 || st == 1) && digit {
        3
    } else if st == 3 && digit {
        3
    } else if (st == 2 || st == 3) && c == '.' {
        4
    } else if (st == 4 || st == 5) && digit {
        5
    } else if (st == 2 || st == 3 || st == 5) && (c == 'e' || c == 'E') {
        6
    } else if st == 6 && (c == '+' || c == '-') {
        7
    } else if (st == 6 || st == 7 || st == 8) && digit {
        8
    } else {
        9
    }
}

/// Whether `v[lo..hi]` is a JSON number literal.
pub fn is_number_at(v: &Vec<char>, lo: usize, hi: usize) -> (r: bool)
    requires
        lo <= hi <= v.len(),
    ensures
        r == is_number(v@.subrange(lo as int, hi as int)),
{
    let mut st: u8 = 0;
    let mut i: usize = lo;
    while i < hi
        invariant
            lo <= i <= hi <= v.len(),
            st == number_state(v@.subrange(lo as int, i as int)),
        decreases hi - i,
    {
        let ghost prev = v@.subrange(lo as int, i as int);
        st = number_step_exec(st, v[i]);
        assert(v@.subrange(lo as int, i + 1).drop_last() =~= prev);
        i += 1;
    }
    st == 2 || st == 3 || st == 5 || st == 8
}

/// The text serde_json writes for the number it reads from `s`, or `None`
/// where it reads no number from `s` (as for `1e400`, out of range).
pub uninterp spec fn number_canonical(s: Seq<char>) -> Option<Seq<char>>;

/// Relies on `serde_json::from_str` into a `serde_json::Number` and that
/// type's `Display`: the number's canonical text (integers in decimal, floats
/// in shortest round-trip form), which depends on the text alone.
#[verifier::external_body]
fn canonical_number_text(s: &str) -> (r: Option<String>)
    ensures
        match r {
            Some(t) => number_canonical(s@) == Some(t@),
            None => number_canonical(s@) is None,
        },
{
    serde_json::from_str::<serde_json::Number>(s).ok().map(|n| n.to_string())
}

/// The canonical text of the number that the JSON number literal `s` writes,
/// if serde_json reads one from it.
pub open spec fn number_value(s: Seq<char>) -> Option<Seq<char>> {
    if !is_number(s) {
        None
    } else {
        match number_canonical(s) {
            Some(t) => if is_number(t) {
                Some(t)
            } else {
                None
            },
            None => None,
        }
    }
}

/// `t` is the canonical text of some number.
pub open spec fn is_canonical_number(t: Seq<char>) -> bool {
    is_number(t) && exists|s: Seq<char>| number_canonical(s) == Some(t)
}

/// A number, held as the one text serde_json writes for it: `6.640` and
/// `6.64` are the same number, held as `6.64`; `1e3` is held as `1000.0`.
#[derive(Debug, PartialEq)]
pub struct Number {
    text: String,
}

impl View for Number {
    type V = Seq<char>;

    closed spec fn view(&self) -> Seq<char> {
        self.text@
    }
}

impl Clone for Number {
    fn clone(&self) -> (r: Number)
        ensures
            r@ == self@,
    {
        proof {
            use_type_invariant(self);
        }
        Number { text: self.text.clone() }
    }
}

impl Number {
    #[verifier::type_invariant]
    spec fn well_formed(self) -> bool {
        is_canonical_number(self.text@)
    }

    /// The number that the JSON number literal `s` writes, held as its
    /// canonical text; `None` where `s` is no JSON number literal or names no
    /// number serde_json reads.
    pub fn from_text(s: &str) -> (r: Option<Number>)
        ensures
            match r {
                Some(n) => number_value(s@) == Some(n@),
                None => number_value(s@) is None,
            },
    {
        let v = chars_of(s);
        assert(v@.subrange(0, v@.len() as int) =~= v@);
        if !is_number_at(&v, 0, v.len()) {
            return None;
        }
        let t = match canonical_number_text(s) {
            Some(t) => t,
            None => {
                return None;
            },
        };
        let w = chars_of(t.as_str());
        assert(w@.subrange(0, w@.len() as int) =~= w@);
        if !is_number_at(&w, 0, w.len()) {
            return None;
        }
        Some(Number { text: t })
    }

    /// The canonical text.
    pub fn as_str(&self) -> (r: &str)
        ensures
            r@ == self@,
            is_canonical_number(r@),
    {
        proof {
            use_type_invariant(self);
        }
        self.text.as_str()
    }

}

} // verus!
