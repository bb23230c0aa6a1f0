//! Plain-value model of the virtual machine's field elements and words.
//!
//! A field element is a `u64` below the field modulus; a word is four of
//! them. Decimal rendering is defined here because the transaction script
//! template is instantiated with decimal images of field elements.

use vstd::prelude::*;
use vstd::string::StringExecFns;

verus! {

/// Modulus of the field underlying the virtual machine: 2^64 - 2^32 + 1.
pub const FIELD_MODULUS: u64 = 0xffff_ffff_0000_0001;

/// A `u64` is a canonical field element when it is below the modulus.
pub open spec fn is_felt(v: u64) -> bool {
    v < FIELD_MODULUS
}

/// One word of the virtual machine: four field elements.
#[derive(Clone, Copy, PartialEq, Eq, Structural, Debug)]
pub struct WordValue {
    pub e0: u64,
    pub e1: u64,
    pub e2: u64,
    pub e3: u64,
}

impl WordValue {
    /// All four elements are canonical field elements.
    pub open spec fn wf(self) -> bool {
        is_felt(self.e0) && is_felt(self.e1) && is_felt(self.e2) && is_felt(self.e3)
    }

    pub open spec fn zero_spec() -> WordValue {
        WordValue { e0: 0, e1: 0, e2: 0, e3: 0 }
    }

    pub fn zero() -> (r: WordValue)
        ensures
            r == Self::zero_spec(),
    {
        WordValue { e0: 0, e1: 0, e2: 0, e3: 0 }
    }
}

/// The character for one decimal digit.
pub open spec fn digit_char(d: int) -> char {
    if d == 0 {
        '0'
    } else if d == 1 {
        '1'
    } else if d == 2 {
        '2'
    } else if d == 3 {
        '3'
    } else if d == 4 {
        '4'
    } else if d == 5 {
        '5'
    } else if d == 6 {
        '6'
    } else if d == 7 {
        '7'
    } else if d == 8 {
        '8'
    } else {
        '9'
    }
}

/// The decimal image of a natural number, most significant digit first,
/// without leading zeros (zero itself is "0").
pub open spec fn decimal_digits(n: nat) -> Seq<char>
    decreases n,
{
    if n < 10 {
        seq![digit_char(n as int)]
    } else {
        decimal_digits(n / 10) + seq![digit_char((n % 10) as int)]
    }
}

pub open spec fn is_decimal_char(c: char) -> bool {
    c == '0' || c == '1' || c == '2' || c == '3' || c == '4' || c == '5' || c == '6' || c == '7'
        || c == '8' || c == '9'
}

/// Every character of a decimal image is a decimal digit.
pub proof fn lemma_decimal_digits_are_digits(n: nat)
    ensures
        forall|i: int|
            0 <= i < decimal_digits(n).len() ==> is_decimal_char(#[trigger] decimal_digits(n)[i]),
    decreases n,
{
    assert(forall|d: int| is_decimal_char(#[trigger] digit_char(d)));
    if n < 10 {
        assert(decimal_digits(n) =~= seq![digit_char(n as int)]);
    } else {
        lemma_decimal_digits_are_digits(n / 10);
        let prefix = decimal_digits(n / 10);
        let whole = decimal_digits(n);
        assert(whole == prefix + seq![digit_char((n % 10) as int)]);
        assert forall|i: int| 0 <= i < whole.len() implies is_decimal_char(#[trigger] whole[i]) by {
            if i < prefix.len() {
                assert(whole[i] == prefix[i]);
            } else {
                assert(whole[i] == digit_char((n % 10) as int));
            }
        }
    }
}

/// Appends the character of one decimal digit to a string.
fn append_digit(s: &mut String, d: u64)
    requires
        d < 10,
    ensures
        final(s)@ == old(s)@ + seq![digit_char(d as int)],
{
    proof {
        reveal_strlit("0");
        reveal_strlit("1");
        reveal_strlit("2");
        reveal_strlit("3");
        reveal_strlit("4");
        reveal_strlit("5");
        reveal_strlit("6");
        reveal_strlit("7");
        reveal_strlit("8");
        reveal_strlit("9");
    }
    if d == 0 {
        s.append("0");
    } else if d == 1 {
        s.append("1");
    } else if d == 2 {
        s.append("2");
    } else if d == 3 {
        s.append("3");
    } else if d == 4 {
        s.append("4");
    } else if d == 5 {
        s.append("5");
    } else if d == 6 {
        s.append("6");
    } else if d == 7 {
        s.append("7");
    } else if d == 8 {
        s.append("8");
    } else {
        s.append("9");
    }
    proof {
        assert(s@ =~= old(s)@ + seq![digit_char(d as int)]);
    }
}

/// Renders a `u64` in decimal, exactly as the field element printer does for
/// canonical values.
pub fn u64_to_decimal(n: u64) -> (s: String)
    ensures
        s@ == decimal_digits(n as nat),
    decreases n,
{
    if n < 10 {
        let mut s = String::new();
        append_digit(&mut s, n);
        proof {
            assert(s@ =~= decimal_digits(n as nat));
        }
        s
    } else {
        let mut s = u64_to_decimal(n / 10);
        append_digit(&mut s, n % 10);
        proof {
            assert(s@ =~= decimal_digits(n as nat));
        }
        s
    }
}

} // verus!
