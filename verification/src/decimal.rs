//! Decimal numbers in fixed point: prices, percentages and yields are held as
//! a whole count of millionths, so that every comparison and every sum in
//! the library is exact.

use vstd::prelude::*;
use vstd::string::*;
use crate::text::{decimal_digits, decimal_string, digit, digit_char, push_char};

verus! {

/// How many millionths make one.
pub const MICROS_PER_UNIT: i64 = 1_000_000;

/// A decimal number, held as a count of millionths.
#[derive(Clone, Copy, Debug, PartialEq, Eq, Structural)]
pub struct Decimal {
    pub micros: i64,
}

/// The `i64` nearest to `v`.
pub open spec fn clamp_i64(v: int) -> i64 {
    if v < i64::MIN {
        i64::MIN
    } else if v > i64::MAX {
        i64::MAX
    } else {
        v as i64
    }
}

/// `-` for a negative number, nothing otherwise.
pub open spec fn sign_text(negative: bool) -> Seq<char> {
    if negative {
        seq!['-']
    } else {
        Seq::<char>::empty()
    }
}

/// A count of hundredths written with two decimal places, such as `-12.05`.
pub open spec fn two_place_text(negative: bool, hundredths: nat) -> Seq<char> {
    sign_text(negative) + decimal_digits(hundredths / 100) + seq![
        '.',
        digit(((hundredths / 10) % 10) as int),
        digit((hundredths % 10) as int),
    ]
}

/// A whole number with its sign, such as `-12`.
pub open spec fn whole_text(negative: bool, units: nat) -> Seq<char> {
    sign_text(negative) + decimal_digits(units)
}

/// Writes a count of hundredths with two decimal places.
pub fn format_hundredths(negative: bool, hundredths: u64) -> (s: String)
    ensures
        s@ == two_place_text(negative, hundredths as nat),
{
    let mut s = String::new();
    if negative {
        push_char(&mut s, '-');
    }
    assert(s@ =~= sign_text(negative));
    let whole = decimal_string(hundredths / 100);
    s.append(whole.as_str());
    push_char(&mut s, '.');
    push_char(&mut s, digit_char((hundredths / 10) % 10));
    push_char(&mut s, digit_char(hundredths % 10));
    assert(s@ =~= two_place_text(negative, hundredths as nat));
    s
}

/// Writes a whole number with its sign.
pub fn format_whole(negative: bool, units: u64) -> (s: String)
    ensures
        s@ == whole_text(negative, units as nat),
{
    let mut s = String::new();
    if negative {
        push_char(&mut s, '-');
    }
    assert(s@ =~= sign_text(negative));
    let whole = decimal_string(units);
    s.append(whole.as_str());
    s
}

/// A whole amount in thousand-millions with two decimal places: `2.50` for
/// 2 499 999 999, rounded half up.
pub open spec fn billions_text(amount: nat) -> Seq<char> {
    two_place_text(false, (amount + 5_000_000) / 10_000_000)
}

/// Writes a whole amount in thousand-millions with two decimal places.
pub fn format_billions(amount: u64) -> (s: String)
    ensures
        s@ == billions_text(amount as nat),
{
    let wide: u128 = amount as u128;
    let hundredths: u128 = (wide + 5_000_000) / 10_000_000;
    format_hundredths(false, hundredths as u64)
}

impl Decimal {
    /// The number of `micros` millionths.
    pub fn from_micros(micros: i64) -> (d: Decimal)
        ensures
            d.micros == micros,
    {
        Decimal { micros }
    }

    /// Zero.
    pub fn zero() -> (d: Decimal)
        ensures
            d.micros == 0,
    {
        Decimal { micros: 0 }
    }

    /// Whether the number is below zero.
    pub open spec fn is_negative(self) -> bool {
        self.micros < 0
    }

    /// The number without its sign, in millionths.
    pub open spec fn magnitude(self) -> nat {
        if self.micros < 0 {
            (-self.micros) as nat
        } else {
            self.micros as nat
        }
    }

    /// The number rounded to hundredths, half away from zero, and written
    /// with two decimal places. A negative number keeps its sign even where
    /// it rounds to zero.
    pub open spec fn text_2(self) -> Seq<char> {
        two_place_text(self.is_negative(), (self.magnitude() + 5_000) / 10_000)
    }

    /// The number rounded to a whole, half away from zero, and written
    /// without decimal places.
    pub open spec fn text_0(self) -> Seq<char> {
        whole_text(self.is_negative(), (self.magnitude() + 500_000) / 1_000_000)
    }

    /// The number without its sign, in millionths.
    pub fn abs_micros(&self) -> (m: u64)
        ensures
            m == self.magnitude(),
    {
        if self.micros < 0 {
            let below: i64 = -(self.micros + 1);
            (below as u64) + 1
        } else {
            self.micros as u64
        }
    }

    /// Writes the number with two decimal places.
    pub fn format_2(&self) -> (s: String)
        ensures
            s@ == self.text_2(),
    {
        let m = self.abs_micros();
        format_hundredths(self.micros < 0, (m + 5_000) / 10_000)
    }

    /// Writes the number without decimal places.
    pub fn format_0(&self) -> (s: String)
        ensures
            s@ == self.text_0(),
    {
        let m = self.abs_micros();
        format_whole(self.micros < 0, (m + 500_000) / 1_000_000)
    }

    /// `self - other`, held at the ends of the range where the exact
    /// difference does not fit.
    pub fn saturating_sub(&self, other: &Decimal) -> (d: Decimal)
        ensures
            d.micros == clamp_i64(self.micros - other.micros),
    {
        match self.micros.checked_sub(other.micros) {
            Some(v) => Decimal { micros: v },
            None => {
                if other.micros > 0 {
                    Decimal { micros: i64::MIN }
                } else {
                    Decimal { micros: i64::MAX }
                }
            },
        }
    }

    /// A fraction as a percentage: `self` times one hundred, held at the ends
    /// of the range where the exact product does not fit.
    pub fn to_percent(&self) -> (d: Decimal)
        ensures
            d.micros == clamp_i64(self.micros * 100),
    {
        match self.micros.checked_mul(100) {
            Some(v) => Decimal { micros: v },
            None => {
                if self.micros < 0 {
                    Decimal { micros: i64::MIN }
                } else {
                    Decimal { micros: i64::MAX }
                }
            },
        }
    }
}

} // verus!
