//! Chroma subsampling ratios such as 4:2:2.

use vstd::prelude::*;
use vstd::string::StringExecFns;
use crate::util::{decimal, decimal_digits};

verus! {

/// Describes the chroma subsampling system as the ratio `x_ref : x_samples :
/// x2_samples`: of `x_ref` luma samples in a row, `x_samples` carry chroma in
/// the first line and `x2_samples` in the second.
#[derive(Clone, Copy, Hash, PartialEq, Eq, Debug, Structural)]
pub struct Subsampling {
    pub x_ref: u8,
    pub x_samples: u8,
    pub x2_samples: u8,
}

impl Subsampling {
    /// The ratio is regular: the chroma samples of the first line evenly
    /// divide the reference, and the second line either repeats the first or
    /// carries no chroma at all.
    pub open spec fn regular(&self) -> bool {
        &&& self.x_ref > 0
        &&& self.x_samples > 0
        &&& self.x_ref as int % self.x_samples as int == 0
        &&& (self.x2_samples == 0 || self.x2_samples == self.x_samples)
    }

    /// Number of luma samples in a row that share one chroma sample.
    pub open spec fn x_group(&self) -> int {
        self.x_ref as int / self.x_samples as int
    }

    /// Number of lines that share one row of chroma samples.
    pub open spec fn y_group(&self) -> int {
        if self.x2_samples == 0 {
            2
        } else {
            1
        }
    }

    pub fn new(x_ref: u8, x_samples: u8, x2_samples: u8) -> (s: Subsampling)
        ensures
            s == (Subsampling { x_ref, x_samples, x2_samples }),
    {
        Subsampling { x_ref, x_samples, x2_samples }
    }

    /// The ratio 4:4:4, in which every pixel has its own chroma.
    pub fn none() -> (s: Subsampling)
        ensures
            s == (Subsampling { x_ref: 4, x_samples: 4, x2_samples: 4 }),
            s.regular(),
            !s.subsampled(),
    {
        Subsampling { x_ref: 4, x_samples: 4, x2_samples: 4 }
    }

    /// Some pixels share chroma with a neighbour.
    pub open spec fn subsampled(&self) -> bool {
        self.x_ref != self.x_samples || self.x_ref != self.x2_samples
    }

    pub fn is_subsampled(&self) -> (b: bool)
        ensures
            b == self.subsampled(),
    {
        self.x_ref != self.x_samples || self.x_ref != self.x2_samples
    }

    pub fn is_regular(&self) -> (b: bool)
        ensures
            b == self.regular(),
    {
        if self.x_ref == 0 || self.x_samples == 0 {
            return false;
        }
        if self.x_samples > self.x_ref || self.x2_samples > self.x_samples {
            proof {
                if self.x_ref as int % self.x_samples as int == 0 {
                    lemma_divisor_at_most(self.x_ref as int, self.x_samples as int);
                }
            }
            return false;
        }
        if self.x_ref % self.x_samples != 0 {
            return false;
        }
        if self.x2_samples % self.x_samples != 0 {
            proof {
                vstd::arithmetic::div_mod::lemma_mod_self_0(self.x_samples as int);
                vstd::arithmetic::div_mod::lemma_small_mod(0, self.x_samples as nat);
            }
            return false;
        }
        proof {
            lemma_small_multiple(self.x2_samples as int, self.x_samples as int);
        }
        true
    }

    /// The ratio as text: the three numbers, separated by colons.
    pub open spec fn text(&self) -> Seq<char> {
        decimal_digits(self.x_ref as nat) + seq![':'] + decimal_digits(self.x_samples as nat)
            + seq![':'] + decimal_digits(self.x2_samples as nat)
    }

    /// Writes the ratio as `4:2:2`.
    pub fn to_string(&self) -> (text: String)
        ensures
            text@ == self.text(),
    {
        proof {
            reveal_strlit(":");
        }
        let first = decimal(self.x_ref as usize).concat(":");
        let second = decimal(self.x_samples as usize);
        let third = decimal(self.x2_samples as usize);
        let text = first.concat(second.as_str()).concat(":").concat(third.as_str());
        assert(text@ =~= self.text());
        text
    }

    /// Writes the ratio as a debugger shows it: `Subsampling(4:2:2)`.
    pub fn to_debug_string(&self) -> (text: String)
        ensures
            text@ == "Subsampling("@ + self.text() + ")"@,
    {
        let inner = self.to_string();
        String::from_str("Subsampling(").concat(inner.as_str()).concat(")")
    }

    /// Horizontal grouping factor of a regular ratio.
    pub fn x_grouping(&self) -> (g: u8)
        requires
            self.regular(),
        ensures
            g == self.x_group(),
            g >= 1,
            g * self.x_samples == self.x_ref,
    {
        proof {
            lemma_divisor_at_most(self.x_ref as int, self.x_samples as int);
            lemma_exact_quotient(self.x_ref as int, self.x_samples as int);
        }
        self.x_ref / self.x_samples
    }

    /// Vertical grouping factor of a regular ratio.
    pub fn y_grouping(&self) -> (g: u8)
        requires
            self.regular(),
        ensures
            g == self.y_group(),
            g == 1 || g == 2,
    {
        if self.x2_samples == 0 {
            2
        } else {
            1
        }
    }
}

impl Default for Subsampling {
    fn default() -> (s: Subsampling)
        ensures
            s == (Subsampling { x_ref: 4, x_samples: 4, x2_samples: 4 }),
    {
        Subsampling { x_ref: 4, x_samples: 4, x2_samples: 4 }
    }
}

/// A positive number is at least as large as each of its positive divisors.
proof fn lemma_divisor_at_most(n: int, d: int)
    requires
        n > 0,
        d > 0,
        n % d == 0,
    ensures
        d <= n,
{
    if d > n {
        vstd::arithmetic::div_mod::lemma_small_mod(n as nat, d as nat);
    }
}

/// The only multiples of `d` between 0 and `d` are 0 and `d` itself.
proof fn lemma_small_multiple(m: int, d: int)
    requires
        d > 0,
        0 <= m <= d,
        m % d == 0,
    ensures
        m == 0 || m == d,
{
    if 0 < m < d {
        vstd::arithmetic::div_mod::lemma_small_mod(m as nat, d as nat);
    }
}

/// Dividing by an exact divisor and multiplying back gives the number again.
proof fn lemma_exact_quotient(n: int, d: int)
    requires
        n > 0,
        d > 0,
        n % d == 0,
    ensures
        (n / d) * d == n,
        n / d >= 1,
{
    vstd::arithmetic::div_mod::lemma_fundamental_div_mod(n, d);
    assert((n / d) * d == d * (n / d)) by (nonlinear_arith);
    if n / d <= 0 {
        assert((n / d) * d <= 0) by (nonlinear_arith)
            requires
                n / d <= 0,
                d > 0,
        ;
    }
}

} // verus!
