use vstd::prelude::*;

verus! {

/// The base of one 64-bit limb.
pub open spec fn limb_base() -> int {
    0x1_0000_0000_0000_0000
}

/// A 256-bit unsigned number, held as four 64-bit limbs, `w0` the least
/// significant.
#[derive(Clone, Copy, Debug, PartialEq, Eq, Structural)]
pub struct Uint256 {
    pub w0: u64,
    pub w1: u64,
    pub w2: u64,
    pub w3: u64,
}

impl Uint256 {
    /// The number that the limbs stand for.
    pub open spec fn value(self) -> int {
        self.w0 + limb_base() * (self.w1 + limb_base() * (self.w2 + limb_base() * self.w3))
    }

    /// Whether `self` is numerically below `other`.
    pub fn lt(&self, other: &Uint256) -> (r: bool)
        ensures
            r == (self.value() < other.value()),
    {
        let (a, b) = (self, other);
        proof {
            let (x2, y2) = (a.w2 + limb_base() * a.w3, b.w2 + limb_base() * b.w3);
            let (x1, y1) = (a.w1 + limb_base() * x2, b.w1 + limb_base() * y2);
            lemma_limb_lt(a.w2 as int, a.w3 as int, b.w2 as int, b.w3 as int);
            lemma_limb_lt(a.w1 as int, x2, b.w1 as int, y2);
            lemma_limb_lt(a.w0 as int, x1, b.w0 as int, y1);
        }
        if a.w3 != b.w3 {
            a.w3 < b.w3
        } else if a.w2 != b.w2 {
            a.w2 < b.w2
        } else if a.w1 != b.w1 {
            a.w1 < b.w1
        } else {
            a.w0 < b.w0
        }
    }
}

/// Comparing two numbers written as one low limb under a higher part: the
/// higher part decides, and the low limb only where the higher parts agree.
proof fn lemma_limb_lt(x_lo: int, x_hi: int, y_lo: int, y_hi: int)
    requires
        0 <= x_lo < limb_base(),
        0 <= y_lo < limb_base(),
        0 <= x_hi,
        0 <= y_hi,
    ensures
        (x_lo + limb_base() * x_hi < y_lo + limb_base() * y_hi) == (x_hi < y_hi || (x_hi == y_hi
            && x_lo < y_lo)),
        0 <= x_lo + limb_base() * x_hi,
{
    let b = limb_base();
    if x_hi < y_hi {
        assert(b * x_hi + b <= b * y_hi) by (nonlinear_arith)
            requires
                x_hi < y_hi,
                b > 0,
        ;
    } else if y_hi < x_hi {
        assert(b * y_hi + b <= b * x_hi) by (nonlinear_arith)
            requires
                y_hi < x_hi,
                b > 0,
        ;
    }
    assert(0 <= b * x_hi) by (nonlinear_arith)
        requires
            0 <= x_hi,
            b > 0,
    ;
}

/// The difficulty target a backend filtered nonces with: a hash meets it when
/// the hash is numerically below it.
#[derive(Clone, Copy, Debug, PartialEq, Eq, Structural)]
pub struct Target {
    pub bound: Uint256,
}

impl Target {
    /// The number a hash must stay below.
    pub open spec fn value(self) -> int {
        self.bound.value()
    }

    /// Whether `hash` meets this target.
    pub fn is_met_by(&self, hash: &Uint256) -> (r: bool)
        ensures
            r == (hash.value() < self.value()),
    {
        hash.lt(&self.bound)
    }
}

} // verus!
