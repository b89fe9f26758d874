//! 256-bit cumulative chainwork, kept as four 64-bit limbs (least
//! significant first) with a mathematical view, and the one operation the
//! chain needs: adding a small height offset, wrapping modulo 2^256.

use vstd::prelude::*;

verus! {

/// A 256-bit unsigned quantity of cumulative work. `w0` is the least
/// significant limb.
#[derive(Clone, Copy, Debug, PartialEq, Eq)]
pub struct ChainWork {
    pub w0: u64,
    pub w1: u64,
    pub w2: u64,
    pub w3: u64,
}

pub open spec fn pow2_64() -> int {
    0x1_0000_0000_0000_0000
}

pub open spec fn pow2_128() -> int {
    pow2_64() * pow2_64()
}

pub open spec fn pow2_192() -> int {
    pow2_64() * pow2_128()
}

pub open spec fn pow2_256() -> int {
    pow2_64() * pow2_192()
}

impl View for ChainWork {
    type V = int;

    open spec fn view(&self) -> int {
        self.w0 + self.w1 * pow2_64() + self.w2 * pow2_128() + self.w3 * pow2_192()
    }
}

impl ChainWork {
    /// The value is always in `[0, 2^256)`.
    pub proof fn lemma_view_bounds(&self)
        ensures
            0 <= self@ < pow2_256(),
    {
        let b: int = pow2_64();
        assert(0 <= self.w0 + self.w1 * b + self.w2 * (b * b) + self.w3 * (b * (b * b))
            < b * (b * (b * b))) by (nonlinear_arith)
            requires
                0 <= self.w0 < b,
                0 <= self.w1 < b,
                0 <= self.w2 < b,
                0 <= self.w3 < b,
                b == 0x1_0000_0000_0000_0000,
        {
            assert(self.w0 + self.w1 * b < b * b);
            assert(self.w0 + self.w1 * b + self.w2 * (b * b) < b * (b * b));
        }
        assert(self@ == self.w0 + self.w1 * b + self.w2 * (b * b) + self.w3 * (b * (b * b)));
        assert(pow2_256() == b * (b * (b * b)));
    }

    /// Adds a 64-bit offset, wrapping modulo 2^256.
    pub fn add_u64(&self, x: u64) -> (r: ChainWork)
        ensures
            r@ == (self@ + x) % pow2_256(),
    {
        let s0: u128 = self.w0 as u128 + x as u128;
        let r0: u64 = (s0 % 0x1_0000_0000_0000_0000u128) as u64;
        let c1: u64 = (s0 / 0x1_0000_0000_0000_0000u128) as u64;
        let s1: u128 = self.w1 as u128 + c1 as u128;
        let r1: u64 = (s1 % 0x1_0000_0000_0000_0000u128) as u64;
        let c2: u64 = (s1 / 0x1_0000_0000_0000_0000u128) as u64;
        let s2: u128 = self.w2 as u128 + c2 as u128;
        let r2: u64 = (s2 % 0x1_0000_0000_0000_0000u128) as u64;
        let c3: u64 = (s2 / 0x1_0000_0000_0000_0000u128) as u64;
        let s3: u128 = self.w3 as u128 + c3 as u128;
        let r3: u64 = (s3 % 0x1_0000_0000_0000_0000u128) as u64;
        let c4: u64 = (s3 / 0x1_0000_0000_0000_0000u128) as u64;
        let r = ChainWork { w0: r0, w1: r1, w2: r2, w3: r3 };
        proof {
            self.lemma_view_bounds();
            r.lemma_view_bounds();
            let b: int = pow2_64();
            assert(s0 == r0 + c1 * b && c1 <= 1) by (nonlinear_arith)
                requires
                    s0 == self.w0 + x,
                    self.w0 < b,
                    x < b,
                    r0 == (s0 as int) % b,
                    c1 == (s0 as int) / b,
                    b == 0x1_0000_0000_0000_0000,
            ;
            assert(s1 == r1 + c2 * b && c2 <= 1) by (nonlinear_arith)
                requires
                    s1 == self.w1 + c1,
                    self.w1 < b,
                    c1 <= 1,
                    r1 == (s1 as int) % b,
                    c2 == (s1 as int) / b,
                    b == 0x1_0000_0000_0000_0000,
            ;
            assert(s2 == r2 + c3 * b && c3 <= 1) by (nonlinear_arith)
                requires
                    s2 == self.w2 + c2,
                    self.w2 < b,
                    c2 <= 1,
                    r2 == (s2 as int) % b,
                    c3 == (s2 as int) / b,
                    b == 0x1_0000_0000_0000_0000,
            ;
            assert(s3 == r3 + c4 * b && c4 <= 1) by (nonlinear_arith)
                requires
                    s3 == self.w3 + c3,
                    self.w3 < b,
                    c3 <= 1,
                    r3 == (s3 as int) % b,
                    c4 == (s3 as int) / b,
                    b == 0x1_0000_0000_0000_0000,
            ;
            let b2: int = b * b;
            let b3: int = b * b2;
            let b4: int = b * b3;
            assert(self.w1 * b + c1 * b == r1 * b + c2 * b2) by (nonlinear_arith)
                requires
                    self.w1 + c1 == r1 + c2 * b,
                    b2 == b * b,
            ;
            assert(self.w2 * b2 + c2 * b2 == r2 * b2 + c3 * b3) by (nonlinear_arith)
                requires
                    self.w2 + c2 == r2 + c3 * b,
                    b3 == b * b2,
            ;
            assert(self.w3 * b3 + c3 * b3 == r3 * b3 + c4 * b4) by (nonlinear_arith)
                requires
                    self.w3 + c3 == r3 + c4 * b,
                    b4 == b * b3,
            ;
            assert(self@ == self.w0 + self.w1 * b + self.w2 * b2 + self.w3 * b3);
            assert(r@ == r0 + r1 * b + r2 * b2 + r3 * b3);
            assert(self@ + x == r@ + c4 * b4);
            assert((self@ + x) % b4 == r@) by (nonlinear_arith)
                requires
                    self@ + x == r@ + c4 * b4,
                    0 <= c4 <= 1,
                    0 <= r@ < b4,
                    b4 > 0,
            ;
            assert(pow2_256() == b4);
        }
        r
    }
}

} // verus!
