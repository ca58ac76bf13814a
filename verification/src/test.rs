//! A named record and a vector of three unsigned components.

use vstd::prelude::*;

verus! {

/// A name with a number.
pub struct TestStruct {
    pub name: String,
    pub number: u32,
}

/// A vector of three unsigned components.
pub struct Vector {
    pub x: u32,
    pub y: u32,
    pub z: u32,
}

/// Whether `root` is the square root of `n`, rounded down.
pub open spec fn is_floor_sqrt(root: nat, n: nat) -> bool {
    root * root <= n < (root + 1) * (root + 1)
}

/// The square root of `n`, rounded down.
pub open spec fn floor_sqrt(n: nat) -> nat {
    choose|root: nat| is_floor_sqrt(root, n)
}

/// The sum of the squares of three components.
pub open spec fn square_sum(x: u32, y: u32, z: u32) -> nat {
    (x * x + y * y + z * z) as nat
}

/// A number has one rounded-down square root.
pub proof fn lemma_floor_sqrt_unique(a: nat, b: nat, n: nat)
    requires
        is_floor_sqrt(a, n),
        is_floor_sqrt(b, n),
    ensures
        a == b,
{
    assert(a == b) by (nonlinear_arith)
        requires
            a * a <= n,
            n < (a + 1) * (a + 1),
            b * b <= n,
            n < (b + 1) * (b + 1),
    ;
}

/// `u128::isqrt` of std: the square root of `n`, rounded down.
#[verifier::external_body]
fn isqrt(n: u128) -> (root: u128)
    ensures
        is_floor_sqrt(root as nat, n as nat),
{
    n.isqrt()
}

impl Vector {
    /// The Euclidean length of the vector, rounded down.
    pub open spec fn norm(self) -> nat {
        floor_sqrt(square_sum(self.x, self.y, self.z))
    }

    /// Divides each component by the length of the vector, rounded down.
    /// The zero vector has no direction and is left out.
    pub fn normalise(&self) -> (unit: Vector)
        requires
            self.x != 0 || self.y != 0 || self.z != 0,
        ensures
            self.norm() > 0,
            unit.x == self.x as nat / self.norm(),
            unit.y == self.y as nat / self.norm(),
            unit.z == self.z as nat / self.norm(),
    {
        let x: u128 = self.x as u128;
        let y: u128 = self.y as u128;
        let z: u128 = self.z as u128;
        assert(x * x <= 0xffff_ffff * 0xffff_ffff && y * y <= 0xffff_ffff * 0xffff_ffff && z * z
            <= 0xffff_ffff * 0xffff_ffff) by (nonlinear_arith)
            requires
                x <= 0xffff_ffff,
                y <= 0xffff_ffff,
                z <= 0xffff_ffff,
        ;
        let sum: u128 = x * x + y * y + z * z;
        let norm: u128 = isqrt(sum);
        proof {
            assert(sum >= 1) by (nonlinear_arith)
                requires
                    sum == x * x + y * y + z * z,
                    x >= 1 || y >= 1 || z >= 1,
                    x >= 0,
                    y >= 0,
                    z >= 0,
            ;
            assert(norm >= 1) by (nonlinear_arith)
                requires
                    sum >= 1,
                    sum < (norm + 1) * (norm + 1),
                    norm >= 0,
            ;
            assert(x / norm <= x && y / norm <= y && z / norm <= z) by (nonlinear_arith)
                requires
                    norm >= 1,
                    x >= 0,
                    y >= 0,
                    z >= 0,
            ;
            assert(is_floor_sqrt(norm as nat, sum as nat));
            lemma_floor_sqrt_unique(norm as nat, self.norm(), sum as nat);
        }
        Vector { x: (x / norm) as u32, y: (y / norm) as u32, z: (z / norm) as u32 }
    }
}

} // verus!
