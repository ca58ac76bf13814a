//! Unsigned integers of any number of bytes, least significant byte first.

use core::cmp::Ordering;
use vstd::prelude::*;
use vstd::std_specs::cmp::{PartialEqSpec, PartialOrdSpec};

verus! {

/// 256 to the power `n`.
pub open spec fn pow256(n: nat) -> nat
    decreases n,
{
    if n == 0 {
        1
    } else {
        256 * pow256((n - 1) as nat)
    }
}

/// Byte `i` of a number: the byte stored there, or zero beyond the end.
pub open spec fn byte_at(bytes: Seq<u8>, i: int) -> u8 {
    if 0 <= i < bytes.len() {
        bytes[i]
    } else {
        0
    }
}

/// The number held in the lowest `n` bytes of `bytes`.
pub open spec fn low_value(bytes: Seq<u8>, n: nat) -> nat
    decreases n,
{
    if n == 0 {
        0
    } else {
        low_value(bytes, (n - 1) as nat) + byte_at(bytes, n - 1) as nat * pow256((n - 1) as nat)
    }
}

/// The number that `bytes` stands for, least significant byte first.
pub open spec fn value_of(bytes: Seq<u8>) -> nat {
    low_value(bytes, bytes.len())
}

/// The most significant byte of `bytes`, or zero for the empty sequence.
pub open spec fn top_byte(bytes: Seq<u8>) -> u8 {
    byte_at(bytes, bytes.len() - 1)
}

/// The larger of two lengths.
pub open spec fn longer(a: nat, b: nat) -> nat {
    if a >= b {
        a
    } else {
        b
    }
}

/// `pow256` is positive and grows with its argument.
pub proof fn lemma_pow256_grows(m: nat, n: nat)
    requires
        m <= n,
    ensures
        1 <= pow256(m) <= pow256(n),
    decreases n,
{
    if n == 0 {
    } else if m == n {
        lemma_pow256_grows((m - 1) as nat, (n - 1) as nat);
    } else {
        lemma_pow256_grows(m, (n - 1) as nat);
    }
}

/// The lowest `n` bytes hold a number below 256 to the `n`.
pub proof fn lemma_low_value_bound(bytes: Seq<u8>, n: nat)
    ensures
        low_value(bytes, n) < pow256(n),
    decreases n,
{
    if n > 0 {
        let p = pow256((n - 1) as nat);
        let b = byte_at(bytes, n - 1) as nat;
        lemma_low_value_bound(bytes, (n - 1) as nat);
        assert(b * p <= 255 * p) by (nonlinear_arith)
            requires
                b <= 255,
        ;
    }
}

/// Bytes beyond the end count as zero: taking more of them changes nothing.
pub proof fn lemma_low_value_beyond(bytes: Seq<u8>, n: nat)
    requires
        n >= bytes.len(),
    ensures
        low_value(bytes, n) == value_of(bytes),
    decreases n,
{
    if n > bytes.len() {
        lemma_low_value_beyond(bytes, (n - 1) as nat);
        let b = byte_at(bytes, n - 1) as nat;
        let p = pow256((n - 1) as nat);
        assert(b * p == 0) by (nonlinear_arith)
            requires
                b == 0,
        ;
    }
}

/// The lowest `n` bytes depend on those bytes alone.
pub proof fn lemma_low_value_same_bytes(a: Seq<u8>, b: Seq<u8>, n: nat)
    requires
        forall|i: int| 0 <= i < n ==> byte_at(a, i) == byte_at(b, i),
    ensures
        low_value(a, n) == low_value(b, n),
    decreases n,
{
    if n > 0 {
        lemma_low_value_same_bytes(a, b, (n - 1) as nat);
    }
}

/// Where two numbers agree in the lowest `n` bytes' value, they agree in each
/// of those bytes.
pub proof fn lemma_low_value_injective(a: Seq<u8>, b: Seq<u8>, n: nat)
    requires
        low_value(a, n) == low_value(b, n),
    ensures
        forall|i: int| 0 <= i < n ==> byte_at(a, i) == byte_at(b, i),
    decreases n,
{
    if n > 0 {
        let p = pow256((n - 1) as nat);
        let x = byte_at(a, n - 1) as int;
        let y = byte_at(b, n - 1) as int;
        let la = low_value(a, (n - 1) as nat) as int;
        let lb = low_value(b, (n - 1) as nat) as int;
        lemma_low_value_bound(a, (n - 1) as nat);
        lemma_low_value_bound(b, (n - 1) as nat);
        assert(x == y) by (nonlinear_arith)
            requires
                la + x * p == lb + y * p,
                0 <= la < p,
                0 <= lb < p,
        ;
        lemma_low_value_injective(a, b, (n - 1) as nat);
    }
}

/// A number's length and value fix its bytes.
pub proof fn lemma_value_injective(a: Seq<u8>, b: Seq<u8>)
    requires
        a.len() == b.len(),
        value_of(a) == value_of(b),
    ensures
        a == b,
{
    lemma_low_value_injective(a, b, a.len());
    assert forall|i: int| 0 <= i < a.len() implies a[i] == b[i] by {
        assert(byte_at(a, i) == byte_at(b, i));
    }
    assert(a =~= b);
}

/// A number below 256 to the `n` has nothing but zero bytes from byte `n` on.
pub proof fn lemma_low_value_small(bytes: Seq<u8>, n: nat, m: nat)
    requires
        n <= m,
        low_value(bytes, m) < pow256(n),
    ensures
        low_value(bytes, m) == low_value(bytes, n),
    decreases m,
{
    if m > n {
        let p = pow256((m - 1) as nat);
        let b = byte_at(bytes, m - 1) as nat;
        lemma_pow256_grows(n, (m - 1) as nat);
        assert(b == 0) by (nonlinear_arith)
            requires
                b * p < p,
        ;
        assert(b * p == 0) by (nonlinear_arith)
            requires
                b == 0,
        ;
        lemma_low_value_small(bytes, n, (m - 1) as nat);
    }
}

/// The sum of two numbers fits in as many bytes as the longer of them has,
/// and one more where their top bytes add up to 255 or more.
pub proof fn lemma_sum_fits(a: Seq<u8>, b: Seq<u8>)
    ensures
        value_of(a) + value_of(b) < pow256(sum_len(a, b)),
{
    let m = longer(a.len(), b.len());
    lemma_low_value_bound(a, a.len());
    lemma_low_value_bound(b, b.len());
    lemma_pow256_grows(a.len(), m);
    lemma_pow256_grows(b.len(), m);
    if top_byte(a) + top_byte(b) >= 255 {
    } else if m > 0 {
        let p = pow256((m - 1) as nat);
        let ta = top_byte(a) as nat;
        let tb = top_byte(b) as nat;
        assert(value_of(a) < (ta + 1) * p) by {
            if a.len() == m {
                lemma_low_value_bound(a, (m - 1) as nat);
                assert((ta + 1) * p == ta * p + p) by (nonlinear_arith);
            } else {
                lemma_pow256_grows(a.len(), (m - 1) as nat);
                assert(p <= (ta + 1) * p) by (nonlinear_arith);
            }
        }
        assert(value_of(b) < (tb + 1) * p) by {
            if b.len() == m {
                lemma_low_value_bound(b, (m - 1) as nat);
                assert((tb + 1) * p == tb * p + p) by (nonlinear_arith);
            } else {
                lemma_pow256_grows(b.len(), (m - 1) as nat);
                assert(p <= (tb + 1) * p) by (nonlinear_arith);
            }
        }
        assert((ta + 1) * p + (tb + 1) * p <= 256 * p) by (nonlinear_arith)
            requires
                ta + tb <= 254,
        ;
    }
}

/// The length of a sum: that of the longer operand, and one more byte where
/// the two top bytes add up to 255 or more, so that a carry out of them has
/// a place.
pub open spec fn sum_len(a: Seq<u8>, b: Seq<u8>) -> nat {
    if top_byte(a) + top_byte(b) >= 255 {
        longer(a.len(), b.len()) + 1
    } else {
        longer(a.len(), b.len())
    }
}

/// How the values of two numbers compare.
#[derive(Copy, Clone, Debug, PartialEq, Eq, Structural)]
enum ValueOrder {
    Less,
    Equal,
    Greater,
}

/// Compares two numbers by value, whatever their lengths.
fn value_order(a: &Vec<u8>, b: &Vec<u8>) -> (order: ValueOrder)
    ensures
        order == ValueOrder::Less <==> value_of(a@) < value_of(b@),
        order == ValueOrder::Equal <==> value_of(a@) == value_of(b@),
        order == ValueOrder::Greater <==> value_of(a@) > value_of(b@),
{
    let n: usize = if a.len() >= b.len() {
        a.len()
    } else {
        b.len()
    };
    proof {
        lemma_low_value_beyond(a@, n as nat);
        lemma_low_value_beyond(b@, n as nat);
    }
    let mut i: usize = n;
    while i > 0
        invariant
            i <= n,
            low_value(a@, n as nat) == value_of(a@),
            low_value(b@, n as nat) == value_of(b@),
            low_value(a@, n as nat) - low_value(a@, i as nat) == low_value(b@, n as nat)
                - low_value(b@, i as nat),
        decreases i,
    {
        let x: u8 = if i - 1 < a.len() {
            a[i - 1]
        } else {
            0
        };
        let y: u8 = if i - 1 < b.len() {
            b[i - 1]
        } else {
            0
        };
        proof {
            let p = pow256((i - 1) as nat);
            let la = low_value(a@, (i - 1) as nat);
            let lb = low_value(b@, (i - 1) as nat);
            lemma_low_value_bound(a@, (i - 1) as nat);
            lemma_low_value_bound(b@, (i - 1) as nat);
            assert(x == byte_at(a@, i - 1) && y == byte_at(b@, i - 1));
            if x < y {
                assert(la + x * p < lb + y * p) by (nonlinear_arith)
                    requires
                        x < y,
                        0 <= la < p,
                        0 <= lb,
                ;
            } else if x > y {
                assert(la + x * p > lb + y * p) by (nonlinear_arith)
                    requires
                        x > y,
                        0 <= lb < p,
                        0 <= la,
                ;
            }
        }
        if x < y {
            return ValueOrder::Less;
        }
        if x > y {
            return ValueOrder::Greater;
        }
        i = i - 1;
    }
    ValueOrder::Equal
}

/// An unsigned integer stored as bytes, least significant first, with a flag
/// that a subtraction sets when it would have gone below zero.
#[derive(Debug)]
pub struct BigInt {
    content: Vec<u8>,
    error: bool,
}

impl View for BigInt {
    type V = Seq<u8>;

    closed spec fn view(&self) -> Seq<u8> {
        self.content@
    }
}

impl BigInt {
    /// Whether a subtraction that produced this number went below zero.
    pub closed spec fn error(self) -> bool {
        self.error
    }

    /// The number zero in `size_` bytes.
    pub fn init(size_: usize) -> (made: BigInt)
        ensures
            made@ == Seq::new(size_ as nat, |i: int| 0u8),
            !made.error(),
    {
        let content: Vec<u8> = vec![0; size_];
        assert(content@ =~= Seq::new(size_ as nat, |i: int| 0u8));
        BigInt { content, error: false }
    }

    /// A number with the same bytes and the same flag.
    pub fn copy(in_: &BigInt) -> (made: BigInt)
        ensures
            made@ == in_@,
            made.error() == in_.error(),
    {
        BigInt { content: in_.content.clone(), error: in_.error }
    }

    /// The number of the given bytes.
    pub fn new(content_: Vec<u8>) -> (made: BigInt)
        ensures
            made@ == content_@,
            !made.error(),
    {
        BigInt { content: content_, error: false }
    }

    /// Overwrites the lowest bytes with those of `content_`, as many as both
    /// have; the length stays.
    pub fn set(&mut self, content_: Vec<u8>)
        ensures
            final(self)@ == Seq::new(
                old(self)@.len(),
                |i: int| if i < content_@.len() { content_@[i] } else { old(self)@[i] },
            ),
            final(self).error() == old(self).error(),
    {
        let ghost before = self.content@;
        let n: usize = if content_.len() < self.content.len() {
            content_.len()
        } else {
            self.content.len()
        };
        for i in 0..n
            invariant
                n <= content_@.len(),
                n <= before.len(),
                self.content@.len() == before.len(),
                self.error == old(self).error,
                forall|j: int| 0 <= j < i ==> self.content@[j] == content_@[j],
                forall|j: int| i <= j < before.len() ==> self.content@[j] == before[j],
        {
            self.content.set(i, content_[i]);
        }
        assert(self.content@ =~= Seq::new(
            before.len(),
            |i: int| if i < content_@.len() { content_@[i] } else { before[i] },
        ));
    }

    /// The number of bytes.
    pub fn size(&self) -> (n: usize)
        ensures
            n == self@.len(),
    {
        self.content.len()
    }

    /// The bytes, least significant first.
    pub fn content(&self) -> (bytes: &Vec<u8>)
        ensures
            bytes@ == self@,
    {
        &self.content
    }

    /// Whether a subtraction that produced this number went below zero.
    pub fn has_error(&self) -> (flag: bool)
        ensures
            flag == self.error(),
    {
        self.error
    }

    /// Drops zero bytes from the most significant end, down to the highest
    /// byte that is not zero but never below one byte. The value stays.
    pub fn trim(&mut self)
        ensures
            final(self)@ == old(self)@.take(final(self)@.len() as int),
            final(self)@.len() <= old(self)@.len(),
            forall|i: int| final(self)@.len() <= i < old(self)@.len() ==> old(self)@[i] == 0,
            final(self)@.len() <= 1 || final(self)@.last() != 0,
            old(self)@.len() >= 1 ==> final(self)@.len() >= 1,
            value_of(final(self)@) == value_of(old(self)@),
            final(self).error() == old(self).error(),
    {
        let ghost before = self.content@;
        while self.content.len() > 1 && self.content[self.content.len() - 1] == 0
            invariant
                self.error == old(self).error,
                before == old(self)@,
                self.content@.len() <= before.len(),
                before.len() >= 1 ==> self.content@.len() >= 1,
                self.content@ == before.take(self.content@.len() as int),
                forall|i: int| self.content@.len() <= i < before.len() ==> before[i] == 0,
            decreases self.content@.len(),
        {
            self.content.pop();
            assert(self.content@ =~= before.take(self.content@.len() as int));
        }
        proof {
            let after = self.content@;
            assert forall|i: int| 0 <= i < before.len() implies byte_at(after, i) == byte_at(
                before,
                i,
            ) by {}
            lemma_low_value_same_bytes(after, before, before.len());
            lemma_low_value_beyond(after, before.len());
        }
    }
}

impl PartialEq for BigInt {
    /// Two numbers are equal when they have the same bytes; the flag does
    /// not count.
    fn eq(&self, other: &BigInt) -> (same: bool) {
        if self.content.len() != other.content.len() {
            return false;
        }
        for i in 0..self.content.len()
            invariant
                self.content@.len() == other.content@.len(),
                forall|j: int| 0 <= j < i ==> self.content@[j] == other.content@[j],
        {
            if self.content[i] != other.content[i] {
                return false;
            }
        }
        assert(self.content@ =~= other.content@);
        true
    }
}

impl vstd::std_specs::cmp::PartialEqSpecImpl for BigInt {
    open spec fn obeys_eq_spec() -> bool {
        true
    }

    open spec fn eq_spec(&self, other: &BigInt) -> bool {
        self@ == other@
    }
}

impl PartialOrd for BigInt {
    /// Orders two numbers by value. Two numbers of one value and different
    /// lengths are not equal, and so are not ordered.
    fn partial_cmp(&self, other: &BigInt) -> (order: Option<Ordering>) {
        let by_value = value_order(&self.content, &other.content);
        match by_value {
            ValueOrder::Less => Some(Ordering::Less),
            ValueOrder::Greater => Some(Ordering::Greater),
            ValueOrder::Equal => {
                if self.content.len() == other.content.len() {
                    proof {
                        lemma_value_injective(self@, other@);
                    }
                    Some(Ordering::Equal)
                } else {
                    None
                }
            },
        }
    }
}

impl vstd::std_specs::cmp::PartialOrdSpecImpl for BigInt {
    open spec fn obeys_partial_cmp_spec() -> bool {
        true
    }

    open spec fn partial_cmp_spec(&self, other: &BigInt) -> Option<Ordering> {
        if value_of(self@) < value_of(other@) {
            Some(Ordering::Less)
        } else if value_of(self@) > value_of(other@) {
            Some(Ordering::Greater)
        } else if self@.len() == other@.len() {
            Some(Ordering::Equal)
        } else {
            None
        }
    }
}

/// The order agrees with equality: two numbers compare as equal exactly
/// when they are equal, byte for byte.
pub proof fn lemma_order_agrees_with_equality(a: BigInt, b: BigInt)
    ensures
        a.partial_cmp_spec(&b) == Some(Ordering::Equal) <==> a.eq_spec(&b),
{
    if a@.len() == b@.len() && value_of(a@) == value_of(b@) {
        lemma_value_injective(a@, b@);
    }
}

/// What `+` asks of its operands. The sum itself is stated by the contract
/// of `add`, over lengths and values: a specification cannot write down a
/// `BigInt`, so `add_spec` is a placeholder that `obeys_add_spec` disowns.
impl vstd::std_specs::ops::AddSpecImpl for BigInt {
    open spec fn obeys_add_spec() -> bool {
        false
    }

    open spec fn add_req(self, rhs: BigInt) -> bool {
        self@.len() < usize::MAX && rhs@.len() < usize::MAX
    }

    open spec fn add_spec(self, rhs: BigInt) -> BigInt {
        self
    }
}

impl core::ops::Add for BigInt {
    type Output = BigInt;

    /// The sum of two numbers, in `sum_len` bytes.
    fn add(self, rhs: BigInt) -> (sum: BigInt)
        ensures
            sum@.len() == sum_len(self@, rhs@),
            value_of(sum@) == value_of(self@) + value_of(rhs@),
            !sum.error(),
    {
        let la: usize = self.content.len();
        let lb: usize = rhs.content.len();
        let top_a: u8 = if la > 0 {
            self.content[la - 1]
        } else {
            0
        };
        let top_b: u8 = if lb > 0 {
            rhs.content[lb - 1]
        } else {
            0
        };
        let longest: usize = if la >= lb {
            la
        } else {
            lb
        };
        let n: usize = if top_a as u16 + top_b as u16 >= 255 {
            longest + 1
        } else {
            longest
        };
        let mut content: Vec<u8> = Vec::new();
        let mut carry: u16 = 0;
        for i in 0..n
            invariant
                la == self.content@.len(),
                lb == rhs.content@.len(),
                content@.len() == i,
                carry <= 1,
                low_value(content@, i as nat) + carry * pow256(i as nat) == low_value(
                    self.content@,
                    i as nat,
                ) + low_value(rhs.content@, i as nat),
        {
            let x: u8 = if i < la {
                self.content[i]
            } else {
                0
            };
            let y: u8 = if i < lb {
                rhs.content[i]
            } else {
                0
            };
            let total: u16 = x as u16 + y as u16 + carry;
            let digit: u8 = (total % 256) as u8;
            let ghost before = content@;
            let ghost carry_in = carry;
            content.push(digit);
            carry = total / 256;
            proof {
                let p = pow256(i as nat);
                assert(x == byte_at(self.content@, i as int) && y == byte_at(rhs.content@, i as int));
                assert(digit == byte_at(content@, i as int));
                assert forall|j: int| 0 <= j < i implies byte_at(content@, j) == byte_at(
                    before,
                    j,
                ) by {}
                lemma_low_value_same_bytes(content@, before, i as nat);
                assert(digit * p + carry * (256 * p) == x * p + y * p + carry_in * p)
                    by (nonlinear_arith)
                    requires
                        digit + 256 * carry == x + y + carry_in,
                ;
            }
        }
        proof {
            lemma_low_value_beyond(self.content@, n as nat);
            lemma_low_value_beyond(rhs.content@, n as nat);
            lemma_sum_fits(self.content@, rhs.content@);
            let p = pow256(n as nat);
            assert(carry * p == 0) by (nonlinear_arith)
                requires
                    carry <= 1,
                    carry * p < p,
            ;
        }
        BigInt { content, error: false }
    }
}

/// What `-` asks of its operands: nothing. The difference itself is stated
/// by the contract of `sub`; `sub_spec` is a placeholder that
/// `obeys_sub_spec` disowns.
impl vstd::std_specs::ops::SubSpecImpl for BigInt {
    open spec fn obeys_sub_spec() -> bool {
        false
    }

    open spec fn sub_req(self, rhs: BigInt) -> bool {
        true
    }

    open spec fn sub_spec(self, rhs: BigInt) -> BigInt {
        self
    }
}

impl core::ops::Sub for BigInt {
    type Output = BigInt;

    /// The difference of two numbers, in as many bytes as `self` has. Where
    /// `rhs` is the larger, the result is `self` with the flag set.
    fn sub(self, rhs: BigInt) -> (diff: BigInt)
        ensures
            diff@.len() == self@.len(),
            value_of(rhs@) > value_of(self@) ==> diff@ == self@ && diff.error(),
            value_of(rhs@) <= value_of(self@) ==> value_of(diff@) == value_of(self@) - value_of(
                rhs@,
            ) && diff.error() == self.error(),
    {
        let by_value = value_order(&rhs.content, &self.content);
        if by_value == ValueOrder::Greater {
            return BigInt { content: self.content, error: true };
        }
        let la: usize = self.content.len();
        let lb: usize = rhs.content.len();
        let mut content: Vec<u8> = Vec::new();
        let mut borrow: i16 = 0;
        for i in 0..la
            invariant
                la == self.content@.len(),
                lb == rhs.content@.len(),
                content@.len() == i,
                0 <= borrow <= 1,
                low_value(content@, i as nat) - borrow * pow256(i as nat) == low_value(
                    self.content@,
                    i as nat,
                ) - low_value(rhs.content@, i as nat),
        {
            let x: u8 = self.content[i];
            let y: u8 = if i < lb {
                rhs.content[i]
            } else {
                0
            };
            let mut t: i16 = x as i16 - y as i16 - borrow;
            let ghost borrow_in = borrow;
            if t >= 0 {
                borrow = 0;
            } else {
                t = t + 256;
                borrow = 1;
            }
            let digit: u8 = t as u8;
            let ghost before = content@;
            content.push(digit);
            proof {
                let p = pow256(i as nat);
                assert(x == byte_at(self.content@, i as int) && y == byte_at(rhs.content@, i as int));
                assert(digit == byte_at(content@, i as int));
                assert forall|j: int| 0 <= j < i implies byte_at(content@, j) == byte_at(
                    before,
                    j,
                ) by {}
                lemma_low_value_same_bytes(content@, before, i as nat);
                assert(digit * p - borrow * (256 * p) == x * p - y * p - borrow_in * p)
                    by (nonlinear_arith)
                    requires
                        digit - 256 * borrow == x - y - borrow_in,
                ;
            }
        }
        proof {
            let p = pow256(la as nat);
            lemma_low_value_bound(self.content@, la as nat);
            lemma_low_value_bound(content@, la as nat);
            if lb <= la {
                lemma_low_value_beyond(rhs.content@, la as nat);
            } else {
                lemma_low_value_small(rhs.content@, la as nat, lb as nat);
            }
            assert(borrow * p == 0) by (nonlinear_arith)
                requires
                    0 <= borrow <= 1,
                    borrow * p <= low_value(content@, la as nat),
                    low_value(content@, la as nat) < p,
            ;
        }
        BigInt { content, error: self.error }
    }
}

} // verus!
