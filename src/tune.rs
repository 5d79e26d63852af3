//! The integer side of the parameter tuner: parameter vectors with their
//! element-wise arithmetic and their little-endian file format, the seeded
//! generator of perturbation directions, and the reduction of a round's tally
//! to one signed score.
use vstd::prelude::*;

verus! {

/// An ordered, fixed-length vector of engine parameters.
#[derive(Clone, Debug)]
pub struct FeatureVector<T> {
    pub features: Vec<T>,
}

impl<T> FeatureVector<T> {
    /// An empty vector with room for `cap` elements.
    pub fn empty_with_capacity(cap: usize) -> (r: Self)
        ensures
            r.features@ == Seq::<T>::empty(),
    {
        FeatureVector { features: Vec::with_capacity(cap) }
    }
}

} // verus!

verus! {

/// Byte `j` (0 to 3, least significant first) of the two's-complement bits of `v`.
pub open spec fn byte_of(v: i32, j: int) -> u8 {
    let x = v as u32;
    if j == 0 {
        (x & 0xff) as u8
    } else if j == 1 {
        ((x >> 8) & 0xff) as u8
    } else if j == 2 {
        ((x >> 16) & 0xff) as u8
    } else {
        ((x >> 24) & 0xff) as u8
    }
}

/// The value whose little-endian bytes are `b0 b1 b2 b3`.
pub open spec fn word_of(b0: u8, b1: u8, b2: u8, b3: u8) -> i32 {
    ((b0 as u32) | ((b1 as u32) << 8) | ((b2 as u32) << 16) | ((b3 as u32) << 24)) as i32
}

/// The file format of a vector: four little-endian bytes per element, no header.
pub open spec fn encode(fs: Seq<i32>) -> Seq<u8> {
    Seq::new(4 * fs.len(), |k: int| byte_of(fs[k / 4], k % 4))
}

/// The elements of a file: one per whole group of four bytes; a shorter
/// tail is ignored.
pub open spec fn decode(b: Seq<u8>) -> Seq<i32> {
    Seq::new(b.len() / 4, |i: int| word_of(b[4 * i], b[4 * i + 1], b[4 * i + 2], b[4 * i + 3]))
}

proof fn lemma_word_bytes(x: u32)
    ensures
        ((((x & 0xff) as u8) as u32) | (((((x >> 8) & 0xff) as u8) as u32) << 8) | (((((x >> 16) & 0xff) as u8) as u32) << 16) | (((((x >> 24) & 0xff) as u8) as u32) << 24)) == x,
{
    assert(((((x & 0xff) as u8) as u32) | (((((x >> 8) & 0xff) as u8) as u32) << 8) | (((((x >> 16) & 0xff) as u8) as u32) << 16) | (((((x >> 24) & 0xff) as u8) as u32) << 24)) == x) by (bit_vector);
}

proof fn lemma_bytes_word(b0: u8, b1: u8, b2: u8, b3: u8)
    ensures
        ({
            let x = (b0 as u32) | ((b1 as u32) << 8) | ((b2 as u32) << 16) | ((b3 as u32) << 24);
            &&& (x & 0xff) as u8 == b0
            &&& ((x >> 8) & 0xff) as u8 == b1
            &&& ((x >> 16) & 0xff) as u8 == b2
            &&& ((x >> 24) & 0xff) as u8 == b3
        }),
{
    let x = (b0 as u32) | ((b1 as u32) << 8) | ((b2 as u32) << 16) | ((b3 as u32) << 24);
    assert((x & 0xff) as u8 == b0) by (bit_vector)
        requires x == (b0 as u32) | ((b1 as u32) << 8) | ((b2 as u32) << 16) | ((b3 as u32) << 24);
    assert(((x >> 8) & 0xff) as u8 == b1) by (bit_vector)
        requires x == (b0 as u32) | ((b1 as u32) << 8) | ((b2 as u32) << 16) | ((b3 as u32) << 24);
    assert(((x >> 16) & 0xff) as u8 == b2) by (bit_vector)
        requires x == (b0 as u32) | ((b1 as u32) << 8) | ((b2 as u32) << 16) | ((b3 as u32) << 24);
    assert(((x >> 24) & 0xff) as u8 == b3) by (bit_vector)
        requires x == (b0 as u32) | ((b1 as u32) << 8) | ((b2 as u32) << 16) | ((b3 as u32) << 24);
}

proof fn lemma_i32_u32(v: i32, x: u32)
    ensures
        (v as u32) as i32 == v,
        (x as i32) as u32 == x,
{
    assert((v as u32) as i32 == v) by (bit_vector);
    assert((x as i32) as u32 == x) by (bit_vector);
}

/// Writing a vector to its file format and reading it back gives the same
/// elements, and reading a file whose length is a multiple of four and
/// writing it back gives the same bytes.
pub proof fn lemma_binary_round_trip(fs: Seq<i32>, b: Seq<u8>)
    requires
        b.len() % 4 == 0,
    ensures
        decode(encode(fs)) == fs,
        encode(decode(b)) == b,
{
    let e = encode(fs);
    assert(e.len() / 4 == fs.len());
    assert forall|i: int| 0 <= i < fs.len() implies #[trigger] decode(e)[i] == fs[i] by {
        let x = fs[i] as u32;
        assert((4 * i) / 4 == i && (4 * i) % 4 == 0);
        assert((4 * i + 1) / 4 == i && (4 * i + 1) % 4 == 1);
        assert((4 * i + 2) / 4 == i && (4 * i + 2) % 4 == 2);
        assert((4 * i + 3) / 4 == i && (4 * i + 3) % 4 == 3);
        lemma_word_bytes(x);
        lemma_i32_u32(fs[i], x);
    }
    assert(decode(e) =~= fs);
    let d = decode(b);
    assert(4 * d.len() == b.len());
    assert forall|k: int| 0 <= k < b.len() implies #[trigger] encode(d)[k] == b[k] by {
        let i = k / 4;
        assert(4 * i <= k < 4 * i + 4);
        let x = (b[4 * i] as u32) | ((b[4 * i + 1] as u32) << 8) | ((b[4 * i + 2] as u32) << 16) | ((b[4 * i + 3] as u32) << 24);
        lemma_bytes_word(b[4 * i], b[4 * i + 1], b[4 * i + 2], b[4 * i + 3]);
        lemma_i32_u32(x as i32, x);
        assert(k == 4 * i + k % 4);
    }
    assert(encode(d) =~= b);
}

impl FeatureVector<i32> {
    /// Reads a vector from its file format; a tail shorter than four bytes is
    /// ignored.
    pub fn from_binary(b: &[u8]) -> (r: Self)
        ensures
            r.features@ == decode(b@),
    {
        let len = b.len();
        let n = len / 4;
        let mut f: Vec<i32> = Vec::with_capacity(n);
        let mut i: usize = 0;
        while i < n
            invariant
                len == b@.len(),
                n == len / 4,
                i <= n,
                f@ == decode(b@).subrange(0, i as int),
            decreases n - i,
        {
            assert(4 * i + 3 < len) by (nonlinear_arith)
                requires
                    i < n,
                    n == len / 4,
            ;
            let k = 4 * i;
            let x: u32 = (b[k] as u32) | ((b[k + 1] as u32) << 8) | ((b[k + 2] as u32) << 16) | ((b[k + 3] as u32) << 24);
            f.push(x as i32);
            i += 1;
            assert(f@ =~= decode(b@).subrange(0, i as int));
        }
        assert(decode(b@).subrange(0, n as int) =~= decode(b@));
        FeatureVector { features: f }
    }

    /// Writes the vector in its file format.
    pub fn to_binary(&self) -> (r: Vec<u8>)
        requires
            4 * self.features@.len() <= usize::MAX,
        ensures
            r@ == encode(self.features@),
    {
        let n = self.features.len();
        let mut buf: Vec<u8> = Vec::with_capacity(4 * n);
        let mut i: usize = 0;
        while i < n
            invariant
                n == self.features@.len(),
                4 * n <= usize::MAX,
                i <= n,
                buf@ == encode(self.features@).subrange(0, 4 * i),
            decreases n - i,
        {
            let x: u32 = self.features[i] as u32;
            buf.push((x & 0xff) as u8);
            buf.push(((x >> 8) & 0xff) as u8);
            buf.push(((x >> 16) & 0xff) as u8);
            buf.push(((x >> 24) & 0xff) as u8);
            proof {
                let e = encode(self.features@);
                assert((4 * i) / 4 == i && (4 * i) % 4 == 0);
                assert((4 * i + 1) / 4 == i && (4 * i + 1) % 4 == 1);
                assert((4 * i + 2) / 4 == i && (4 * i + 2) % 4 == 2);
                assert((4 * i + 3) / 4 == i && (4 * i + 3) % 4 == 3);
                assert(e[4 * i] == (x & 0xff) as u8);
            }
            i += 1;
            assert(buf@ =~= encode(self.features@).subrange(0, 4 * i));
        }
        assert(encode(self.features@).subrange(0, 4 * n) =~= encode(self.features@));
        buf
    }
}

} // verus!

verus! {

/// Whether every element-wise sum of `a` and `b` fits in an `i32`.
pub open spec fn sums_fit(a: Seq<i32>, b: Seq<i32>) -> bool {
    forall|i: int| 0 <= i < a.len() ==> i32::MIN <= #[trigger] a[i] + b[i] <= i32::MAX
}

/// Whether every element-wise difference of `a` and `b` fits in an `i32`.
pub open spec fn differences_fit(a: Seq<i32>, b: Seq<i32>) -> bool {
    forall|i: int| 0 <= i < a.len() ==> i32::MIN <= #[trigger] a[i] - b[i] <= i32::MAX
}

/// Whether every product of `k` with an element of `a` fits in an `i32`.
pub open spec fn products_fit(a: Seq<i32>, k: i32) -> bool {
    forall|i: int| 0 <= i < a.len() ==> i32::MIN <= k * #[trigger] a[i] <= i32::MAX
}

/// `n / d` rounded toward zero, as integer division in Rust rounds.
pub open spec fn quotient(n: int, d: int) -> int {
    if (n >= 0) == (d > 0) {
        (if n >= 0 { n } else { -n }) / (if d > 0 { d } else { -d })
    } else {
        -((if n >= 0 { n } else { -n }) / (if d > 0 { d } else { -d }))
    }
}

impl FeatureVector<i32> {
    /// The number of parameters.
    pub fn len(&self) -> (r: usize)
        ensures
            r == self.features@.len(),
    {
        self.features.len()
    }

    /// Element-wise sum with a vector of the same length.
    pub fn add(self, rhs: FeatureVector<i32>) -> (r: Self)
        requires
            rhs.features@.len() == self.features@.len(),
            sums_fit(self.features@, rhs.features@),
        ensures
            r.features@.len() == self.features@.len(),
            forall|i: int| 0 <= i < r.features@.len() ==> #[trigger] r.features@[i] == self.features@[i] + rhs.features@[i],
    {
        let mut out: Vec<i32> = Vec::with_capacity(self.features.len());
        let mut i: usize = 0;
        while i < self.features.len()
            invariant
                rhs.features@.len() == self.features@.len(),
                sums_fit(self.features@, rhs.features@),
                i <= self.features@.len(),
                out@.len() == i,
                forall|j: int| 0 <= j < i ==> #[trigger] out@[j] == self.features@[j] + rhs.features@[j],
            decreases self.features.len() - i,
        {
            out.push(self.features[i] + rhs.features[i]);
            i += 1;
        }
        FeatureVector { features: out }
    }

    /// Element-wise difference with a vector of the same length.
    pub fn sub(self, rhs: FeatureVector<i32>) -> (r: Self)
        requires
            rhs.features@.len() == self.features@.len(),
            differences_fit(self.features@, rhs.features@),
        ensures
            r.features@.len() == self.features@.len(),
            forall|i: int| 0 <= i < r.features@.len() ==> #[trigger] r.features@[i] == self.features@[i] - rhs.features@[i],
    {
        let mut out: Vec<i32> = Vec::with_capacity(self.features.len());
        let mut i: usize = 0;
        while i < self.features.len()
            invariant
                rhs.features@.len() == self.features@.len(),
                differences_fit(self.features@, rhs.features@),
                i <= self.features@.len(),
                out@.len() == i,
                forall|j: int| 0 <= j < i ==> #[trigger] out@[j] == self.features@[j] - rhs.features@[j],
            decreases self.features.len() - i,
        {
            out.push(self.features[i] - rhs.features[i]);
            i += 1;
        }
        FeatureVector { features: out }
    }

    /// Every element scaled by `k`.
    pub fn mul(self, k: i32) -> (r: Self)
        requires
            products_fit(self.features@, k),
        ensures
            r.features@.len() == self.features@.len(),
            forall|i: int| 0 <= i < r.features@.len() ==> #[trigger] r.features@[i] == k * self.features@[i],
    {
        let mut out: Vec<i32> = Vec::with_capacity(self.features.len());
        let mut i: usize = 0;
        while i < self.features.len()
            invariant
                products_fit(self.features@, k),
                i <= self.features@.len(),
                out@.len() == i,
                forall|j: int| 0 <= j < i ==> #[trigger] out@[j] == k * self.features@[j],
            decreases self.features.len() - i,
        {
            out.push(k * self.features[i]);
            i += 1;
        }
        FeatureVector { features: out }
    }

    /// `numerator` divided by each element, rounded toward zero.
    pub fn divide(numerator: i32, rhs: FeatureVector<i32>) -> (r: Self)
        requires
            forall|i: int| 0 <= i < rhs.features@.len() ==> #[trigger] rhs.features@[i] != 0
                && !(numerator == i32::MIN && rhs.features@[i] == -1),
        ensures
            r.features@.len() == rhs.features@.len(),
            forall|i: int| 0 <= i < r.features@.len() ==> #[trigger] r.features@[i] == quotient(numerator as int, rhs.features@[i] as int),
    {
        let mut out: Vec<i32> = Vec::with_capacity(rhs.features.len());
        let mut i: usize = 0;
        while i < rhs.features.len()
            invariant
                forall|j: int| 0 <= j < rhs.features@.len() ==> #[trigger] rhs.features@[j] != 0
                    && !(numerator == i32::MIN && rhs.features@[j] == -1),
                i <= rhs.features@.len(),
                out@.len() == i,
                forall|j: int| 0 <= j < i ==> #[trigger] out@[j] == quotient(numerator as int, rhs.features@[j] as int),
            decreases rhs.features.len() - i,
        {
            let d = rhs.features[i];
            let na: u64 = if numerator >= 0 { numerator as u64 } else { (-(numerator as i64)) as u64 };
            let da: u64 = if d > 0 { d as u64 } else { (-(d as i64)) as u64 };
            let m: u64 = na / da;
            assert(m <= na) by (nonlinear_arith)
                requires
                    da >= 1,
                    m == na / da,
            ;
            let q: i32 = if (numerator >= 0) == (d > 0) {
                assert(m <= i32::MAX) by (nonlinear_arith)
                    requires
                        m == na / da,
                        da >= 1,
                        na <= 0x8000_0000u64,
                        na == 0x8000_0000u64 ==> da >= 2,
                ;
                m as i32
            } else {
                -(m as i64) as i32
            };
            out.push(q);
            i += 1;
        }
        FeatureVector { features: out }
    }
}

} // verus!

verus! {

/// One step of the xorshift generator on 32 bits (shifts 13, 17, 5).
pub open spec fn xorshift(x: u32) -> u32 {
    let a = x ^ (x << 13);
    let b = a ^ (a >> 17);
    b ^ (b << 5)
}

/// The generator's state after `k` steps from `s`.
pub open spec fn nth_state(s: u32, k: nat) -> u32
    decreases k,
{
    if k == 0 {
        s
    } else {
        xorshift(nth_state(s, (k - 1) as nat))
    }
}

/// The direction drawn for coordinate `k` from seed `s`: +1 when the state
/// after `k + 1` steps is odd, else -1.
pub open spec fn direction(s: u32, k: nat) -> i32 {
    if nth_state(s, k + 1) % 2 == 1 {
        1i32
    } else {
        -1i32
    }
}

/// Advances the seed by one xorshift step and returns the new value.
pub fn rand(seed: &mut i32) -> (r: i32)
    ensures
        r == *final(seed),
        *final(seed) == xorshift(*old(seed) as u32) as i32,
{
    let mut p: u32 = *seed as u32;
    p = p ^ (p << 13);
    p = p ^ (p >> 17);
    p = p ^ (p << 5);
    *seed = p as i32;
    *seed
}

/// Draws a perturbation of `n` coordinates, each +1 or -1, from the seed,
/// which advances by one step per coordinate.
pub fn perturbation(seed: &mut i32, n: usize) -> (r: FeatureVector<i32>)
    ensures
        r.features@.len() == n,
        forall|k: int| 0 <= k < n ==> #[trigger] r.features@[k] == direction(*old(seed) as u32, k as nat),
        *final(seed) == nth_state(*old(seed) as u32, n as nat) as i32,
{
    let ghost s0 = *seed as u32;
    proof {
        let sv = *seed;
        assert((sv as u32) as i32 == sv) by (bit_vector);
    }
    let mut delta = FeatureVector::empty_with_capacity(n);
    let mut i: usize = 0;
    while i < n
        invariant
            i <= n,
            delta.features@.len() == i,
            forall|k: int| 0 <= k < i ==> #[trigger] delta.features@[k] == direction(s0, k as nat),
            *seed == nth_state(s0, i as nat) as i32,
        decreases n - i,
    {
        let ghost before = *seed;
        proof {
            let x = nth_state(s0, i as nat);
            assert((x as i32) as u32 == x) by (bit_vector);
        }
        let v = rand(seed);
        let bit: u32 = (v as u32) & 1;
        proof {
            let x = nth_state(s0, (i + 1) as nat);
            assert(x == xorshift(nth_state(s0, i as nat)));
            assert((x as i32) as u32 == x) by (bit_vector);
            assert(x & 1 == x % 2) by (bit_vector);
        }
        delta.features.push(if bit == 1 { 1i32 } else { -1i32 });
        i += 1;
    }
    delta
}

/// The signed score of a tuning round from its tally: twice the first bucket
/// minus the second.
pub open spec fn round_score_of(a_wins: u64, draws: u64) -> int {
    2 * (a_wins - draws)
}

/// The signed score of a tuning round: twice the count of the first bucket
/// minus the count of the second; the caller divides by the number of
/// positions.
pub fn round_score(t: &crate::scheduler::Tally) -> (r: i128)
    ensures
        r == round_score_of(t.a_wins, t.draws),
{
    2 * (t.a_wins as i128 - t.draws as i128)
}

} // verus!
