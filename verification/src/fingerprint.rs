//! Fingerprint similarity by Hamming distance.
//!
//! A fingerprint is a sequence of 32-bit words stored as little-endian bytes.
//! Two fingerprints are compared word by word over their common prefix; the
//! similarity is the share of bit positions on which the words agree.

use crate::error::AppError;
use sha2::Digest;
use vstd::arithmetic::power2::{lemma2_to64, lemma_pow2_unfold, pow2};
use vstd::prelude::*;
use vstd::string::StringExecFns;

verus! {

/// One in the fixed-point scale of [`Confidence`]: eighteen decimal places.
pub const CONFIDENCE_ONE: u64 = 1_000_000_000_000_000_000;

/// Largest number of bits two byte buffers can be compared on.
pub const MAX_TOTAL_BITS: u128 = 0x8_0000_0000_0000_0000;

/// Number of set bits in a 32-bit word.
pub open spec fn popcount(x: u32) -> nat
    decreases x,
{
    if x == 0 {
        0
    } else {
        (x % 2) as nat + popcount(x / 2)
    }
}

/// The `i`-th little-endian 32-bit word of `bytes`.
pub open spec fn word_at(bytes: Seq<u8>, i: int) -> u32
    recommends
        0 <= i,
        4 * i + 3 < bytes.len(),
{
    (bytes[4 * i] as int + 256 * (bytes[4 * i + 1] as int) + 65536 * (bytes[4 * i + 2] as int)
        + 16777216 * (bytes[4 * i + 3] as int)) as u32
}

/// Number of word pairs that a comparison of `a` and `b` looks at: the
/// complete words of the shorter buffer.
pub open spec fn compared_words(a: Seq<u8>, b: Seq<u8>) -> nat {
    if a.len() / 4 <= b.len() / 4 {
        a.len() / 4
    } else {
        b.len() / 4
    }
}

/// Bits on which the `i`-th words of `a` and `b` agree.
pub open spec fn agreeing_bits_at(a: Seq<u8>, b: Seq<u8>, i: int) -> nat {
    (32 - popcount(word_at(a, i) ^ word_at(b, i))) as nat
}

/// Bits on which the first `n` word pairs of `a` and `b` agree.
pub open spec fn agreeing_bits_upto(a: Seq<u8>, b: Seq<u8>, n: nat) -> nat
    decreases n,
{
    if n == 0 {
        0
    } else {
        agreeing_bits_upto(a, b, (n - 1) as nat) + agreeing_bits_at(a, b, n - 1)
    }
}

/// Bits on which `a` and `b` agree, over all compared word pairs.
pub open spec fn matching_bits(a: Seq<u8>, b: Seq<u8>) -> nat {
    agreeing_bits_upto(a, b, compared_words(a, b))
}

/// Bits that a comparison of `a` and `b` looks at.
pub open spec fn total_bits(a: Seq<u8>, b: Seq<u8>) -> nat {
    32 * compared_words(a, b)
}

/// The fraction `matching / total` in the scale of [`Confidence`], rounded
/// down; zero where nothing was compared.
pub open spec fn scaled_ratio(matching: nat, total: nat) -> nat {
    if total == 0 {
        0
    } else {
        (matching * CONFIDENCE_ONE as nat) / total
    }
}

/// A fraction between zero and one (values above one are representable, and
/// order after it), in fixed point: `scaled / CONFIDENCE_ONE`.
#[derive(Clone, Copy, Debug, PartialEq, Eq, Structural)]
pub struct Confidence {
    pub scaled: u64,
}

impl Confidence {
    /// The confidence 0.
    pub fn zero() -> (c: Confidence)
        ensures
            c.scaled == 0,
    {
        Confidence { scaled: 0 }
    }

    /// The confidence 1.
    pub fn one() -> (c: Confidence)
        ensures
            c.scaled == CONFIDENCE_ONE,
    {
        Confidence { scaled: CONFIDENCE_ONE }
    }

    /// `numerator / denominator` rounded down to the fixed-point scale; zero
    /// for a zero denominator. Fractions above one are cut to `u64::MAX`
    /// where they do not fit.
    pub fn from_ratio(numerator: u64, denominator: u64) -> (c: Confidence)
        ensures
            c.scaled as nat == if scaled_ratio(numerator as nat, denominator as nat) <= u64::MAX {
                scaled_ratio(numerator as nat, denominator as nat)
            } else {
                u64::MAX as nat
            },
    {
        if denominator == 0 {
            return Confidence { scaled: 0 };
        }
        assert(numerator as u128 * CONFIDENCE_ONE as u128 <= u64::MAX as u128 * CONFIDENCE_ONE as u128)
            by (nonlinear_arith)
            requires
                numerator <= u64::MAX,
        ;
        let q: u128 = (numerator as u128 * CONFIDENCE_ONE as u128) / (denominator as u128);
        if q > u64::MAX as u128 {
            Confidence { scaled: u64::MAX }
        } else {
            Confidence { scaled: q as u64 }
        }
    }

    /// Whether `self` is at least `other`.
    pub fn at_least(&self, other: &Confidence) -> (r: bool)
        ensures
            r == (self.scaled >= other.scaled),
    {
        self.scaled >= other.scaled
    }

    /// The larger of the two.
    pub fn max(self, other: Confidence) -> (c: Confidence)
        ensures
            c.scaled == if self.scaled >= other.scaled { self.scaled } else { other.scaled },
    {
        if self.scaled >= other.scaled {
            self
        } else {
            other
        }
    }
}

/// What a comparison of two fingerprints found: the number of bits looked at
/// and the number of those on which the two agree.
#[derive(Clone, Copy, Debug)]
pub struct Similarity {
    matching: u128,
    total: u128,
}

impl Similarity {
    #[verifier::type_invariant]
    spec fn well_formed(self) -> bool {
        self.matching <= self.total && self.total <= MAX_TOTAL_BITS
    }

    /// Bits on which the fingerprints agree.
    pub closed spec fn spec_matching_bits(&self) -> nat {
        self.matching as nat
    }

    /// Bits compared.
    pub closed spec fn spec_total_bits(&self) -> nat {
        self.total as nat
    }

    /// Bits on which the fingerprints agree.
    pub fn matching_bits(&self) -> (n: u128)
        ensures
            n == self.spec_matching_bits(),
            n <= self.spec_total_bits(),
    {
        proof {
            use_type_invariant(self);
        }
        self.matching
    }

    /// Bits compared.
    pub fn total_bits(&self) -> (n: u128)
        ensures
            n == self.spec_total_bits(),
            n <= MAX_TOTAL_BITS,
    {
        proof {
            use_type_invariant(self);
        }
        self.total
    }

    /// The similarity as a fraction: `matching / total`, zero where nothing
    /// was compared.
    pub fn confidence(&self) -> (c: Confidence)
        ensures
            c.scaled as nat == scaled_ratio(self.spec_matching_bits(), self.spec_total_bits()),
            c.scaled <= CONFIDENCE_ONE,
    {
        proof {
            use_type_invariant(self);
        }
        if self.total == 0 {
            return Confidence { scaled: 0 };
        }
        let one: u128 = CONFIDENCE_ONE as u128;
        assert(self.matching * one <= self.total * one <= MAX_TOTAL_BITS * one) by (nonlinear_arith)
            requires
                self.matching <= self.total <= MAX_TOTAL_BITS,
                one >= 0,
        ;
        let q: u128 = (self.matching * one) / self.total;
        assert(q <= one) by (nonlinear_arith)
            requires
                q == (self.matching * one) / (self.total as int),
                self.matching * one <= self.total * one,
                self.total > 0,
        ;
        Confidence { scaled: q as u64 }
    }
}

/// A word has at most as many set bits as it has binary digits.
proof fn lemma_popcount_digits(x: u32, k: nat)
    requires
        (x as nat) < pow2(k),
    ensures
        popcount(x) <= k,
    decreases k,
{
    if k == 0 {
        lemma2_to64();
    } else if x != 0 {
        lemma_pow2_unfold(k);
        lemma_popcount_digits(x / 2, (k - 1) as nat);
    }
}

/// No 32-bit word has more than 32 set bits.
pub proof fn lemma_popcount_bound(x: u32)
    ensures
        popcount(x) <= 32,
{
    lemma2_to64();
    lemma_popcount_digits(x, 32);
}

/// The agreeing bits of `n` word pairs are at most `32 * n`.
pub proof fn lemma_agreeing_bits_bound(a: Seq<u8>, b: Seq<u8>, n: nat)
    ensures
        agreeing_bits_upto(a, b, n) <= 32 * n,
    decreases n,
{
    if n > 0 {
        lemma_agreeing_bits_bound(a, b, (n - 1) as nat);
        lemma_popcount_bound(word_at(a, n - 1) ^ word_at(b, n - 1));
    }
}

/// Counts the set bits of `x`.
pub fn count_ones(x: u32) -> (n: u32)
    ensures
        n == popcount(x),
        n <= 32,
{
    let mut rest: u32 = x;
    let mut n: u32 = 0;
    proof {
        lemma_popcount_bound(x);
    }
    while rest != 0
        invariant
            n + popcount(rest) == popcount(x),
            popcount(x) <= 32,
        decreases rest,
    {
        n = n + rest % 2;
        rest = rest / 2;
    }
    n
}

/// Reads the `i`-th little-endian word of `bytes`.
pub fn read_word(bytes: &[u8], i: usize) -> (w: u32)
    requires
        4 * i + 3 < bytes@.len(),
    ensures
        w == word_at(bytes@, i as int),
{
    // The length of a slice fits in a `usize`, and so do the indexes below.
    let _length: usize = bytes.len();
    let b0: u32 = bytes[4 * i] as u32;
    let b1: u32 = bytes[4 * i + 1] as u32;
    let b2: u32 = bytes[4 * i + 2] as u32;
    let b3: u32 = bytes[4 * i + 3] as u32;
    b0 + 256 * b1 + 65536 * b2 + 16777216 * b3
}

/// Compares two fingerprints by Hamming distance.
///
/// Each buffer is read as little-endian 32-bit words; a trailing partial word
/// is ignored, and so is what the longer buffer has beyond the shorter. The
/// result counts the bits compared and the bits that agree. An empty buffer,
/// or one shorter than a word, gives zero of both.
pub fn compare_fingerprints(fp1: &[u8], fp2: &[u8]) -> (sim: Similarity)
    ensures
        sim.spec_matching_bits() == matching_bits(fp1@, fp2@),
        sim.spec_total_bits() == total_bits(fp1@, fp2@),
{
    let n1: usize = fp1.len() / 4;
    let n2: usize = fp2.len() / 4;
    let n: usize = if n1 <= n2 { n1 } else { n2 };
    let mut matching: u128 = 0;
    let mut i: usize = 0;
    while i < n
        invariant
            i <= n,
            n == compared_words(fp1@, fp2@),
            matching == agreeing_bits_upto(fp1@, fp2@, i as nat),
            matching <= 32 * i,
        decreases n - i,
    {
        let w1: u32 = read_word(fp1, i);
        let w2: u32 = read_word(fp2, i);
        let differing: u32 = count_ones(w1 ^ w2);
        matching = matching + (32 - differing) as u128;
        i = i + 1;
    }
    Similarity { matching, total: 32 * (n as u128) }
}

/// Two fingerprints agree on no more bits than are compared, so their
/// similarity is between zero and one.
pub proof fn lemma_similarity_at_most_one(a: Seq<u8>, b: Seq<u8>)
    ensures
        matching_bits(a, b) <= total_bits(a, b),
        scaled_ratio(matching_bits(a, b), total_bits(a, b)) <= CONFIDENCE_ONE,
{
    lemma_agreeing_bits_bound(a, b, compared_words(a, b));
    let m = matching_bits(a, b) as int;
    let t = total_bits(a, b) as int;
    let one = CONFIDENCE_ONE as int;
    if t > 0 {
        assert((m * one) / t <= one) by (nonlinear_arith)
            requires
                0 <= m <= t,
                t > 0,
                one >= 0,
        ;
    }
}

/// A fingerprint agrees with itself on every bit compared.
pub proof fn lemma_self_similarity(a: Seq<u8>)
    ensures
        matching_bits(a, a) == total_bits(a, a),
        a.len() >= 4 ==> total_bits(a, a) > 0,
        a.len() >= 4 ==> scaled_ratio(matching_bits(a, a), total_bits(a, a)) == CONFIDENCE_ONE,
{
    lemma_self_agreement(a, compared_words(a, a));
    let t = total_bits(a, a);
    if a.len() >= 4 {
        assert((t * CONFIDENCE_ONE as nat) / t == CONFIDENCE_ONE as nat) by (nonlinear_arith)
            requires
                t > 0,
        ;
    }
}

proof fn lemma_self_agreement(a: Seq<u8>, n: nat)
    ensures
        agreeing_bits_upto(a, a, n) == 32 * n,
    decreases n,
{
    if n > 0 {
        lemma_self_agreement(a, (n - 1) as nat);
        let w = word_at(a, n - 1);
        assert(w ^ w == 0) by (bit_vector);
    }
}

/// Comparing with an empty fingerprint looks at nothing, so the similarity is
/// zero.
pub proof fn lemma_empty_similarity(a: Seq<u8>, b: Seq<u8>)
    requires
        a.len() == 0 || b.len() == 0,
    ensures
        matching_bits(a, b) == 0,
        total_bits(a, b) == 0,
        scaled_ratio(matching_bits(a, b), total_bits(a, b)) == 0,
{
}

/// Similarity does not depend on the order of the two fingerprints.
pub proof fn lemma_similarity_symmetric(a: Seq<u8>, b: Seq<u8>)
    ensures
        matching_bits(a, b) == matching_bits(b, a),
        total_bits(a, b) == total_bits(b, a),
        scaled_ratio(matching_bits(a, b), total_bits(a, b)) == scaled_ratio(
            matching_bits(b, a),
            total_bits(b, a),
        ),
{
    lemma_agreement_symmetric(a, b, compared_words(a, b));
}

proof fn lemma_agreement_symmetric(a: Seq<u8>, b: Seq<u8>, n: nat)
    ensures
        agreeing_bits_upto(a, b, n) == agreeing_bits_upto(b, a, n),
    decreases n,
{
    if n > 0 {
        lemma_agreement_symmetric(a, b, (n - 1) as nat);
        let x = word_at(a, n - 1);
        let y = word_at(b, n - 1);
        assert(x ^ y == y ^ x) by (bit_vector);
    }
}

/// The SHA-256 digest of `data`.
pub uninterp spec fn sha256_digest(data: Seq<u8>) -> Seq<u8>;

/// The sixteen lower-case hexadecimal digits, in order of value.
pub open spec fn hex_digits() -> Seq<char> {
    seq!['0', '1', '2', '3', '4', '5', '6', '7', '8', '9', 'a', 'b', 'c', 'd', 'e', 'f']
}

/// `bytes` in lower-case hexadecimal: two digits for each byte, the high
/// half first.
pub open spec fn hex_lower(bytes: Seq<u8>) -> Seq<char> {
    Seq::new(
        2 * bytes.len(),
        |i: int|
            if i % 2 == 0 {
                hex_digits()[bytes[i / 2] as int / 16]
            } else {
                hex_digits()[bytes[i / 2] as int % 16]
            },
    )
}

/// `sha2::Sha256::digest`. The result is taken to be a function of the input
/// alone, 32 bytes long.
#[verifier::external_body]
fn sha256(data: &[u8]) -> (digest: Vec<u8>)
    ensures
        digest@ == sha256_digest(data@),
        digest@.len() == 32,
{
    sha2::Sha256::digest(data).to_vec()
}

/// `hex::encode`. The result is taken to hold, for each input byte in order,
/// the lower-case hexadecimal digit of its high half and then of its low half.
#[verifier::external_body]
fn hex_encode(bytes: &[u8]) -> (text: String)
    ensures
        text@ == hex_lower(bytes@),
{
    hex::encode(bytes)
}

/// The hash by which a fingerprint is told from others without comparing it
/// bit by bit: its SHA-256 digest in lower-case hexadecimal, 64 characters.
pub fn compute_fingerprint_hash(fingerprint: &[u8]) -> (hash: String)
    ensures
        hash@ == hex_lower(sha256_digest(fingerprint@)),
        hash@.len() == 64,
{
    let digest = sha256(fingerprint);
    hex_encode(digest.as_slice())
}

/// Serialises fingerprint words as little-endian bytes, four for each value.
/// A value is cut to its low 32 bits.
pub fn fingerprint_from_values(values: &[i64]) -> (bytes: Vec<u8>)
    ensures
        bytes@.len() == 4 * values@.len(),
        forall|i: int| 0 <= i < values@.len() ==> word_at(bytes@, i) == values@[i] as u32,
{
    let mut bytes: Vec<u8> = Vec::new();
    let n: usize = values.len();
    let mut i: usize = 0;
    while i < n
        invariant
            i <= n,
            n == values@.len(),
            bytes@.len() == 4 * i,
            forall|j: int| 0 <= j < i ==> word_at(bytes@, j) == values@[j] as u32,
        decreases n - i,
    {
        let w: u32 = #[verifier::truncate]
        (values[i] as u32);
        let ghost before = bytes@;
        bytes.push((w % 256) as u8);
        bytes.push((w / 256 % 256) as u8);
        bytes.push((w / 65536 % 256) as u8);
        bytes.push((w / 16777216) as u8);
        proof {
            assert forall|j: int| 0 <= j < i + 1 implies word_at(bytes@, j) == values@[j] as u32 by {
                if j < i {
                    assert(word_at(bytes@, j) == word_at(before, j));
                }
            }
        }
        i = i + 1;
    }
    bytes
}

/// What came of running the fingerprint extractor on a file.
#[derive(Debug, Clone)]
pub enum ExtractorReport {
    /// The extractor could not be started.
    NotRun(String),
    /// The extractor ran and failed; what it wrote to its error output.
    Failed(String),
    /// The extractor's output is not the JSON it should be.
    Unreadable(String),
    /// The output names no duration.
    NoDuration,
    /// The output holds no fingerprint.
    NoFingerprint,
    /// The words of the fingerprint.
    Fingerprint(Vec<i64>),
}

/// Turns the report of the extractor into the fingerprint of the file.
///
/// Fails with `DependencyMissing` where the extractor could not be started,
/// and with a `Fingerprint` error where it failed or its output lacks
/// something. Otherwise the fingerprint is the words of the report as
/// little-endian bytes.
pub fn extract_fingerprint_from_file(report: &ExtractorReport) -> (fingerprint: Result<
    Vec<u8>,
    AppError,
>)
    ensures
        match report {
            ExtractorReport::NotRun(_) => fingerprint matches Err(AppError::DependencyMissing(_)),
            ExtractorReport::Fingerprint(values) => fingerprint matches Ok(bytes) && bytes@.len()
                == 4 * values@.len() && forall|i: int|
                0 <= i < values@.len() ==> word_at(bytes@, i) == values@[i] as u32,
            _ => fingerprint matches Err(AppError::Fingerprint(_)),
        },
{
    match report {
        ExtractorReport::NotRun(why) => Err(
            AppError::DependencyMissing(
                String::from_str("fpcalc could not be run: ").concat(why.as_str()),
            ),
        ),
        ExtractorReport::Failed(output) => Err(
            AppError::Fingerprint(String::from_str("fpcalc failed: ").concat(output.as_str())),
        ),
        ExtractorReport::Unreadable(why) => Err(
            AppError::Fingerprint(
                String::from_str("the output of fpcalc could not be read: ").concat(why.as_str()),
            ),
        ),
        ExtractorReport::NoDuration => Err(
            AppError::Fingerprint(String::from_str("the output of fpcalc names no duration")),
        ),
        ExtractorReport::NoFingerprint => Err(
            AppError::Fingerprint(String::from_str("the output of fpcalc holds no fingerprint")),
        ),
        ExtractorReport::Fingerprint(values) => Ok(fingerprint_from_values(values.as_slice())),
    }
}

} // verus!
