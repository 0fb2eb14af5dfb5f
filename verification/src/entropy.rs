//! Entropy taken at the moment of each key press.
//!
//! Nothing is drawn in advance: every press asks for exactly one digit, 2 or 3,
//! mixed from the wall clock's nanoseconds and sixteen bytes of operating-system
//! randomness.

use vstd::prelude::*;
use vstd::string::*;
use std::time::{Duration, SystemTime};
use crate::clock::duration_as_nanos;
use crate::text::{push_hex_digits, spec_hex_digits};

verus! {

/// One sample taken at a key press.
#[derive(Clone, Debug, Eq, PartialEq)]
pub struct EntropySample {
    pub digit: u8,
    pub fingerprint: String,
}

/// Why no sample could be taken.
#[derive(Clone, Debug, Eq, PartialEq)]
pub struct EntropyError {
    pub message: String,
}

/// What a request to an entropy source answered, as plain values: the digit
/// and fingerprint of its sample, or the message of its error.
pub type Answer = Result<(u8, Seq<char>), Seq<char>>;

/// The throw numbers a source has been asked for, oldest first.
pub type RequestLog = Seq<usize>;

/// What a source answered to each request, oldest first.
pub type AnswerLog = Seq<Answer>;

/// The answer that `r` stands for.
pub open spec fn answer_of(r: Result<EntropySample, EntropyError>) -> Answer {
    match r {
        Ok(s) => Ok((s.digit, s.fingerprint@)),
        Err(e) => Err(e.message@),
    }
}

/// A source of yarrow digits, one per throw.
pub trait EntropySource {
    /// The throw numbers this source has been asked for, oldest first. A
    /// record for the verifier only: it is never called at run time.
    spec fn asked(&self) -> RequestLog;

    /// What it answered to each of those requests, in the same order; a record
    /// for the verifier only, like `asked`.
    spec fn answers(&self) -> AnswerLog;

    /// The digit of throw number `throw_no` (1-based); it is always 2 or 3.
    /// The request and its answer are added to the source's record.
    fn next_digit(&mut self, throw_no: usize) -> (r: Result<EntropySample, EntropyError>)
        ensures
            r matches Ok(s) ==> (s.digit == 2 || s.digit == 3),
            final(self).asked() == old(self).asked().push(throw_no),
            final(self).answers() == old(self).answers().push(answer_of(r)),
    ;
}

/// The default source: clock and operating-system randomness.
pub struct SystemEntropy {
    asked: Ghost<RequestLog>,
    answers: Ghost<AnswerLog>,
}

impl SystemEntropy {
    /// A source that has not been asked anything yet.
    pub fn new() -> (r: SystemEntropy)
        ensures
            r.asked() == RequestLog::empty(),
            r.answers() == AnswerLog::empty(),
    {
        let asked: Ghost<RequestLog> = Ghost(Seq::empty());
        let answers: Ghost<AnswerLog> = Ghost(Seq::empty());
        SystemEntropy { asked, answers }
    }
}

impl EntropySource for SystemEntropy {
    closed spec fn asked(&self) -> RequestLog {
        self.asked@
    }

    closed spec fn answers(&self) -> AnswerLog {
        self.answers@
    }

    fn next_digit(&mut self, throw_no: usize) -> (r: Result<EntropySample, EntropyError>)
        ensures
            r matches Ok(s) ==> is_timing_sample(s, throw_no as u64),
    {
        let r = generate_timing_digit(throw_no);
        let asked: Ghost<RequestLog> = Ghost(self.asked@.push(throw_no));
        let answers: Ghost<AnswerLog> = Ghost(
            self.answers@.push(answer_of(r)),
        );
        self.asked = asked;
        self.answers = answers;
        r
    }
}

// ── Mixing ────────────────────────────────────────────────────────────────

/// `x` rotated left by 17 bits.
pub open spec fn spec_rotate_left_17(x: u64) -> u64 {
    (x << 17u64) | (x >> 47u64)
}

/// The SplitMix64 finaliser.
pub open spec fn spec_splitmix64(x: u64) -> u64 {
    let a = vstd::wrapping::u64_specs::wrapping_add(x, 0x9E37_79B9_7F4A_7C15u64);
    let b = vstd::wrapping::u64_specs::wrapping_mul(a ^ (a >> 30u64), 0xBF58_476D_1CE4_E5B9u64);
    let c = vstd::wrapping::u64_specs::wrapping_mul(b ^ (b >> 27u64), 0x94D0_49BB_1331_11EBu64);
    c ^ (c >> 31u64)
}

/// The little-endian value of the eight bytes of `b` from `start`.
pub open spec fn spec_le_u64(b: Seq<u8>, start: int) -> nat {
    (b[start] + 0x100 * b[start + 1] + 0x1_0000 * b[start + 2] + 0x100_0000 * b[start + 3]
        + 0x1_0000_0000 * b[start + 4] + 0x100_0000_0000 * b[start + 5] + 0x1_0000_0000_0000
        * b[start + 6] + 0x100_0000_0000_0000 * b[start + 7]) as nat
}

/// The mixed word of a throw: the clock's nanoseconds folded to 64 bits, xored
/// with the throw number rotated by 17, then each 8-byte half of the
/// operating-system bytes xored in and passed through SplitMix64.
pub open spec fn spec_mix(now_nanos: u128, os_entropy: Seq<u8>, throw_no: u64) -> u64 {
    let m0 = (now_nanos as u64) ^ ((now_nanos >> 64u128) as u64) ^ spec_rotate_left_17(throw_no);
    let m1 = spec_splitmix64(m0 ^ (spec_le_u64(os_entropy, 0) as u64));
    spec_splitmix64(m1 ^ (spec_le_u64(os_entropy, 8) as u64))
}

/// The digit of a mixed word: 2 when it is even, 3 when it is odd.
pub open spec fn spec_digit_of(mixed: u64) -> u8 {
    if mixed % 2 == 0 {
        2
    } else {
        3
    }
}

/// The fingerprint of a mixed word: "0x" and sixteen upper-case hex digits.
pub open spec fn spec_fingerprint_of(mixed: u64) -> Seq<char> {
    "0x"@ + spec_hex_digits(mixed as nat, 16)
}

/// `s` is the sample of some clock reading and some operating-system bytes at throw `throw_no`.
pub open spec fn is_timing_sample(s: EntropySample, throw_no: u64) -> bool {
    exists|now_nanos: u128, os_entropy: Seq<u8>|
        {
            let mixed = #[trigger] spec_mix(now_nanos, os_entropy, throw_no);
            &&& os_entropy.len() == 16
            &&& s.digit == spec_digit_of(mixed)
            &&& s.fingerprint@ == spec_fingerprint_of(mixed)
        }
}

proof fn lemma_xorshift_30_injective(a: u64, b: u64)
    by (bit_vector)
    requires
        a ^ (a >> 30u64) == b ^ (b >> 30u64),
    ensures
        a == b,
{
}

proof fn lemma_xorshift_27_injective(a: u64, b: u64)
    by (bit_vector)
    requires
        a ^ (a >> 27u64) == b ^ (b >> 27u64),
    ensures
        a == b,
{
}

proof fn lemma_xorshift_31_injective(a: u64, b: u64)
    by (bit_vector)
    requires
        a ^ (a >> 31u64) == b ^ (b >> 31u64),
    ensures
        a == b,
{
}

/// Multiplying by `c` modulo 2^64 is undone by multiplying by `inv`, where `c * inv == 1 + k * 2^64`.
proof fn lemma_wrapping_mul_undone(x: u64, c: u64, inv: u64, k: int)
    requires
        c * inv == 1 + k * 0x1_0000_0000_0000_0000,
    ensures
        (vstd::wrapping::u64_specs::wrapping_mul(x, c) as int * inv) % 0x1_0000_0000_0000_0000 == x,
{
    let m: int = 0x1_0000_0000_0000_0000;
    vstd::arithmetic::div_mod::lemma_mul_mod_noop_left(x * c, inv as int, m);
    assert((x * c) * inv == x * (c * inv)) by (nonlinear_arith);
    assert(x * (1 + k * m) == m * (x * k) + x) by (nonlinear_arith);
    vstd::arithmetic::div_mod::lemma_mod_multiples_vanish(x * k, x as int, m);
    vstd::arithmetic::div_mod::lemma_small_mod(x as nat, m as nat);
}

proof fn lemma_wrapping_mul_odd_injective(x: u64, y: u64, c: u64, inv: u64, k: int)
    requires
        c * inv == 1 + k * 0x1_0000_0000_0000_0000,
        vstd::wrapping::u64_specs::wrapping_mul(x, c) == vstd::wrapping::u64_specs::wrapping_mul(y, c),
    ensures
        x == y,
{
    lemma_wrapping_mul_undone(x, c, inv, k);
    lemma_wrapping_mul_undone(y, c, inv, k);
}

/// SplitMix64 is a bijection of `u64`: different inputs give different outputs.
pub proof fn law_splitmix64_injective(x: u64, y: u64)
    requires
        spec_splitmix64(x) == spec_splitmix64(y),
    ensures
        x == y,
{
    let ax = vstd::wrapping::u64_specs::wrapping_add(x, 0x9E37_79B9_7F4A_7C15u64);
    let ay = vstd::wrapping::u64_specs::wrapping_add(y, 0x9E37_79B9_7F4A_7C15u64);
    let bx = vstd::wrapping::u64_specs::wrapping_mul(ax ^ (ax >> 30u64), 0xBF58_476D_1CE4_E5B9u64);
    let by = vstd::wrapping::u64_specs::wrapping_mul(ay ^ (ay >> 30u64), 0xBF58_476D_1CE4_E5B9u64);
    let cx = vstd::wrapping::u64_specs::wrapping_mul(bx ^ (bx >> 27u64), 0x94D0_49BB_1331_11EBu64);
    let cy = vstd::wrapping::u64_specs::wrapping_mul(by ^ (by >> 27u64), 0x94D0_49BB_1331_11EBu64);
    lemma_xorshift_31_injective(cx, cy);
    assert(0x94D0_49BB_1331_11EBu64 * 0x3196_42B2_D24D_8EC3u64 == 1 + 2077064247507883091int
        * 0x1_0000_0000_0000_0000);
    lemma_wrapping_mul_odd_injective(
        bx ^ (bx >> 27u64),
        by ^ (by >> 27u64),
        0x94D0_49BB_1331_11EBu64,
        0x3196_42B2_D24D_8EC3u64,
        2077064247507883091int,
    );
    lemma_xorshift_27_injective(bx, by);
    assert(0xBF58_476D_1CE4_E5B9u64 * 0x96DE_1B17_3F11_9089u64 == 1 + 8125545580553827436int
        * 0x1_0000_0000_0000_0000);
    lemma_wrapping_mul_odd_injective(
        ax ^ (ax >> 30u64),
        ay ^ (ay >> 30u64),
        0xBF58_476D_1CE4_E5B9u64,
        0x96DE_1B17_3F11_9089u64,
        8125545580553827436int,
    );
    lemma_xorshift_30_injective(ax, ay);
}

fn rotate_left_17(x: u64) -> (r: u64)
    ensures
        r == spec_rotate_left_17(x),
{
    (x << 17u64) | (x >> 47u64)
}

/// The SplitMix64 finaliser.
pub fn splitmix64(x: u64) -> (r: u64)
    ensures
        r == spec_splitmix64(x),
{
    let a = x.wrapping_add(0x9E37_79B9_7F4A_7C15);
    let b = (a ^ (a >> 30u64)).wrapping_mul(0xBF58_476D_1CE4_E5B9);
    let c = (b ^ (b >> 27u64)).wrapping_mul(0x94D0_49BB_1331_11EB);
    c ^ (c >> 31u64)
}

fn le_u64(b: &[u8; 16], start: usize) -> (r: u64)
    requires
        start == 0 || start == 8,
    ensures
        r == spec_le_u64(b@, start as int),
{
    b[start] as u64 + 0x100 * (b[start + 1] as u64) + 0x1_0000 * (b[start + 2] as u64) + 0x100_0000
        * (b[start + 3] as u64) + 0x1_0000_0000 * (b[start + 4] as u64) + 0x100_0000_0000 * (
    b[start + 5] as u64) + 0x1_0000_0000_0000 * (b[start + 6] as u64) + 0x100_0000_0000_0000 * (
    b[start + 7] as u64)
}

/// The mixed word of a clock reading, sixteen operating-system bytes and a throw number.
pub fn mix_entropy(now_nanos: u128, os_entropy: &[u8; 16], throw_no: usize) -> (r: u64)
    ensures
        r == spec_mix(now_nanos, os_entropy@, throw_no as u64),
{
    let mut mixed = (now_nanos as u64) ^ ((now_nanos >> 64u128) as u64) ^ rotate_left_17(
        throw_no as u64,
    );
    mixed = splitmix64(mixed ^ le_u64(os_entropy, 0));
    mixed = splitmix64(mixed ^ le_u64(os_entropy, 8));
    mixed
}

/// The sample of a mixed word: its digit and its fingerprint.
pub fn sample_from_mix(mixed: u64) -> (r: EntropySample)
    ensures
        r.digit == spec_digit_of(mixed),
        r.fingerprint@ == spec_fingerprint_of(mixed),
{
    assert(mixed & 1 == mixed % 2) by (bit_vector);
    let digit = if mixed & 1 == 0 {
        2
    } else {
        3
    };
    let mut fingerprint = String::from_str("0x");
    proof {
        reveal_strlit("0x");
    }
    push_hex_digits(&mut fingerprint, mixed, 16);
    EntropySample { digit, fingerprint }
}

// ── Outside calls ─────────────────────────────────────────────────────────

#[verifier::external_type_specification]
#[verifier::external_body]
pub struct ExSystemTime(SystemTime);

#[verifier::external_type_specification]
#[verifier::external_body]
pub struct ExRandomError(getrandom::Error);

/// `std::time::SystemTime::now`: the wall clock now; nothing is promised of the value.
#[verifier::external_body]
fn system_time_now() -> SystemTime {
    SystemTime::now()
}

/// `SystemTime::duration_since(UNIX_EPOCH)`, `None` where the clock stands
/// before the epoch; nothing is promised of the duration.
#[verifier::external_body]
fn duration_since_unix_epoch(t: &SystemTime) -> Option<Duration> {
    t.duration_since(std::time::UNIX_EPOCH).ok()
}

/// `getrandom::fill` on sixteen bytes: fills them from the operating system's
/// random source or reports its error; nothing is promised of the bytes.
#[verifier::external_body]
fn fill_os_random(dest: &mut [u8; 16]) -> Result<(), getrandom::Error> {
    getrandom::fill(dest)
}

/// The `Display` text of a `getrandom::Error`; nothing is promised of the text.
#[verifier::external_body]
fn random_error_message(e: &getrandom::Error) -> String {
    format!("{}", e)
}

/// Takes one digit at the moment of a key press, mixing the clock's nanoseconds
/// since the Unix epoch (0 where the clock stands before it) with sixteen bytes
/// of operating-system randomness and the throw number.
pub fn generate_timing_digit(throw_no: usize) -> (r: Result<EntropySample, EntropyError>)
    ensures
        r matches Ok(s) ==> {
            &&& s.digit == 2 || s.digit == 3
            &&& s.fingerprint@.take(2) == "0x"@
            &&& is_timing_sample(s, throw_no as u64)
        },
{
    let now_nanos = match duration_since_unix_epoch(&system_time_now()) {
        Some(d) => duration_as_nanos(&d),
        None => 0,
    };
    let mut os_entropy = [0u8; 16];
    match fill_os_random(&mut os_entropy) {
        Ok(()) => {},
        Err(e) => {
            return Err(EntropyError { message: random_error_message(&e) });
        },
    }
    let mixed = mix_entropy(now_nanos, &os_entropy, throw_no);
    let sample = sample_from_mix(mixed);
    proof {
        reveal_strlit("0x");
        assert(sample.fingerprint@.take(2) =~= "0x"@);
        assert(os_entropy@.len() == 16);
    }
    Ok(sample)
}

} // verus!
