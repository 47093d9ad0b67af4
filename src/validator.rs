use vstd::prelude::*;
use vstd::string::StringSliceAdditionalSpecFns;

verus! {

/// Number of bytes in a well-formed key (`XXXX-XXXX-XXXX`).
pub const KEY_LEN: usize = 14;

/// The separator byte expected at offsets 4 and 9.
pub const DASH: u8 = 0x2d;

/// ASCII `A`, whose run of four is blacklisted.
pub const ASCII_A: u8 = 0x41;

/// ASCII `E`.
pub const ASCII_E: u8 = 0x45;

/// ASCII `S`.
pub const ASCII_S: u8 = 0x53;

/// ASCII `T`.
pub const ASCII_T: u8 = 0x54;

/// Accumulator value before the first round.
pub const INITIAL_ACC: u32 = 0x1234_5678;

/// Constant added (modulo 2^32) inside `mix`.
pub const MIX_ADD: u32 = 0x9E37_79B9;

/// Constant XORed into the result of `mix`.
pub const MIX_XOR: u32 = 0xA5A5_A5A5;

/// Constant XORed into the accumulator after each `mix`.
pub const ROUND_XOR: u32 = 0x1111_1111;

/// The accumulator value that an accepted key must reach.
pub const TARGET_ACC: u32 = 0x85FD_063D;

/// Circular left rotation of a 32-bit word by 5 bit positions.
pub open spec fn rotl5(x: u32) -> u32 {
    ((x << 5u32) | (x >> 27u32)) as u32
}

/// `(rotate_left(x ^ b, 5) + MIX_ADD) ^ MIX_XOR`, the sum taken modulo 2^32.
pub open spec fn mix_spec(x: u32, b: u8) -> u32 {
    (((rotl5(x ^ (b as u32)) as int + MIX_ADD as int) % 0x1_0000_0000) as u32) ^ MIX_XOR
}

/// Mixes one byte into the accumulator.
pub fn mix(x: u32, byte: u8) -> (r: u32)
    ensures
        r == mix_spec(x, byte),
{
    let y: u32 = x ^ (byte as u32);
    let rot: u32 = (y << 5u32) | (y >> 27u32);
    let sum: u32 = rot.wrapping_add(MIX_ADD);
    sum ^ MIX_XOR
}

/// One round: mix the byte in, then XOR the round constant.
pub open spec fn round(x: u32, b: u8) -> u32 {
    mix_spec(x, b) ^ ROUND_XOR
}

/// The accumulator after one round per byte of `s`, in order, from `INITIAL_ACC`.
pub open spec fn mixed(s: Seq<u8>) -> u32
    decreases s.len(),
{
    if s.len() == 0 {
        INITIAL_ACC
    } else {
        round(mixed(s.drop_last()), s.last())
    }
}

/// Length 14, with a dash at offsets 4 and 9.
pub open spec fn well_formed(s: Seq<u8>) -> bool {
    s.len() == KEY_LEN && s[4] == DASH && s[9] == DASH
}

/// `s` begins with the bytes of `TEST`.
pub open spec fn starts_with_test(s: Seq<u8>) -> bool {
    s.len() >= 4 && s[0] == ASCII_T && s[1] == ASCII_E && s[2] == ASCII_S && s[3] == ASCII_T
}

/// `s` holds `AAAA` at offsets `i .. i + 4`.
pub open spec fn run_of_a_at(s: Seq<u8>, i: int) -> bool {
    0 <= i && i + 4 <= s.len() && s[i] == ASCII_A && s[i + 1] == ASCII_A && s[i + 2] == ASCII_A && s[
        i + 3] == ASCII_A
}

/// `s` holds `AAAA` as a contiguous substring.
pub open spec fn contains_run_of_a(s: Seq<u8>) -> bool {
    exists|i: int| run_of_a_at(s, i)
}

/// `s` is refused by the blacklist.
pub open spec fn blacklisted(s: Seq<u8>) -> bool {
    starts_with_test(s) || contains_run_of_a(s)
}

/// `s` passes every gate that comes before the mixing rounds.
pub open spec fn passes_gates(s: Seq<u8>) -> bool {
    well_formed(s) && !blacklisted(s)
}

/// `s` is an accepted key.
pub open spec fn accepted(s: Seq<u8>) -> bool {
    passes_gates(s) && mixed(s) == TARGET_ACC
}

/// The accumulator after all rounds over `candidate`, whatever its length or form.
/// This is the value that `validate` compares with `TARGET_ACC`; it is offered for
/// diagnostics that a caller opts into.
pub fn key_accumulator(candidate: &[u8]) -> (r: u32)
    ensures
        r == mixed(candidate@),
{
    let mut x: u32 = INITIAL_ACC;
    let mut i: usize = 0;
    while i < candidate.len()
        invariant
            i <= candidate@.len(),
            x == mixed(candidate@.take(i as int)),
        decreases candidate@.len() - i,
    {
        assert(candidate@.take(i + 1).drop_last() =~= candidate@.take(i as int));
        x = mix(x, candidate[i]);
        x = x ^ ROUND_XOR;
        i = i + 1;
    }
    assert(candidate@.take(i as int) =~= candidate@);
    x
}

/// Whether `candidate` begins with `TEST`.
pub fn has_test_prefix(candidate: &[u8]) -> (r: bool)
    ensures
        r == starts_with_test(candidate@),
{
    candidate.len() >= 4 && candidate[0] == ASCII_T && candidate[1] == ASCII_E && candidate[2] == ASCII_S
        && candidate[3] == ASCII_T
}

/// Whether `candidate` holds `AAAA` anywhere.
pub fn has_run_of_a(candidate: &[u8]) -> (r: bool)
    ensures
        r == contains_run_of_a(candidate@),
{
    let n: usize = candidate.len();
    let mut i: usize = 0;
    while 4 <= n - i
        invariant
            n == candidate@.len(),
            i <= n,
            forall|j: int| 0 <= j < i ==> !run_of_a_at(candidate@, j),
        decreases n - i,
    {
        if candidate[i] == ASCII_A && candidate[i + 1] == ASCII_A && candidate[i + 2] == ASCII_A
            && candidate[i + 3] == ASCII_A {
            assert(run_of_a_at(candidate@, i as int));
            return true;
        }
        i = i + 1;
    }
    false
}

/// Whether `candidate` is an accepted key: 14 bytes, dashes at offsets 4 and 9, not
/// beginning with `TEST`, without `AAAA`, and whose accumulator after the 14 rounds
/// equals `TARGET_ACC`. Every input yields a verdict; a rejected one is mixed no further
/// than the gates.
pub fn validate(candidate: &[u8]) -> (r: bool)
    ensures
        r == accepted(candidate@),
{
    if candidate.len() != KEY_LEN {
        return false;
    }
    if candidate[4] != DASH || candidate[9] != DASH {
        return false;
    }
    if has_test_prefix(candidate) || has_run_of_a(candidate) {
        return false;
    }
    key_accumulator(candidate) == TARGET_ACC
}

/// Whether the text `input` is an accepted key, judged on its UTF-8 bytes.
pub fn verify_key(input: &str) -> (r: bool)
    ensures
        r == accepted(input.spec_bytes()),
{
    validate(input.as_bytes())
}

/// A candidate whose length is not 14 is never accepted.
pub proof fn lemma_wrong_length_rejected(s: Seq<u8>)
    requires
        s.len() != KEY_LEN,
    ensures
        !accepted(s),
{
}

/// A 14-byte candidate without a dash at offset 4, or without one at offset 9, is never
/// accepted.
pub proof fn lemma_misplaced_dash_rejected(s: Seq<u8>)
    requires
        s.len() == KEY_LEN,
        s[4] != DASH || s[9] != DASH,
    ensures
        !accepted(s),
{
}

/// A candidate that begins with `TEST` is never accepted, whatever its accumulator.
pub proof fn lemma_test_prefix_rejected(s: Seq<u8>)
    requires
        starts_with_test(s),
    ensures
        !accepted(s),
{
}

/// A candidate that holds `AAAA` at some offset `i` is never accepted.
pub proof fn lemma_run_of_a_rejected(s: Seq<u8>, i: int)
    requires
        run_of_a_at(s, i),
    ensures
        !accepted(s),
{
}

/// The verdict and the accumulator depend on the bytes alone: two equal byte sequences
/// get the same ones.
pub proof fn lemma_verdict_deterministic(a: Seq<u8>, b: Seq<u8>)
    requires
        a == b,
    ensures
        accepted(a) == accepted(b),
        mixed(a) == mixed(b),
{
}

/// For a candidate that passes the format and blacklist gates, acceptance holds exactly
/// when the accumulator reaches `TARGET_ACC`, and that accumulator is built by one round
/// per byte, in order from offset 0, starting at `INITIAL_ACC`.
pub proof fn lemma_checksum_decides(s: Seq<u8>)
    requires
        passes_gates(s),
    ensures
        accepted(s) <==> mixed(s) == TARGET_ACC,
        mixed(s.take(0)) == INITIAL_ACC,
        forall|i: int|
            0 <= i < s.len() ==> #[trigger] mixed(s.take(i + 1)) == round(mixed(s.take(i)), s[i]),
        mixed(s.take(s.len() as int)) == mixed(s),
{
    assert forall|i: int| 0 <= i < s.len() implies #[trigger] mixed(s.take(i + 1)) == round(
        mixed(s.take(i)),
        s[i],
    ) by {
        assert(s.take(i + 1).drop_last() =~= s.take(i));
    }
    assert(s.take(s.len() as int) =~= s);
}

} // verus!
