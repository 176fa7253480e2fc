//! Seeding schedule of the lagged Fibonacci generator (Knuth, TAOCP vol. 2,
//! section 3.6).
//!
//! Seeding raises the generator's polynomial to a power given by the seed:
//! it runs one round per binary digit of the seed's low 30 bits, lowest digit
//! first, each round "squaring" the state and, when the digit is one, also
//! "multiplying by z"; the configuration's number of squaring rounds follow
//! ([`SEED_TAIL_ROUNDS`] by default, [`HIGH_QUALITY_TAIL_ROUNDS`] in Knuth's
//! full-quality setting). This
//! module computes that schedule; the rounds themselves work on the
//! generator's floating-point state elsewhere.
use vstd::prelude::*;

verus! {

/// Number of squaring rounds that follow the seed's digits in the generator's
/// default, low-quality configuration (enough for painting).
pub const SEED_TAIL_ROUNDS: usize = 7;

/// Number of squaring rounds that follow the seed's digits in Knuth's
/// full-quality configuration of the generator.
pub const HIGH_QUALITY_TAIL_ROUNDS: usize = 70;

/// The binary digits of `s`, lowest first, up to its highest one digit.
pub open spec fn binary_digits(s: nat) -> Seq<bool>
    decreases s,
{
    if s == 0 {
        Seq::empty()
    } else {
        seq![s % 2 == 1] + binary_digits(s / 2)
    }
}

/// The rounds of seeding with `tail` squaring rounds after the seed's digits:
/// for each round, whether it multiplies by `z`.
pub open spec fn seed_rounds_with_tail(seed: u64, tail: nat) -> Seq<bool> {
    binary_digits((seed % 0x4000_0000) as nat) + Seq::new(tail, |i: int| false)
}

/// The rounds of seeding in the default configuration.
pub open spec fn seed_rounds(seed: u64) -> Seq<bool> {
    seed_rounds_with_tail(seed, SEED_TAIL_ROUNDS as nat)
}

/// The value is odd.
pub fn is_odd(s: u64) -> (odd: bool)
    ensures
        odd == (s % 2 == 1),
{
    assert((s & 1 == 1) == (s % 2 == 1)) by (bit_vector);
    s & 1 == 1
}

/// Returns the seeding schedule for `seed` in the default configuration: one
/// entry per round, telling whether that round multiplies by `z` after
/// squaring.
pub fn seed_schedule(seed: u64) -> (rounds: Vec<bool>)
    ensures
        rounds@ == seed_rounds(seed),
{
    seed_schedule_with_tail(seed, SEED_TAIL_ROUNDS)
}

/// Returns the seeding schedule for `seed` with `tail_rounds` squaring rounds
/// after the seed's digits (the configuration's `TT`): one entry per round,
/// telling whether that round multiplies by `z` after squaring.
pub fn seed_schedule_with_tail(seed: u64, tail_rounds: usize) -> (rounds: Vec<bool>)
    ensures
        rounds@ == seed_rounds_with_tail(seed, tail_rounds as nat),
{
    assert(seed & 0x3fff_ffff == seed % 0x4000_0000) by (bit_vector);
    let mut s: u64 = seed & 0x3fff_ffff;
    let ghost start = s as nat;
    let mut rounds: Vec<bool> = Vec::new();
    while s != 0
        invariant
            rounds@ + binary_digits(s as nat) == binary_digits(start),
        decreases s,
    {
        let ghost before = rounds@;
        let odd = is_odd(s);
        rounds.push(odd);
        assert(s >> 1 == s / 2) by (bit_vector);
        assert(binary_digits(s as nat) == seq![odd] + binary_digits((s / 2) as nat));
        assert(rounds@ + binary_digits((s / 2) as nat) =~= before + binary_digits(s as nat));
        s = s >> 1;
    }
    assert(rounds@ =~= binary_digits(start));
    let mut k: usize = 0;
    while k < tail_rounds
        invariant
            k <= tail_rounds,
            start == (seed % 0x4000_0000) as nat,
            rounds@ =~= binary_digits(start) + Seq::new(k as nat, |i: int| false),
        decreases tail_rounds - k,
    {
        rounds.push(false);
        k = k + 1;
    }
    rounds
}

} // verus!
