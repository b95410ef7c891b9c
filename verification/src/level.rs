//! The level counter: an integer level paired with its displayed label,
//! advanced by a repeating two-second timer fed from per-frame delta time.
//!
//! The counter accumulates elapsed milliseconds; every full period elapsed
//! raises the level by one (several at once after a long stall) and the
//! label is regenerated, so it always reads exactly `Level {level}`. The
//! level saturates at the limit of its integer type instead of wrapping.

use vstd::prelude::*;
use vstd::arithmetic::div_mod::{
    lemma_fundamental_div_mod, lemma_hoist_over_denominator, lemma_mod_multiples_vanish,
    lemma_multiply_divide_lt,
};

verus! {

/// The timer's period: the level rises once per this many milliseconds.
pub const LEVEL_PERIOD_MS: u32 = 2000;

/// The decimal digit character for `d`.
pub open spec fn digit_char(d: nat) -> char {
    if d == 0 {
        '0'
    } else if d == 1 {
        '1'
    } else if d == 2 {
        '2'
    } else if d == 3 {
        '3'
    } else if d == 4 {
        '4'
    } else if d == 5 {
        '5'
    } else if d == 6 {
        '6'
    } else if d == 7 {
        '7'
    } else if d == 8 {
        '8'
    } else {
        '9'
    }
}

/// The decimal digits of `n`, most significant first, with no leading
/// zeros (a single `'0'` for zero itself).
pub open spec fn dec_seq(n: nat) -> Seq<char>
    decreases n,
{
    if n < 10 {
        seq![digit_char(n)]
    } else {
        dec_seq(n / 10).push(digit_char(n % 10))
    }
}

/// The text displayed for level `n`.
pub open spec fn label_seq(n: nat) -> Seq<char> {
    "Level "@ + dec_seq(n)
}

/// The one-character string for the decimal digit `d`.
fn digit_str(d: u8) -> (r: &'static str)
    requires
        d < 10,
    ensures
        r@ == seq![digit_char(d as nat)],
{
    if d == 0 {
        proof {
            reveal_strlit("0");
            assert("0"@ =~= seq!['0']);
        }
        "0"
    } else if d == 1 {
        proof {
            reveal_strlit("1");
            assert("1"@ =~= seq!['1']);
        }
        "1"
    } else if d == 2 {
        proof {
            reveal_strlit("2");
            assert("2"@ =~= seq!['2']);
        }
        "2"
    } else if d == 3 {
        proof {
            reveal_strlit("3");
            assert("3"@ =~= seq!['3']);
        }
        "3"
    } else if d == 4 {
        proof {
            reveal_strlit("4");
            assert("4"@ =~= seq!['4']);
        }
        "4"
    } else if d == 5 {
        proof {
            reveal_strlit("5");
            assert("5"@ =~= seq!['5']);
        }
        "5"
    } else if d == 6 {
        proof {
            reveal_strlit("6");
            assert("6"@ =~= seq!['6']);
        }
        "6"
    } else if d == 7 {
        proof {
            reveal_strlit("7");
            assert("7"@ =~= seq!['7']);
        }
        "7"
    } else if d == 8 {
        proof {
            reveal_strlit("8");
            assert("8"@ =~= seq!['8']);
        }
        "8"
    } else {
        proof {
            reveal_strlit("9");
            assert("9"@ =~= seq!['9']);
        }
        "9"
    }
}

/// Appends the decimal digits of `n` to `out`.
fn append_decimal(n: u32, out: &mut String)
    ensures
        final(out)@ == old(out)@ + dec_seq(n as nat),
    decreases n,
{
    if n >= 10 {
        append_decimal(n / 10, out);
    }
    let d: u8 = (n % 10) as u8;
    out.append(digit_str(d));
    proof {
        if n < 10 {
            assert(old(out)@ + seq![digit_char(n as nat)] =~= old(out)@ + dec_seq(n as nat));
        } else {
            assert((old(out)@ + dec_seq((n / 10) as nat)) + seq![digit_char((n % 10) as nat)]
                =~= old(out)@ + dec_seq(n as nat));
        }
    }
}

/// Renders the label text for level `n`.
fn make_label(n: u32) -> (s: String)
    ensures
        s@ == label_seq(n as nat),
{
    let mut s = String::from_str("Level ");
    append_decimal(n, &mut s);
    s
}

/// The level counter together with its displayed label.
pub struct LevelCounter {
    /// The current level, starting at one.
    pub level: u32,
    /// Milliseconds accumulated towards the next period, below
    /// `LEVEL_PERIOD_MS`.
    pub rem_ms: u32,
    /// The displayed text, always exactly `Level {level}`.
    pub label: String,
}

/// Periods completed once `delta` more milliseconds follow `rem`
/// accumulated ones.
pub open spec fn levels_fired(rem: nat, delta: nat) -> nat {
    (rem + delta) / (LEVEL_PERIOD_MS as nat)
}

/// Milliseconds left over after those periods.
pub open spec fn next_rem(rem: nat, delta: nat) -> nat {
    (rem + delta) % (LEVEL_PERIOD_MS as nat)
}

/// The level after one frame: one step per completed period, saturating
/// at the counter's limit.
pub open spec fn next_level(level: nat, rem: nat, delta: nat) -> nat {
    if level + levels_fired(rem, delta) <= u32::MAX as nat {
        level + levels_fired(rem, delta)
    } else {
        u32::MAX as nat
    }
}

impl LevelCounter {
    /// The counter's invariant: the leftover time is below one period and
    /// the label reads exactly `Level {level}`.
    pub open spec fn wf(self) -> bool {
        &&& self.rem_ms < LEVEL_PERIOD_MS
        &&& self.label@ == label_seq(self.level as nat)
        &&& self.level >= 1
    }

    /// A fresh counter at level one with an empty timer.
    pub fn new() -> (c: LevelCounter)
        ensures
            c.wf(),
            c.level == 1,
            c.rem_ms == 0,
    {
        let label = make_label(1);
        LevelCounter { level: 1, rem_ms: 0, label }
    }

    /// Advances the timer by `delta_ms` milliseconds of frame time,
    /// raising the level once per completed period and regenerating the
    /// label whenever the level changes.
    pub fn tick(&mut self, delta_ms: u32)
        requires
            old(self).wf(),
        ensures
            final(self).wf(),
            final(self).level as nat == next_level(
                old(self).level as nat,
                old(self).rem_ms as nat,
                delta_ms as nat,
            ),
            final(self).rem_ms as nat == next_rem(old(self).rem_ms as nat, delta_ms as nat),
    {
        let total: u64 = (self.rem_ms as u64) + (delta_ms as u64);
        let fired64: u64 = total / (LEVEL_PERIOD_MS as u64);
        let rem: u32 = (total % (LEVEL_PERIOD_MS as u64)) as u32;
        self.rem_ms = rem;
        if fired64 > 0 {
            proof {
                lemma_multiply_divide_lt(total as int, LEVEL_PERIOD_MS as int, 3000000);
            }
            let fired: u32 = fired64 as u32;
            self.level = if self.level > u32::MAX - fired {
                u32::MAX
            } else {
                self.level + fired
            };
            self.label = make_label(self.level);
        }
    }
}

/// The level tracks total elapsed time: a counter that has seen `e`
/// milliseconds since a fresh start holds level `1 + e / period` with
/// `e % period` left on the timer, and one more frame of `d` milliseconds
/// carries it to `1 + (e + d) / period` with `(e + d) % period` left —
/// so by induction over frames, after any split of a total elapsed time
/// into frame deltas, two seconds reach level two and four seconds level
/// three.
pub proof fn lemma_level_tracks_elapsed(e: nat, d: nat)
    requires
        1 + (e + d) / (LEVEL_PERIOD_MS as nat) <= u32::MAX as nat,
    ensures
        next_level(
            (1 + e / (LEVEL_PERIOD_MS as nat)) as nat,
            e % (LEVEL_PERIOD_MS as nat),
            d,
        ) == 1 + (e + d) / (LEVEL_PERIOD_MS as nat),
        next_rem(e % (LEVEL_PERIOD_MS as nat), d) == (e + d) % (LEVEL_PERIOD_MS as nat),
{
    let p = LEVEL_PERIOD_MS as int;
    let q = e as int / p;
    let r = e as int % p;
    lemma_fundamental_div_mod(e as int, p);
    lemma_hoist_over_denominator(r + d, q, LEVEL_PERIOD_MS as nat);
    assert((r + d) + q * p == e + d);
    lemma_mod_multiples_vanish(q, r + d, p);
    assert(p * q + (r + d) == e + d);
}

} // verus!
