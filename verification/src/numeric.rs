//! Scaled-integer arithmetic and decimal rendering.
//!
//! Success rates are held in parts per million (ppm): a per-step success
//! probability of `p` percent compounds over `n` steps to
//! `1_000_000 * (p/100)^n`, computed by repeated multiply-and-floor.

use vstd::prelude::*;

verus! {

/// One million: the ppm scale.
pub const PPM_SCALE: u64 = 1000000;

/// The compounded success rate, in ppm, of a pipeline of `steps` stages that
/// each succeed with probability `rate_percent` percent, by repeated
/// multiply-and-floor from the full scale.
pub open spec fn compounded_rate_ppm(rate_percent: int, steps: nat) -> int
    decreases steps,
{
    if steps == 0 {
        PPM_SCALE as int
    } else {
        compounded_rate_ppm(rate_percent, (steps - 1) as nat) * rate_percent / 100
    }
}

/// The compounded rate never exceeds the full scale.
pub proof fn lemma_compounded_rate_bounds(rate_percent: int, steps: nat)
    requires
        0 <= rate_percent <= 100,
    ensures
        0 <= compounded_rate_ppm(rate_percent, steps) <= PPM_SCALE,
    decreases steps,
{
    if steps > 0 {
        lemma_compounded_rate_bounds(rate_percent, (steps - 1) as nat);
        let prev = compounded_rate_ppm(rate_percent, (steps - 1) as nat);
        assert(prev * rate_percent <= PPM_SCALE * 100) by (nonlinear_arith)
            requires
                0 <= prev <= PPM_SCALE,
                0 <= rate_percent <= 100,
        ;
        assert(prev * rate_percent >= 0) by (nonlinear_arith)
            requires
                0 <= prev,
                0 <= rate_percent,
        ;
    }
}

/// Law: at every step count, the compounded target rate of 98% per step
/// is at least the compounded baseline rate of 62% per step.
pub proof fn lemma_target_rate_dominates(steps: nat)
    ensures
        compounded_rate_ppm(62, steps) <= compounded_rate_ppm(98, steps),
    decreases steps,
{
    if steps > 0 {
        lemma_target_rate_dominates((steps - 1) as nat);
        lemma_compounded_rate_bounds(62, (steps - 1) as nat);
        lemma_compounded_rate_bounds(98, (steps - 1) as nat);
        let b = compounded_rate_ppm(62, (steps - 1) as nat);
        let a = compounded_rate_ppm(98, (steps - 1) as nat);
        assert(b * 62 <= a * 98) by (nonlinear_arith)
            requires
                0 <= b <= a,
        ;
    }
}

/// Computes the compounded success rate in ppm.
pub fn success_rate_ppm(rate_percent: u64, steps: u64) -> (r: u64)
    requires
        rate_percent <= 100,
    ensures
        r == compounded_rate_ppm(rate_percent as int, steps as nat),
        r <= PPM_SCALE,
{
    let mut r: u64 = PPM_SCALE;
    let mut i: u64 = 0;
    proof {
        lemma_compounded_rate_bounds(rate_percent as int, 0nat);
    }
    while i < steps
        invariant
            i <= steps,
            rate_percent <= 100,
            r == compounded_rate_ppm(rate_percent as int, i as nat),
            r <= PPM_SCALE,
        decreases steps - i,
    {
        proof {
            lemma_compounded_rate_bounds(rate_percent as int, (i + 1) as nat);
            assert(r * rate_percent <= PPM_SCALE * 100) by (nonlinear_arith)
                requires
                    0 <= r <= PPM_SCALE,
                    0 <= rate_percent <= 100,
            ;
        }
        r = r * rate_percent / 100;
        i = i + 1;
    }
    r
}

/// The decimal digit character for a value below ten.
pub open spec fn dec_digit(d: int) -> char {
    if d == 0 {
        '0'
    } else if d == 1 {
        '1'
    } else if d == 2 {
        '2'
    } else if d == 3 {
        '3'
    } else if d == 4 {
        '4'
    } else if d == 5 {
        '5'
    } else if d == 6 {
        '6'
    } else if d == 7 {
        '7'
    } else if d == 8 {
        '8'
    } else {
        '9'
    }
}

/// The decimal rendering of a natural number, most significant digit first.
pub open spec fn dec_string_of(n: nat) -> Seq<char>
    decreases n,
{
    if n < 10 {
        seq![dec_digit(n as int)]
    } else {
        dec_string_of(n / 10) + seq![dec_digit((n % 10) as int)]
    }
}

/// The one-character string for a decimal digit.
fn digit_str(d: u64) -> (r: &'static str)
    requires
        d < 10,
    ensures
        r@ == seq![dec_digit(d as int)],
{
    proof {
        reveal_strlit("0");
        reveal_strlit("1");
        reveal_strlit("2");
        reveal_strlit("3");
        reveal_strlit("4");
        reveal_strlit("5");
        reveal_strlit("6");
        reveal_strlit("7");
        reveal_strlit("8");
        reveal_strlit("9");
    }
    if d == 0 {
        proof {
            assert("0"@ =~= seq![dec_digit(0)]);
        }
        "0"
    } else if d == 1 {
        proof {
            assert("1"@ =~= seq![dec_digit(1)]);
        }
        "1"
    } else if d == 2 {
        proof {
            assert("2"@ =~= seq![dec_digit(2)]);
        }
        "2"
    } else if d == 3 {
        proof {
            assert("3"@ =~= seq![dec_digit(3)]);
        }
        "3"
    } else if d == 4 {
        proof {
            assert("4"@ =~= seq![dec_digit(4)]);
        }
        "4"
    } else if d == 5 {
        proof {
            assert("5"@ =~= seq![dec_digit(5)]);
        }
        "5"
    } else if d == 6 {
        proof {
            assert("6"@ =~= seq![dec_digit(6)]);
        }
        "6"
    } else if d == 7 {
        proof {
            assert("7"@ =~= seq![dec_digit(7)]);
        }
        "7"
    } else if d == 8 {
        proof {
            assert("8"@ =~= seq![dec_digit(8)]);
        }
        "8"
    } else {
        proof {
            assert("9"@ =~= seq![dec_digit(9)]);
        }
        "9"
    }
}

/// Renders a number in decimal.
pub fn u64_to_string(n: u64) -> (s: String)
    ensures
        s@ == dec_string_of(n as nat),
    decreases n,
{
    if n < 10 {
        String::from_str(digit_str(n))
    } else {
        let mut s = u64_to_string(n / 10);
        s.append(digit_str(n % 10));
        s
    }
}

} // verus!
