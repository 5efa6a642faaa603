//! The progress bar shown while a track plays.

use vstd::prelude::*;
use vstd::string::StringExecFns;

use crate::text::repeat;

verus! {

/// Number of steps of the progress bar.
pub const NUM_STEPS: u64 = 60;

/// Filled steps for position `ts` of a track of length `dur`: the share of
/// the track played, in whole steps, none for a track of length 0.
pub open spec fn steps_of(ts: u64, dur: u64) -> int {
    if dur == 0 {
        0
    } else {
        let scaled = if 60 * ts <= u64::MAX { 60 * ts } else { u64::MAX as int };
        let q = scaled / (dur as int);
        if q > 60 { 60 } else { q }
    }
}

pub fn progress_steps(ts: u64, dur: u64) -> (r: u64)
    ensures
        r == steps_of(ts, dur),
        r <= NUM_STEPS,
{
    if dur == 0 {
        return 0;
    }
    let scaled: u64 = if ts <= u64::MAX / NUM_STEPS {
        NUM_STEPS * ts
    } else {
        u64::MAX
    };
    let q = scaled / dur;
    if q > NUM_STEPS { NUM_STEPS } else { q }
}

/// The bar with `filled` steps: filled squares, then spaces up to the bar's
/// width, between brackets.
pub open spec fn bar_text(filled: nat) -> Seq<char> {
    "["@ + repeat("\u{25a0}"@, filled) + repeat(" "@, (60 - filled) as nat) + "]"@
}

/// The progress bar for position `ts` of a track of length `dur`.
pub fn progress_bar(ts: u64, dur: u64) -> (r: String)
    ensures
        r@ == bar_text(steps_of(ts, dur) as nat),
{
    let filled = progress_steps(ts, dur);
    let mut out = String::from_str("[");
    let mut i: u64 = 0;
    while i < filled
        invariant
            filled <= 60,
            i <= filled,
            out@ == "["@ + repeat("\u{25a0}"@, i as nat),
        decreases filled - i,
    {
        out.append("\u{25a0}");
        i = i + 1;
    }
    let mut j: u64 = filled;
    while j < NUM_STEPS
        invariant
            filled <= j <= 60,
            out@ == "["@ + repeat("\u{25a0}"@, filled as nat) + repeat(" "@, (j - filled) as nat),
        decreases 60 - j,
    {
        out.append(" ");
        j = j + 1;
    }
    out.append("]");
    out
}

} // verus!
