//! Preparation of the samples drawn under the cursor.

use vstd::prelude::*;

verus! {

/// The samples of the first channel of an interleaved buffer: every
/// `channels`-th sample, from the first on. The renderer's x axis counts
/// these samples, so a clock position is directly an index into them.
pub open spec fn first_channel_of<T>(samples: Seq<T>, channels: nat) -> Seq<T> {
    if channels == 0 {
        Seq::empty()
    } else {
        Seq::new(
            ((samples.len() + channels - 1) / channels as int) as nat,
            |i: int| samples[i * channels],
        )
    }
}

/// Keeps the samples of the first channel of an interleaved buffer of
/// `channels` channels; nothing when there are no channels.
pub fn first_channel<T: Copy>(samples: &Vec<T>, channels: usize) -> (r: Vec<T>)
    ensures
        r@ == first_channel_of(samples@, channels as nat),
{
    let mut out: Vec<T> = Vec::new();
    if channels == 0 {
        return out;
    }
    let len = samples.len();
    let q = len / channels;
    assert(len % channels != 0 ==> q < len) by (nonlinear_arith)
        requires channels > 0, q == len / channels;
    let n: usize = if len % channels != 0 { q + 1 } else { q };
    proof {
        let c = channels as int;
        assert(n == (len as int + c - 1) / c) by (nonlinear_arith)
            requires c > 0, n == (len as int) / c + if (len as int) % c != 0 { 1int } else { 0 }, len >= 0;
    }
    let mut j: usize = 0;
    while j < n
        invariant
            channels > 0,
            len == samples@.len(),
            n == len / channels + if len % channels != 0 { 1int } else { 0 },
            j <= n,
            out@.len() == j,
            forall|k: int| 0 <= k < j ==> #[trigger] out@[k] == samples@[k * channels],
        decreases n - j,
    {
        proof {
            let c = channels as int;
            assert(j * c < len as int) by (nonlinear_arith)
                requires c > 0, j < n, n == (len as int) / c + if (len as int) % c != 0 { 1int } else { 0 }, len >= 0, j >= 0;
        }
        out.push(samples[j * channels]);
        j = j + 1;
    }
    assert(out@ =~= first_channel_of(samples@, channels as nat));
    out
}

} // verus!
