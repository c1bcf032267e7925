use vstd::prelude::*;

verus! {

/// How many neighbours on each side the smoothing kernel reaches.
pub const KERNEL_RADIUS: usize = 6;

/// Number of taps in the symmetric smoothing window.
pub const WINDOW_LEN: usize = 13;

/// A sample position moved into `0..len`: positions before the start read
/// the first sample, positions past the end read the last one.
pub open spec fn clamp_index(pos: int, len: int) -> int {
    if pos < 0 {
        0
    } else if pos >= len {
        len - 1
    } else {
        pos
    }
}

/// The sample read by tap `k` of the window centred on `center`.
pub open spec fn tap_sample(center: int, k: int, len: int) -> int {
    clamp_index(center + k - KERNEL_RADIUS, len)
}

/// The kernel coefficient used by tap `k`: its distance from the centre.
pub open spec fn tap_weight(k: int) -> int {
    if k >= KERNEL_RADIUS {
        k - KERNEL_RADIUS
    } else {
        KERNEL_RADIUS - k
    }
}

/// One tap of a smoothing window: the sample it reads and the index of the
/// one-sided kernel coefficient that weights it.
#[derive(Clone, Copy, Debug, PartialEq, Eq, Structural)]
pub struct Tap {
    pub sample: usize,
    pub weight: usize,
}

/// The taps whose weighted sum gives output sample `center` of a frame of
/// `len` samples: offsets `-KERNEL_RADIUS..=KERNEL_RADIUS` in order, each
/// read with edge replication.
pub fn window(center: usize, len: usize) -> (r: Vec<Tap>)
    requires
        center < len,
    ensures
        r@.len() == WINDOW_LEN,
        forall|k: int|
            0 <= k < WINDOW_LEN ==> (#[trigger] r@[k]).sample == tap_sample(center as int, k, len as int)
                && r@[k].weight == tap_weight(k),
{
    let mut r: Vec<Tap> = Vec::new();
    let mut k: usize = 0;
    while k < WINDOW_LEN
        invariant
            k <= WINDOW_LEN,
            center < len,
            r@.len() == k,
            forall|j: int|
                0 <= j < k ==> (#[trigger] r@[j]).sample == tap_sample(center as int, j, len as int)
                    && r@[j].weight == tap_weight(j),
        decreases WINDOW_LEN - k,
    {
        let sample: usize = if k < KERNEL_RADIUS {
            if center < KERNEL_RADIUS - k {
                0
            } else {
                center - (KERNEL_RADIUS - k)
            }
        } else if k - KERNEL_RADIUS > len - 1 - center {
            len - 1
        } else {
            center + (k - KERNEL_RADIUS)
        };
        let weight: usize = if k >= KERNEL_RADIUS {
            k - KERNEL_RADIUS
        } else {
            KERNEL_RADIUS - k
        };
        r.push(Tap { sample, weight });
        k += 1;
    }
    r
}

/// Every tap reads a sample inside the frame and a coefficient of the
/// one-sided kernel.
pub proof fn lemma_taps_in_range(center: int, len: int, k: int)
    requires
        0 <= center < len,
        0 <= k < WINDOW_LEN,
    ensures
        0 <= tap_sample(center, k, len) < len,
        0 <= tap_weight(k) <= KERNEL_RADIUS,
{
}

/// Away from both edges no tap is clamped: the window reads the samples
/// `center - KERNEL_RADIUS ..= center + KERNEL_RADIUS` in order, so an
/// impulse there comes out as the kernel centred on it.
pub proof fn lemma_interior_unclamped(center: int, len: int)
    requires
        KERNEL_RADIUS <= center,
        center + KERNEL_RADIUS < len,
    ensures
        forall|k: int|
            0 <= k < WINDOW_LEN ==> #[trigger] tap_sample(center, k, len) == center + k
                - KERNEL_RADIUS,
{
}

/// At the first sample every tap left of the centre replicates sample 0,
/// which neither wrapping round to the end nor mirroring at the edge does.
pub proof fn lemma_first_sample_replicated(len: int)
    requires
        len > KERNEL_RADIUS,
    ensures
        forall|k: int| 0 <= k < KERNEL_RADIUS ==> #[trigger] tap_sample(0, k, len) == 0,
        tap_sample(0, KERNEL_RADIUS - 1, len) != len - 1,
        tap_sample(0, KERNEL_RADIUS - 1, len) != 1,
{
}

} // verus!
