use vstd::prelude::*;

verus! {

/// One texel per sample: the sample in the first channel, `zero` in the
/// other three, so a single-channel frame fills a four-channel texture.
pub open spec fn spec_texel_channel<T>(frame: Seq<T>, zero: T, j: int) -> T {
    if j % 4 == 0 {
        frame[j / 4]
    } else {
        zero
    }
}

/// Expands a single-channel frame into four channels per sample.
pub fn expand_to_rgba<T: Copy>(frame: &Vec<T>, zero: T) -> (r: Vec<T>)
    requires
        frame@.len() * 4 <= usize::MAX,
    ensures
        r@.len() == frame@.len() * 4,
        forall|j: int| 0 <= j < r@.len() ==> #[trigger] r@[j] == spec_texel_channel(frame@, zero, j),
{
    let mut r: Vec<T> = Vec::new();
    let mut i: usize = 0;
    while i < frame.len()
        invariant
            i <= frame@.len(),
            frame@.len() * 4 <= usize::MAX,
            r@.len() == i * 4,
            forall|j: int| 0 <= j < r@.len() ==> #[trigger] r@[j] == spec_texel_channel(frame@, zero, j),
        decreases frame@.len() - i,
    {
        let v = frame[i];
        r.push(v);
        r.push(zero);
        r.push(zero);
        r.push(zero);
        proof {
            assert forall|j: int| 0 <= j < r@.len() implies #[trigger] r@[j] == spec_texel_channel(frame@, zero, j) by {
                if j >= i * 4 {
                    assert(j / 4 == i) by (nonlinear_arith)
                        requires
                            i * 4 <= j < i * 4 + 4,
                    ;
                    assert(j % 4 == j - i * 4) by (nonlinear_arith)
                        requires
                            i * 4 <= j < i * 4 + 4,
                    ;
                }
            }
        }
        i += 1;
    }
    r
}

} // verus!
