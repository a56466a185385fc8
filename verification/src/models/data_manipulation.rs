use vstd::prelude::*;

verus! {

/// Whether `flags[start..start + len]` are all set.
pub open spec fn is_run(flags: Seq<bool>, start: int, len: int) -> bool {
    &&& 0 <= start
    &&& 0 <= len
    &&& start + len <= flags.len()
    &&& forall|i: int| start <= i < start + len ==> #[trigger] flags[i]
}

/// `(start, len)` is the earliest of the longest runs of set flags, or `(0, 0)` when no flag
/// is set.
pub open spec fn is_earliest_longest_run(flags: Seq<bool>, start: int, len: int) -> bool {
    &&& is_run(flags, start, len)
    &&& forall|a: int, l: int| #[trigger] is_run(flags, a, l) ==> l <= len
    &&& forall|a: int, l: int| #[trigger] is_run(flags, a, l) && l == len && len > 0 ==> start <= a
    &&& len == 0 ==> start == 0
}

/// The earliest longest run of set flags, as `(start, len)`; `(0, 0)` when none is set.
pub fn longest_run(flags: &Vec<bool>) -> (r: (usize, usize))
    ensures
        is_earliest_longest_run(flags@, r.0 as int, r.1 as int),
{
    let n = flags.len();
    let mut max_start: usize = 0;
    let mut max_len: usize = 0;
    let mut current_start: usize = 0;
    let mut current_len: usize = 0;
    let mut i: usize = 0;
    while i < n
        invariant
            n == flags@.len(),
            i <= n,
            current_len <= i,
            current_len > 0 ==> current_start == i - current_len,
            is_run(flags@, i - current_len, current_len as int),
            current_len < i ==> !flags@[i - current_len - 1],
            is_run(flags@, max_start as int, max_len as int),
            max_len == 0 ==> max_start == 0,
            max_start + max_len <= i,
            current_len <= max_len,
            forall|a: int, l: int| #[trigger] is_run(flags@, a, l) && a + l <= i ==> l <= max_len,
            forall|a: int, l: int|
                #[trigger] is_run(flags@, a, l) && a + l <= i && l == max_len && max_len > 0
                    ==> max_start <= a,
        decreases n - i,
    {
        let ghost old_max_len = max_len;
        let ghost old_max_start = max_start;
        let ghost old_i = i;
        if flags[i] {
            if current_len == 0 {
                current_start = i;
            }
            current_len = current_len + 1;
            if current_len > max_len {
                max_len = current_len;
                max_start = current_start;
            }
            i = i + 1;
            proof {
                assert forall|a: int, l: int| #[trigger] is_run(flags@, a, l) && a + l <= i implies l
                    <= max_len && (l == max_len && max_len > 0 ==> max_start <= a) by {
                    if a + l == i && l > 0 {
                        if l > current_len {
                            assert(flags@[i - current_len - 1]);
                        }
                        if l == max_len && max_len == old_max_len {
                            assert(old_max_start + old_max_len <= old_i);
                        }
                    } else if l > 0 {
                        assert(is_run(flags@, a, l) && a + l <= old_i);
                    }
                }
            }
        } else {
            current_len = 0;
            i = i + 1;
            proof {
                assert forall|a: int, l: int| #[trigger] is_run(flags@, a, l) && a + l <= i implies l
                    <= max_len && (l == max_len && max_len > 0 ==> max_start <= a) by {
                    if a + l == i && l > 0 {
                        assert(flags@[i - 1]);
                    } else if l > 0 {
                        assert(is_run(flags@, a, l) && a + l <= old_i);
                    }
                }
            }
        }
    }
    (max_start, max_len)
}

/// The earliest longest stretch of powered samples: `(start, len)` over the samples, `(0, 0)`
/// when none is powered.
pub fn longest_powered_slice(powered: &Vec<bool>) -> (r: (usize, usize))
    ensures
        is_earliest_longest_run(powered@, r.0 as int, r.1 as int),
{
    longest_run(powered)
}

/// The earliest longest stretch of samples over which the temperature keeps falling with the
/// heater off. `falling[i]` tells whether the step from sample `i` to sample `i + 1` falls
/// with no power. The stretch is given over the samples, so a run of `k` falling steps
/// covers `k + 1` samples; `(0, 0)` when no step falls.
pub fn longest_negative_slice(falling: &Vec<bool>) -> (r: (usize, usize))
    requires
        falling@.len() < usize::MAX,
    ensures
        r.1 != 1,
        is_earliest_longest_run(
            falling@,
            r.0 as int,
            if r.1 == 0 {
                0
            } else {
                r.1 - 1
            },
        ),
{
    let (start, len) = longest_run(falling);
    proof {
        assert(is_earliest_longest_run(falling@, start as int, len as int));
    }
    if len == 0 {
        (start, 0)
    } else {
        (start, len + 1)
    }
}

/// The window of samples averaged around sample `i` when smoothing: up to `window_size`
/// samples on either side, as `start..end`, clipped to the data.
pub fn smoothing_window(i: usize, len: usize, window_size: usize) -> (r: (usize, usize))
    requires
        i < len,
        i + window_size <= usize::MAX,
    ensures
        r.0 == (if i < window_size {
            0
        } else {
            i - window_size
        }) as int,
        r.1 == (if i + window_size >= len {
            len as int
        } else {
            i + window_size
        }),
        r.0 <= i <= r.1 <= len,
{
    let start = if i < window_size {
        0
    } else {
        i - window_size
    };
    let end = if i + window_size >= len {
        len
    } else {
        i + window_size
    };
    (start, end)
}

} // verus!
