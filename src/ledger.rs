use vstd::prelude::*;

verus! {

/// What is left of `value` after `elapsed` ticks at `rate` per tick, never below zero.
pub open spec fn after_decay(value: u64, elapsed: int, rate: u64) -> int {
    if value - elapsed * rate < 0 {
        0
    } else {
        value - elapsed * rate
    }
}

/// `x` held to the range of `u64`.
pub open spec fn clamp_u64(x: int) -> u64 {
    if x > u64::MAX {
        u64::MAX
    } else if x < 0 {
        0
    } else {
        x as u64
    }
}

/// The (value, stamp) pair of a vital after a care action at `now`: decay for the
/// time since `stamp`, then refill. An action at or before `stamp` changes nothing:
/// a vital is refilled at most once per timestamp, and a clock that went backward
/// has no effect.
pub open spec fn decay_refill(value: u64, stamp: u64, now: u64, rate: u64, refill: u64) -> (u64, u64) {
    if now <= stamp {
        (value, stamp)
    } else {
        (clamp_u64(after_decay(value, now - stamp, rate) + refill), now)
    }
}

/// The states a vital passes through when care actions come at each of `times`
/// in turn, starting from `value` last updated at `stamp`.
pub open spec fn care_run(value: u64, stamp: u64, times: Seq<u64>, rate: u64, refill: u64) -> Seq<
    (u64, u64),
>
    decreases times.len(),
{
    if times.len() == 0 {
        seq![]
    } else {
        let first = decay_refill(value, stamp, times[0], rate, refill);
        seq![first] + care_run(first.0, first.1, times.skip(1), rate, refill)
    }
}

/// Over any run of care actions whose timestamps never go backward, each step
/// stamps the vital with its own timestamp, and the value after each step is at
/// most what the decay left of the previous value plus the refill.
pub proof fn lemma_care_run_bounded(value: u64, stamp: u64, times: Seq<u64>, rate: u64, refill: u64)
    requires
        times.len() > 0 ==> stamp <= times[0],
        forall|i: int, j: int| 0 <= i <= j < times.len() ==> times[i] <= times[j],
    ensures
        care_run(value, stamp, times, rate, refill).len() == times.len(),
        forall|i: int|
            #![trigger times[i]]
            0 <= i < times.len() ==> {
                let run = care_run(value, stamp, times, rate, refill);
                let prev = if i == 0 {
                    (value, stamp)
                } else {
                    run[i - 1]
                };
                &&& run[i].1 == times[i]
                &&& prev.1 <= times[i]
                &&& run[i].0 <= after_decay(prev.0, times[i] - prev.1, rate) + refill
            },
    decreases times.len(),
{
    if times.len() > 0 {
        let first = decay_refill(value, stamp, times[0], rate, refill);
        let rest = times.skip(1);
        lemma_care_run_bounded(first.0, first.1, rest, rate, refill);
        let run = care_run(value, stamp, times, rate, refill);
        let tail = care_run(first.0, first.1, rest, rate, refill);
        assert(run == seq![first] + tail);
        assert(0int * rate == 0) by (nonlinear_arith);
        assert forall|i: int| #![trigger times[i]] 0 <= i < times.len() implies {
            let prev = if i == 0 {
                (value, stamp)
            } else {
                run[i - 1]
            };
            &&& run[i].1 == times[i]
            &&& prev.1 <= times[i]
            &&& run[i].0 <= after_decay(prev.0, times[i] - prev.1, rate) + refill
        } by {
            if i > 0 {
                assert(run[i] == tail[i - 1]);
                assert(rest[i - 1] == times[i]);
                if i > 1 {
                    assert(run[i - 1] == tail[i - 2]);
                }
            }
        }
    }
}

/// Two care actions at the same timestamp act as one: the second one neither
/// decays nor refills.
pub proof fn lemma_same_timestamp_idempotent(value: u64, stamp: u64, now: u64, rate: u64, refill: u64)
    ensures
        ({
            let once = decay_refill(value, stamp, now, rate, refill);
            decay_refill(once.0, once.1, now, rate, refill) == once
        }),
{
}

/// A care action dated before the vital's last update leaves value and stamp as
/// they were.
pub proof fn lemma_clock_regression_unchanged(value: u64, stamp: u64, now: u64, rate: u64, refill: u64)
    requires
        now < stamp,
    ensures
        decay_refill(value, stamp, now, rate, refill) == (value, stamp),
{
}

/// Applies decay for the ticks elapsed since `stamp` and adds `refill`, saturating
/// at both ends. Returns the new value and the new update stamp.
pub fn apply_decay_and_refill(value: u64, stamp: u64, now: u64, rate: u64, refill: u64) -> (r: (
    u64,
    u64,
))
    ensures
        r == decay_refill(value, stamp, now, rate, refill),
{
    if now <= stamp {
        return (value, stamp);
    }
    let elapsed: u64 = now - stamp;
    let kept: u64 = match elapsed.checked_mul(rate) {
        Some(decay) => value.saturating_sub(decay),
        None => {
            proof {
                assert(elapsed * rate > u64::MAX) by (nonlinear_arith)
                    requires
                        elapsed * rate > u64::MAX || elapsed * rate < 0,
                        elapsed >= 0,
                        rate >= 0,
                ;
            }
            0
        },
    };
    (kept.saturating_add(refill), now)
}

} // verus!
