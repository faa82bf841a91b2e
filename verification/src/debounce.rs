//! Debouncing of the two volume buttons. Each button is polled on a level
//! basis: while it reads active, an action fires whenever the hold-off
//! interval has elapsed since the last accepted press, so holding a button
//! repeats at the hold-off cadence.

use vstd::prelude::*;

verus! {

/// Minimum number of milliseconds between two accepted presses of the same
/// button.
pub const HOLD_OFF_MS: u64 = 500;

/// Whether a poll at time `now` of a button whose last accepted press was at
/// `last` fires an action: the button must read active and the hold-off must
/// have elapsed (a button never pressed before fires at once).
pub open spec fn fires(last: Option<u64>, now: u64, active: bool) -> bool {
    active && match last {
        None => true,
        Some(t) => now >= t + HOLD_OFF_MS,
    }
}

/// Debounce state of one momentary button: the time of its last accepted
/// press. Each button has its own state; the states are not shared.
pub struct DebounceState {
    /// When the button's action last fired, in milliseconds of a monotone
    /// clock, or nothing if it never fired.
    pub last_fire: Option<u64>,
}

impl DebounceState {
    /// Whether every recorded time lies at or before `now`: polls happen on
    /// a monotone clock.
    pub open spec fn time_ok(self, now: u64) -> bool {
        match self.last_fire {
            None => true,
            Some(t) => t <= now,
        }
    }

    /// The state of a button that has never fired.
    pub fn new() -> (r: DebounceState)
        ensures
            r.last_fire is None,
    {
        DebounceState { last_fire: None }
    }

    /// One poll tick at time `now` with the button's level reading `active`:
    /// reports whether the action fires, and on a fire records `now` as the
    /// last accepted press.
    pub fn poll(&mut self, now: u64, active: bool) -> (fired: bool)
        requires
            old(self).time_ok(now),
        ensures
            fired == fires(old(self).last_fire, now, active),
            final(self).last_fire == if fired {
                Some(now)
            } else {
                old(self).last_fire
            },
            final(self).time_ok(now),
    {
        let fire = active && match self.last_fire {
            None => true,
            Some(t) => now - t >= HOLD_OFF_MS,
        };
        if fire {
            self.last_fire = Some(now);
        }
        fire
    }
}

/// Poll times in nondecreasing order: what a monotone clock hands one
/// polling loop.
pub open spec fn nondecreasing(ticks: Seq<u64>) -> bool {
    forall|i: int, j: int| 0 <= i <= j < ticks.len() ==> ticks[i] <= ticks[j]
}

/// The last accepted press and the number of fires after a button held
/// continuously active is polled at the given times.
pub open spec fn held_run(last: Option<u64>, ticks: Seq<u64>) -> (Option<u64>, nat)
    decreases ticks.len(),
{
    if ticks.len() == 0 {
        (last, 0)
    } else if fires(last, ticks[0], true) {
        let (l2, k) = held_run(Some(ticks[0]), ticks.drop_first());
        (l2, (k + 1) as nat)
    } else {
        held_run(last, ticks.drop_first())
    }
}

/// Each fire of a held button comes at least one hold-off after the
/// previous one, so the last accepted press is bounded from below by how
/// many fires came before it.
proof fn lemma_held_run_spacing(last: Option<u64>, ticks: Seq<u64>)
    requires
        nondecreasing(ticks),
    ensures
        ({
            let (l2, k) = held_run(last, ticks);
            &&& (k == 0 ==> l2 == last)
            &&& (k >= 1 ==> {
                &&& ticks.len() >= 1
                &&& l2 is Some
                &&& l2->0 <= ticks.last()
                &&& l2->0 >= ticks[0] + (k - 1) * (HOLD_OFF_MS as int)
                &&& (last is Some ==> l2->0 >= last->0 + k * (HOLD_OFF_MS as int))
            })
        }),
    decreases ticks.len(),
{
    if ticks.len() == 0 {
        return ;
    }
    let t0 = ticks[0];
    let rest = ticks.drop_first();
    assert forall|i: int, j: int| 0 <= i <= j < rest.len() implies rest[i] <= rest[j] by {
        assert(rest[i] == ticks[i + 1]);
        assert(rest[j] == ticks[j + 1]);
    }
    if rest.len() > 0 {
        assert(rest.last() == ticks.last());
        assert(rest[0] == ticks[1]);
    }
    if fires(last, t0, true) {
        lemma_held_run_spacing(Some(t0), rest);
        let (l2, k) = held_run(Some(t0), rest);
        if k == 0 {
            assert(ticks.last() >= t0);
        }
    } else {
        lemma_held_run_spacing(last, rest);
    }
}

/// Law: a button held continuously active over polls that span `T`
/// milliseconds fires at most `T / HOLD_OFF_MS + 1` actions, whatever state
/// the button started in.
pub proof fn lemma_debounce_bound(last: Option<u64>, ticks: Seq<u64>)
    requires
        nondecreasing(ticks),
        ticks.len() >= 1,
    ensures
        held_run(last, ticks).1 <= (ticks.last() - ticks[0]) / (HOLD_OFF_MS as int) + 1,
{
    lemma_held_run_spacing(last, ticks);
    let (l2, k) = held_run(last, ticks);
    if k >= 1 {
        let span = ticks.last() - ticks[0];
        assert((k - 1) * (HOLD_OFF_MS as int) <= span);
        assert(k - 1 <= span / (HOLD_OFF_MS as int)) by {
            vstd::arithmetic::div_mod::lemma_div_multiples_vanish(
                k - 1,
                HOLD_OFF_MS as int,
            );
            vstd::arithmetic::div_mod::lemma_div_is_ordered(
                (k - 1) * (HOLD_OFF_MS as int),
                span,
                HOLD_OFF_MS as int,
            );
        }
    }
}

} // verus!
