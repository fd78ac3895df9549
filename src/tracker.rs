use vstd::arithmetic::div_mod::{lemma_mod_self_0, lemma_small_mod};
use vstd::prelude::*;

use crate::combatant::{
    after_turn_end,
    with_conditions,
    Action,
    Combatant,
};
use crate::condition::{ConditionDuration, ConditionKind};

verus! {

/// The position `(turn, round)` that follows `(turn, round)` in a roster of `len` combatants.
pub open spec fn next_position(turn: nat, round: nat, len: nat) -> (nat, nat) {
    let next = ((turn + 1) as int) % (len as int);
    (next as nat, if next == 0 { round + 1 } else { round })
}

/// The position reached from `(turn, round)` after `n` turns in a roster of `len` combatants.
pub open spec fn position_after(turn: nat, round: nat, len: nat, n: nat) -> (nat, nat)
    decreases n,
{
    if n == 0 {
        (turn, round)
    } else {
        let p = position_after(turn, round, len, (n - 1) as nat);
        next_position(p.0, p.1, len)
    }
}

/// Within one round, `n` turns from `(turn, round)` move the turn `n` places on, wrapping to
/// the start of the roster, and into the next round, at most once.
proof fn lemma_position_within_round(turn: nat, round: nat, len: nat, n: nat)
    requires
        0 < len,
        turn < len,
        n <= len,
    ensures
        position_after(turn, round, len, n) == if turn + n < len {
            (turn + n, round)
        } else {
            ((turn + n - len) as nat, round + 1)
        },
    decreases n,
{
    if n > 0 {
        lemma_position_within_round(turn, round, len, (n - 1) as nat);
        if turn + n < len {
            lemma_small_mod(turn + n, len);
        } else if turn + n == len {
            lemma_mod_self_0(len as int);
        } else {
            lemma_small_mod((turn + n - len) as nat, len);
        }
    }
}

/// A full round: as many turns as there are combatants bring the turn back to the combatant
/// whose turn it was, and the round forward by exactly one.
pub proof fn lemma_full_round(turn: nat, round: nat, len: nat)
    requires
        0 < len,
        turn < len,
    ensures
        position_after(turn, round, len, len) == (turn, round + 1),
{
    lemma_position_within_round(turn, round, len, len);
}

/// Whether `targets` names the combatant at index `i`.
pub open spec fn targeted(targets: Seq<usize>, i: int) -> bool {
    exists|k: int| 0 <= k < targets.len() && targets[k] as int == i
}

/// The core initiative tracker.
///
/// It handles the order of play and tracks every important detail, such as the current turn,
/// conditions on each combatant, actions taken, etc.
#[derive(Clone, Debug)]
pub struct Tracker {
    /// The index of the combatant that is taking their turn.
    pub turn: usize,
    /// The current round, starting at 0 (to mean the first round).
    pub round: usize,
    /// The list of combatants.
    pub combatants: Vec<Combatant>,
}

impl Tracker {
    /// A tracker is well formed when its roster is not empty, the turn points into it, and every
    /// combatant is well formed.
    pub open spec fn wf(&self) -> bool {
        &&& 0 < self.combatants@.len()
        &&& self.turn < self.combatants@.len()
        &&& forall|i: int| 0 <= i < self.combatants@.len() ==> (#[trigger] self.combatants@[i]).wf()
    }

    /// The combatant whose turn it is.
    pub open spec fn current(&self) -> Combatant {
        self.combatants@[self.turn as int]
    }

    /// Create a new initiative tracker with the given combatants, at the first turn of the first
    /// round.
    pub fn new(combatants: Vec<Combatant>) -> (r: Tracker)
        requires
            0 < combatants@.len(),
            forall|i: int| 0 <= i < combatants@.len() ==> (#[trigger] combatants@[i]).wf(),
        ensures
            r.wf(),
            r.turn == 0,
            r.round == 0,
            r.combatants@ == combatants@,
    {
        Tracker { turn: 0, round: 0, combatants }
    }

    /// Advance the tracker to the next combatant's turn.
    ///
    /// The conditions of the combatant whose turn ends lose a round, and those that run out are
    /// removed; the turn passes to the next combatant, and back to the first one in a new round;
    /// the combatant whose turn starts gets a fresh action budget.
    pub fn next_turn(&mut self)
        requires
            old(self).wf(),
            old(self).round < usize::MAX,
        ensures
            final(self).wf(),
            final(self).combatants@.len() == old(self).combatants@.len(),
            (final(self).turn as nat, final(self).round as nat) == next_position(
                old(self).turn as nat,
                old(self).round as nat,
                old(self).combatants@.len(),
            ),
            final(self).current().actions == Action::fresh(),
            final(self).current().actions.actions == 1,
            final(self).current().actions.bonus_actions == 1,
            final(self).current().actions.reactions == 1,
            final(self).combatants@[old(self).turn as int].conditions@ == after_turn_end(
                old(self).current().conditions@,
            ),
            forall|i: int|
                0 <= i < old(self).combatants@.len() && i != old(self).turn ==> (
                #[trigger] final(self).combatants@[i]).conditions@
                    == old(self).combatants@[i].conditions@,
            forall|i: int|
                0 <= i < old(self).combatants@.len() && i != final(self).turn ==> (
                #[trigger] final(self).combatants@[i]).actions == old(self).combatants@[i].actions,
            forall|i: int|
                0 <= i < old(self).combatants@.len() ==> (#[trigger] final(self).combatants@[i]).kind
                    == old(self).combatants@[i].kind && final(self).combatants@[i].hit_points
                    == old(self).combatants@[i].hit_points,
    {
        let ended = self.turn;
        self.combatants[ended].end_turn();
        let len = self.combatants.len();
        self.turn = (self.turn + 1) % len;
        if self.turn == 0 {
            self.round = self.round + 1;
        }
        let started = self.turn;
        self.combatants[started].actions = Action::default();
        proof {
            assert forall|i: int| 0 <= i < self.combatants@.len() implies (
            #[trigger] self.combatants@[i]).wf() by {
                assert(i == ended || i == started || self.combatants@[i] == old(self).combatants@[i]);
            }
        }
    }

    /// Get the combatant that is currently taking their turn.
    pub fn current_combatant(&self) -> (r: &Combatant)
        requires
            self.wf(),
        ensures
            *r == self.current(),
    {
        &self.combatants[self.turn]
    }

    /// Get the combatant that is currently taking their turn, to change it in place.
    pub fn current_combatant_mut(&mut self) -> (r: &mut Combatant)
        requires
            old(self).wf(),
        ensures
            *r == old(self).current(),
            final(self).turn == old(self).turn,
            final(self).round == old(self).round,
            final(self).combatants@ == old(self).combatants@.update(old(self).turn as int, *final(r)),
    {
        &mut self.combatants[self.turn]
    }

    /// Use an action for the current combatant. Returns `true` if the action was used, or `false`
    /// if the combatant had no actions left to use.
    pub fn use_action(&mut self) -> (r: bool)
        requires
            old(self).wf(),
        ensures
            final(self).wf(),
            r == (old(self).current().actions.actions > 0),
            final(self).turn == old(self).turn,
            final(self).round == old(self).round,
            final(self).combatants@ == if r {
                let c = old(self).current();
                old(self).combatants@.update(
                    old(self).turn as int,
                    Combatant {
                        actions: Action { actions: (c.actions.actions - 1) as u32, ..c.actions },
                        ..c
                    },
                )
            } else {
                old(self).combatants@
            },
    {
        let turn = self.turn;
        if self.combatants[turn].actions.actions == 0 {
            return false;
        }
        self.combatants[turn].actions.actions = self.combatants[turn].actions.actions - 1;
        proof {
            assert forall|i: int| 0 <= i < self.combatants@.len() implies (
            #[trigger] self.combatants@[i]).wf() by {
                assert(i == turn || self.combatants@[i] == old(self).combatants@[i]);
            }
        }
        true
    }

    /// Use a bonus action for the current combatant. Returns `true` if the bonus action was used,
    /// or `false` if the combatant had no bonus actions left to use.
    pub fn use_bonus_action(&mut self) -> (r: bool)
        requires
            old(self).wf(),
        ensures
            final(self).wf(),
            r == (old(self).current().actions.bonus_actions > 0),
            final(self).turn == old(self).turn,
            final(self).round == old(self).round,
            final(self).combatants@ == if r {
                let c = old(self).current();
                old(self).combatants@.update(
                    old(self).turn as int,
                    Combatant {
                        actions: Action {
                            bonus_actions: (c.actions.bonus_actions - 1) as u32,
                            ..c.actions
                        },
                        ..c
                    },
                )
            } else {
                old(self).combatants@
            },
    {
        let turn = self.turn;
        if self.combatants[turn].actions.bonus_actions == 0 {
            return false;
        }
        self.combatants[turn].actions.bonus_actions = self.combatants[turn].actions.bonus_actions
            - 1;
        proof {
            assert forall|i: int| 0 <= i < self.combatants@.len() implies (
            #[trigger] self.combatants@[i]).wf() by {
                assert(i == turn || self.combatants@[i] == old(self).combatants@[i]);
            }
        }
        true
    }

    /// Use a reaction for the current combatant. Returns `true` if the reaction was used, or
    /// `false` if the combatant had no reactions left to use.
    pub fn use_reaction(&mut self) -> (r: bool)
        requires
            old(self).wf(),
        ensures
            final(self).wf(),
            r == (old(self).current().actions.reactions > 0),
            final(self).turn == old(self).turn,
            final(self).round == old(self).round,
            final(self).combatants@ == if r {
                let c = old(self).current();
                old(self).combatants@.update(
                    old(self).turn as int,
                    Combatant {
                        actions: Action { reactions: (c.actions.reactions - 1) as u32, ..c.actions },
                        ..c
                    },
                )
            } else {
                old(self).combatants@
            },
    {
        let turn = self.turn;
        if self.combatants[turn].actions.reactions == 0 {
            return false;
        }
        self.combatants[turn].actions.reactions = self.combatants[turn].actions.reactions - 1;
        proof {
            assert forall|i: int| 0 <= i < self.combatants@.len() implies (
            #[trigger] self.combatants@[i]).wf() by {
                assert(i == turn || self.combatants@[i] == old(self).combatants@[i]);
            }
        }
        true
    }
    /// Damage each combatant whose index is in `targets` by `amount`. Hit points do not stop at
    /// zero.
    pub fn damage(&mut self, targets: &Vec<usize>, amount: i32)
        requires
            old(self).wf(),
            targets@.no_duplicates(),
            forall|k: int|
                0 <= k < targets@.len() ==> (#[trigger] targets@[k]) < old(self).combatants@.len(),
            forall|k: int|
                0 <= k < targets@.len() ==> i32::MIN <= old(self).combatants@[(
                #[trigger] targets@[k]) as int].hit_points - amount <= i32::MAX,
        ensures
            final(self).wf(),
            final(self).turn == old(self).turn,
            final(self).round == old(self).round,
            final(self).combatants@.len() == old(self).combatants@.len(),
            forall|i: int|
                0 <= i < old(self).combatants@.len() ==> (#[trigger] final(self).combatants@[i]).hit_points
                    == if targeted(targets@, i) {
                    old(self).combatants@[i].hit_points - amount
                } else {
                    old(self).combatants@[i].hit_points as int
                },
            forall|i: int|
                0 <= i < old(self).combatants@.len() ==> (#[trigger] final(self).combatants@[i]).kind
                    == old(self).combatants@[i].kind && final(self).combatants@[i].actions
                    == old(self).combatants@[i].actions && final(self).combatants@[i].conditions@
                    == old(self).combatants@[i].conditions@,
    {
        let mut k: usize = 0;
        while k < targets.len()
            invariant
                self.wf(),
                k <= targets@.len(),
                targets@.no_duplicates(),
                self.turn == old(self).turn,
                self.round == old(self).round,
                self.combatants@.len() == old(self).combatants@.len(),
                forall|j: int|
                    0 <= j < targets@.len() ==> (#[trigger] targets@[j]) < old(self).combatants@.len(),
                forall|j: int|
                    0 <= j < targets@.len() ==> i32::MIN <= old(self).combatants@[(
                    #[trigger] targets@[j]) as int].hit_points - amount <= i32::MAX,
                forall|i: int|
                    0 <= i < old(self).combatants@.len() ==> (#[trigger] self.combatants@[i]).hit_points
                        == if targeted(targets@.subrange(0, k as int), i) {
                        old(self).combatants@[i].hit_points - amount
                    } else {
                        old(self).combatants@[i].hit_points as int
                    },
                forall|i: int|
                    0 <= i < old(self).combatants@.len() ==> (#[trigger] self.combatants@[i]).kind
                        == old(self).combatants@[i].kind && self.combatants@[i].actions
                        == old(self).combatants@[i].actions && self.combatants@[i].conditions@
                        == old(self).combatants@[i].conditions@,
            decreases targets@.len() - k,
        {
            let t = targets[k];
            let ghost done = targets@.subrange(0, k as int);
            proof {
                if targeted(done, t as int) {
                    let j = choose|j: int| 0 <= j < done.len() && done[j] as int == t as int;
                    assert(targets@[j] == targets@[k as int]);
                }
            }
            self.combatants[t].damage(amount);
            proof {
                let next = targets@.subrange(0, k + 1);
                assert(next == done.push(t));
                assert forall|i: int| 0 <= i < self.combatants@.len() implies (
                #[trigger] self.combatants@[i]).wf() by {
                    assert(i == t || self.combatants@[i] == old(self).combatants@[i]
                        || self.combatants@[i].conditions@ == old(self).combatants@[i].conditions@);
                }
                assert forall|i: int| 0 <= i < old(self).combatants@.len() implies (
                #[trigger] self.combatants@[i]).hit_points == if targeted(next, i) {
                    old(self).combatants@[i].hit_points - amount
                } else {
                    old(self).combatants@[i].hit_points as int
                } by {
                    if i == t {
                        assert(next[k as int] == t);
                        assert(targeted(next, i));
                        assert(!targeted(done, i));
                    } else {
                        if targeted(next, i) {
                            let j = choose|j: int| 0 <= j < next.len() && next[j] as int == i;
                            assert(j != k);
                            assert(done[j] == next[j]);
                        }
                        if targeted(done, i) {
                            let j = choose|j: int| 0 <= j < done.len() && done[j] as int == i;
                            assert(next[j] == done[j]);
                        }
                    }
                }
            }
            k = k + 1;
        }
        proof {
            assert(targets@.subrange(0, targets@.len() as int) == targets@);
        }
    }

    /// Apply one condition of each kind in `kinds`, all with `duration`, to each combatant whose
    /// index is in `targets`. A combatant that already bears a condition of one of the kinds keeps
    /// the longer of the two durations.
    pub fn apply_condition(
        &mut self,
        targets: &Vec<usize>,
        kinds: &Vec<ConditionKind>,
        duration: ConditionDuration,
    )
        requires
            old(self).wf(),
            duration.wf(),
            targets@.no_duplicates(),
            forall|k: int|
                0 <= k < targets@.len() ==> (#[trigger] targets@[k]) < old(self).combatants@.len(),
        ensures
            final(self).wf(),
            final(self).turn == old(self).turn,
            final(self).round == old(self).round,
            final(self).combatants@.len() == old(self).combatants@.len(),
            forall|i: int|
                0 <= i < old(self).combatants@.len() ==> (#[trigger] final(self).combatants@[i]).conditions@
                    == if targeted(targets@, i) {
                    with_conditions(old(self).combatants@[i].conditions@, kinds@, duration)
                } else {
                    old(self).combatants@[i].conditions@
                },
            forall|i: int|
                0 <= i < old(self).combatants@.len() ==> (#[trigger] final(self).combatants@[i]).kind
                    == old(self).combatants@[i].kind && final(self).combatants@[i].actions
                    == old(self).combatants@[i].actions && final(self).combatants@[i].hit_points
                    == old(self).combatants@[i].hit_points,
    {
        let mut k: usize = 0;
        while k < targets.len()
            invariant
                self.wf(),
                duration.wf(),
                k <= targets@.len(),
                targets@.no_duplicates(),
                self.turn == old(self).turn,
                self.round == old(self).round,
                self.combatants@.len() == old(self).combatants@.len(),
                forall|j: int|
                    0 <= j < targets@.len() ==> (#[trigger] targets@[j]) < old(self).combatants@.len(),
                forall|i: int|
                    0 <= i < old(self).combatants@.len() ==> (#[trigger] self.combatants@[i]).conditions@
                        == if targeted(targets@.subrange(0, k as int), i) {
                        with_conditions(old(self).combatants@[i].conditions@, kinds@, duration)
                    } else {
                        old(self).combatants@[i].conditions@
                    },
                forall|i: int|
                    0 <= i < old(self).combatants@.len() ==> (#[trigger] self.combatants@[i]).kind
                        == old(self).combatants@[i].kind && self.combatants@[i].actions
                        == old(self).combatants@[i].actions && self.combatants@[i].hit_points
                        == old(self).combatants@[i].hit_points,
            decreases targets@.len() - k,
        {
            let t = targets[k];
            let ghost done = targets@.subrange(0, k as int);
            proof {
                if targeted(done, t as int) {
                    let j = choose|j: int| 0 <= j < done.len() && done[j] as int == t as int;
                    assert(targets@[j] == targets@[k as int]);
                }
            }
            let ghost before = self.combatants@;
            self.combatants[t].apply_conditions(kinds, duration);
            proof {
                let next = targets@.subrange(0, k + 1);
                assert(next == done.push(t));
                assert forall|i: int| 0 <= i < self.combatants@.len() implies (
                #[trigger] self.combatants@[i]).wf() by {
                    assert(i == t || self.combatants@[i] == before[i]);
                }
                assert forall|i: int| 0 <= i < old(self).combatants@.len() implies (
                #[trigger] self.combatants@[i]).conditions@ == if targeted(next, i) {
                    with_conditions(old(self).combatants@[i].conditions@, kinds@, duration)
                } else {
                    old(self).combatants@[i].conditions@
                } by {
                    if i == t {
                        assert(next[k as int] == t);
                        assert(targeted(next, i));
                        assert(!targeted(done, i));
                    } else {
                        if targeted(next, i) {
                            let j = choose|j: int| 0 <= j < next.len() && next[j] as int == i;
                            assert(j != k);
                            assert(done[j] == next[j]);
                        }
                        if targeted(done, i) {
                            let j = choose|j: int| 0 <= j < done.len() && done[j] as int == i;
                            assert(next[j] == done[j]);
                        }
                    }
                }
            }
            k = k + 1;
        }
        proof {
            assert(targets@.subrange(0, targets@.len() as int) == targets@);
        }
    }
}

} // verus!
