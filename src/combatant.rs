use vstd::prelude::*;

use crate::ability::Modifier;
use crate::condition::{Condition, ConditionDuration, ConditionKind};
use crate::monster::{Monster, Speed};

verus! {

/// The number of actions, bonus actions, and reactions a combatant has.
#[derive(Clone, Copy, Debug, PartialEq, Eq, Structural)]
pub struct Action {
    pub actions: u32,
    pub bonus_actions: u32,
    pub reactions: u32,
}

impl Action {
    /// The budget a combatant starts each turn with: one of each.
    pub open spec fn fresh() -> Action {
        Action { actions: 1, bonus_actions: 1, reactions: 1 }
    }
}

/// By default, a combatant has one action, one bonus action, and one reaction.
impl Default for Action {
    fn default() -> (r: Self)
        ensures
            r == Action::fresh(),
    {
        Action { actions: 1, bonus_actions: 1, reactions: 1 }
    }
}

/// A kind of combatant.
#[derive(Clone, Debug)]
pub enum CombatantKind {
    /// Pre-made monster.
    Monster(Monster),
}

/// A combatant in the initiative tracker.
///
/// Combatants can include player characters, monsters, NPCs, etc.
#[derive(Clone, Debug)]
pub struct Combatant {
    /// The kind of combatant.
    pub kind: CombatantKind,
    /// The combatant's current hit points.
    pub hit_points: i32,
    /// The actions available to the combatant.
    pub actions: Action,
    /// The conditions active on the combatant, at most one of each kind.
    pub conditions: Vec<Condition>,
}

/// A list of conditions is well formed when every duration is and no kind occurs twice.
pub open spec fn conditions_wf(s: Seq<Condition>) -> bool {
    &&& forall|i: int| 0 <= i < s.len() ==> (#[trigger] s[i]).duration.wf()
    &&& forall|i: int, j: int|
        0 <= i < s.len() && 0 <= j < s.len() && i != j ==> (#[trigger] s[i]).kind != (#[trigger] s[j]).kind
}

/// Whether some condition in `s` has kind `k`.
pub open spec fn has_kind(s: Seq<Condition>, k: ConditionKind) -> bool {
    exists|i: int| 0 <= i < s.len() && (#[trigger] s[i]).kind == k
}

/// The conditions `s` after `c` is applied: a condition of a kind not yet present is appended;
/// one already present keeps the longer of its own and the new duration.
pub open spec fn with_condition(s: Seq<Condition>, c: Condition) -> Seq<Condition> {
    if has_kind(s, c.kind) {
        let i = choose|i: int| 0 <= i < s.len() && (#[trigger] s[i]).kind == c.kind;
        if c.duration.longer(s[i].duration) {
            s.update(i, c)
        } else {
            s
        }
    } else {
        s.push(c)
    }
}

/// The conditions `s` after one condition of each kind in `kinds`, in order, is applied with
/// `duration`.
pub open spec fn with_conditions(
    s: Seq<Condition>,
    kinds: Seq<ConditionKind>,
    duration: ConditionDuration,
) -> Seq<Condition>
    decreases kinds.len(),
{
    if kinds.len() == 0 {
        s
    } else {
        with_condition(
            with_conditions(s, kinds.drop_last(), duration),
            Condition { kind: kinds.last(), duration },
        )
    }
}

/// The conditions `s` once a turn of their bearer has ended: every duration loses a round, and
/// the conditions that run out are removed; the others keep their order.
pub open spec fn after_turn_end(s: Seq<Condition>) -> Seq<Condition>
    decreases s.len(),
{
    if s.len() == 0 {
        s
    } else {
        let rest = after_turn_end(s.drop_last());
        match s.last().duration.spec_decrement() {
            Some(d) => rest.push(Condition { kind: s.last().kind, duration: d }),
            None => rest,
        }
    }
}

/// Every condition left after a turn end has a kind that was there before, and a well-formed
/// duration.
proof fn lemma_after_turn_end_kinds(s: Seq<Condition>)
    requires
        conditions_wf(s),
    ensures
        forall|i: int|
            0 <= i < after_turn_end(s).len() ==> has_kind(s, (#[trigger] after_turn_end(s)[i]).kind)
                && after_turn_end(s)[i].duration.wf(),
    decreases s.len(),
{
    if s.len() > 0 {
        let p = s.drop_last();
        assert(conditions_wf(p)) by {
            assert forall|i: int, j: int|
                0 <= i < p.len() && 0 <= j < p.len() && i != j implies (#[trigger] p[i]).kind
                != (#[trigger] p[j]).kind by {
                assert(p[i] == s[i] && p[j] == s[j]);
            }
            assert forall|i: int| 0 <= i < p.len() implies (#[trigger] p[i]).duration.wf() by {
                assert(p[i] == s[i]);
            }
        }
        lemma_after_turn_end_kinds(p);
        let r = after_turn_end(s);
        assert forall|i: int| 0 <= i < r.len() implies has_kind(s, (#[trigger] r[i]).kind)
            && r[i].duration.wf() by {
            let rest = after_turn_end(p);
            if i < rest.len() {
                assert(r[i] == rest[i]);
                let j = choose|j: int| 0 <= j < p.len() && (#[trigger] p[j]).kind == rest[i].kind;
                assert(s[j] == p[j]);
            } else {
                assert(s[s.len() - 1] == s.last());
            }
        }
    }
}

/// Ending a turn keeps a list of conditions well formed.
proof fn lemma_after_turn_end_wf(s: Seq<Condition>)
    requires
        conditions_wf(s),
    ensures
        conditions_wf(after_turn_end(s)),
    decreases s.len(),
{
    lemma_after_turn_end_kinds(s);
    if s.len() > 0 {
        let p = s.drop_last();
        assert(conditions_wf(p)) by {
            assert forall|i: int, j: int|
                0 <= i < p.len() && 0 <= j < p.len() && i != j implies (#[trigger] p[i]).kind
                != (#[trigger] p[j]).kind by {
                assert(p[i] == s[i] && p[j] == s[j]);
            }
            assert forall|i: int| 0 <= i < p.len() implies (#[trigger] p[i]).duration.wf() by {
                assert(p[i] == s[i]);
            }
        }
        lemma_after_turn_end_wf(p);
        lemma_after_turn_end_kinds(p);
        let rest = after_turn_end(p);
        let r = after_turn_end(s);
        assert(!has_kind(p, s.last().kind)) by {
            if has_kind(p, s.last().kind) {
                let j = choose|j: int| 0 <= j < p.len() && (#[trigger] p[j]).kind == s.last().kind;
                assert(s[j] == p[j]);
                assert(s[s.len() - 1] == s.last());
            }
        }
        assert forall|i: int, j: int|
            0 <= i < r.len() && 0 <= j < r.len() && i != j implies (#[trigger] r[i]).kind
            != (#[trigger] r[j]).kind by {
            if i < rest.len() && j < rest.len() {
                assert(r[i] == rest[i] && r[j] == rest[j]);
            } else if i < rest.len() {
                assert(r[i] == rest[i]);
                assert(has_kind(p, rest[i].kind));
            } else {
                assert(r[j] == rest[j]);
                assert(has_kind(p, rest[j].kind));
            }
        }
    }
}

/// Applying a condition with a well-formed duration keeps a list of conditions well formed.
proof fn lemma_with_condition_wf(s: Seq<Condition>, c: Condition)
    requires
        conditions_wf(s),
        c.duration.wf(),
    ensures
        conditions_wf(with_condition(s, c)),
{
    let r = with_condition(s, c);
    if has_kind(s, c.kind) {
        let k = choose|i: int| 0 <= i < s.len() && (#[trigger] s[i]).kind == c.kind;
        assert forall|i: int, j: int|
            0 <= i < r.len() && 0 <= j < r.len() && i != j implies (#[trigger] r[i]).kind
            != (#[trigger] r[j]).kind by {
            assert(r[i].kind == s[i].kind);
            assert(r[j].kind == s[j].kind);
        }
    } else {
        assert forall|i: int, j: int|
            0 <= i < r.len() && 0 <= j < r.len() && i != j implies (#[trigger] r[i]).kind
            != (#[trigger] r[j]).kind by {
            if i < s.len() && j < s.len() {
                assert(r[i] == s[i] && r[j] == s[j]);
            } else if i < s.len() {
                assert(r[i] == s[i]);
            } else {
                assert(r[j] == s[j]);
            }
        }
    }
}

impl Combatant {
    /// The monster behind the combatant.
    pub open spec fn monster(&self) -> Monster {
        match self.kind {
            CombatantKind::Monster(m) => m,
        }
    }

    /// A combatant is well formed when its conditions are.
    pub open spec fn wf(&self) -> bool {
        conditions_wf(self.conditions@)
    }

    /// A combatant made from a monster: at the monster's full hit points, with a fresh action
    /// budget and no conditions.
    pub fn from_monster(monster: Monster) -> (r: Combatant)
        ensures
            r.monster() == monster,
            r.hit_points == monster.hit_points,
            r.actions == Action::fresh(),
            r.conditions@ == Seq::<Condition>::empty(),
            r.wf(),
    {
        let hit_points = monster.hit_points;
        Combatant {
            hit_points,
            kind: CombatantKind::Monster(monster),
            actions: Action::default(),
            conditions: Vec::new(),
        }
    }

    /// Returns the combatant's name.
    pub fn name(&self) -> (r: &str)
        ensures
            r@ == self.monster().name@,
    {
        match &self.kind {
            CombatantKind::Monster(monster) => monster.name.as_str(),
        }
    }

    /// Returns the combatant's main armor class.
    pub fn armor_class(&self) -> (r: u32)
        ensures
            r == self.monster().armor_class.value,
    {
        match &self.kind {
            CombatantKind::Monster(monster) => monster.armor_class.value,
        }
    }

    /// Returns the combatant's speed.
    pub fn speed(&self) -> (r: &Speed)
        ensures
            *r == self.monster().speed,
    {
        match &self.kind {
            CombatantKind::Monster(monster) => &monster.speed,
        }
    }

    /// Returns the combatant's maximum hit points.
    pub fn max_hit_points(&self) -> (r: i32)
        ensures
            r == self.monster().hit_points,
    {
        match &self.kind {
            CombatantKind::Monster(monster) => monster.hit_points,
        }
    }

    /// Returns the combatant's proficiency bonus.
    pub fn proficiency_bonus(&self) -> (r: Modifier)
        ensures
            r == self.monster().proficiency_bonus,
    {
        match &self.kind {
            CombatantKind::Monster(monster) => monster.proficiency_bonus,
        }
    }

    /// Returns whether the combatant is down: at zero hit points or fewer.
    pub fn is_defeated(&self) -> (r: bool)
        ensures
            r == (self.hit_points <= 0),
    {
        self.hit_points <= 0
    }

    /// Damage the combatant by the given amount.
    ///
    /// The hit points do not stop at 0: the combatant can have negative hit points.
    pub fn damage(&mut self, amount: i32)
        requires
            i32::MIN <= old(self).hit_points - amount <= i32::MAX,
        ensures
            final(self).hit_points == old(self).hit_points - amount,
            final(self).kind == old(self).kind,
            final(self).actions == old(self).actions,
            final(self).conditions@ == old(self).conditions@,
    {
        self.hit_points = self.hit_points - amount;
    }

    /// Applies a condition: a condition of a kind the combatant does not bear yet is added at
    /// the end; one it bears already keeps the longer of the two durations.
    pub fn apply_condition(&mut self, condition: Condition)
        requires
            old(self).wf(),
            condition.duration.wf(),
        ensures
            final(self).wf(),
            final(self).conditions@ == with_condition(old(self).conditions@, condition),
            final(self).kind == old(self).kind,
            final(self).hit_points == old(self).hit_points,
            final(self).actions == old(self).actions,
    {
        proof {
            lemma_with_condition_wf(self.conditions@, condition);
        }
        let ghost s = self.conditions@;
        let n = self.conditions.len();
        let mut i: usize = 0;
        while i < n
            invariant
                n == self.conditions@.len(),
                self.conditions@ == s,
                s == old(self).conditions@,
                self.kind == old(self).kind,
                self.hit_points == old(self).hit_points,
                self.actions == old(self).actions,
                conditions_wf(s),
                condition.duration.wf(),
                i <= n,
                forall|j: int| 0 <= j < i ==> (#[trigger] s[j]).kind != condition.kind,
            decreases n - i,
        {
            if self.conditions[i].kind == condition.kind {
                proof {
                    let k = choose|k: int| 0 <= k < s.len() && (#[trigger] s[k]).kind == condition.kind;
                    assert(k == i);
                }
                if condition.duration.is_longer_than(self.conditions[i].duration) {
                    self.conditions[i] = condition;
                }
                return;
            }
            i = i + 1;
        }
        self.conditions.push(condition);
    }

    /// Applies one condition of each kind in `kinds`, in order, all with the same duration.
    pub fn apply_conditions(&mut self, kinds: &Vec<ConditionKind>, duration: ConditionDuration)
        requires
            old(self).wf(),
            duration.wf(),
        ensures
            final(self).wf(),
            final(self).conditions@ == with_conditions(old(self).conditions@, kinds@, duration),
            final(self).kind == old(self).kind,
            final(self).hit_points == old(self).hit_points,
            final(self).actions == old(self).actions,
    {
        let mut i: usize = 0;
        while i < kinds.len()
            invariant
                self.wf(),
                duration.wf(),
                i <= kinds@.len(),
                self.conditions@ == with_conditions(old(self).conditions@, kinds@.subrange(0, i as int), duration),
                self.kind == old(self).kind,
                self.hit_points == old(self).hit_points,
                self.actions == old(self).actions,
            decreases kinds@.len() - i,
        {
            let ghost before = self.conditions@;
            self.apply_condition(Condition { kind: kinds[i], duration });
            proof {
                let next = kinds@.subrange(0, i + 1);
                assert(next.drop_last() == kinds@.subrange(0, i as int));
                assert(next.last() == kinds@[i as int]);
            }
            i = i + 1;
        }
        proof {
            assert(kinds@.subrange(0, kinds@.len() as int) == kinds@);
        }
    }

    /// Ends the combatant's turn for its conditions: each loses a round, and those that run out
    /// are removed.
    pub fn end_turn(&mut self)
        requires
            old(self).wf(),
        ensures
            final(self).wf(),
            final(self).conditions@ == after_turn_end(old(self).conditions@),
            final(self).kind == old(self).kind,
            final(self).hit_points == old(self).hit_points,
            final(self).actions == old(self).actions,
    {
        let ghost s = self.conditions@;
        let mut kept: Vec<Condition> = Vec::new();
        let mut i: usize = 0;
        while i < self.conditions.len()
            invariant
                self.conditions@ == s,
                conditions_wf(s),
                i <= s.len(),
                s == old(self).conditions@,
                self.kind == old(self).kind,
                self.hit_points == old(self).hit_points,
                self.actions == old(self).actions,
                kept@ == after_turn_end(s.subrange(0, i as int)),
            decreases s.len() - i,
        {
            let c = self.conditions[i];
            proof {
                let next = s.subrange(0, i + 1);
                assert(next.drop_last() == s.subrange(0, i as int));
                assert(next.last() == c);
            }
            match c.duration.decrement() {
                Some(d) => kept.push(Condition { kind: c.kind, duration: d }),
                None => {},
            }
            i = i + 1;
        }
        proof {
            assert(s.subrange(0, s.len() as int) == s);
            lemma_after_turn_end_wf(s);
        }
        self.conditions = kept;
    }
}

} // verus!
