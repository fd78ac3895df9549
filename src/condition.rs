use vstd::prelude::*;

use crate::text::{decimal, push_decimal};

verus! {

/// A condition and how long it lasts.
#[derive(Clone, Copy, Debug, PartialEq, Eq, Structural)]
pub struct Condition {
    /// The condition to apply.
    pub kind: ConditionKind,
    /// The duration of the condition.
    pub duration: ConditionDuration,
}

/// All possible conditions that can be applied to a combatant.
#[derive(Clone, Copy, Debug, PartialEq, Eq, Hash, Structural)]
pub enum ConditionKind {
    Blinded,
    Charmed,
    Deafened,
    Exhaustion,
    Frightened,
    Grappled,
    Incapacitated,
    Invisible,
    Paralyzed,
    Petrified,
    Poisoned,
    Prone,
    Restrained,
    Stunned,
    Unconscious,
}

/// Every condition kind, in the order in which pickers list them.
pub open spec fn all_kinds() -> Seq<ConditionKind> {
    seq![
        ConditionKind::Blinded,
        ConditionKind::Charmed,
        ConditionKind::Deafened,
        ConditionKind::Exhaustion,
        ConditionKind::Frightened,
        ConditionKind::Grappled,
        ConditionKind::Incapacitated,
        ConditionKind::Invisible,
        ConditionKind::Paralyzed,
        ConditionKind::Petrified,
        ConditionKind::Poisoned,
        ConditionKind::Prone,
        ConditionKind::Restrained,
        ConditionKind::Stunned,
        ConditionKind::Unconscious,
    ]
}

/// `all_kinds` lists every kind, each once.
proof fn lemma_all_kinds_complete()
    ensures
        all_kinds().no_duplicates(),
        forall|k: ConditionKind| all_kinds().contains(k),
{
    let s = all_kinds();
    assert forall|k: ConditionKind| s.contains(k) by {
        let i: int = match k {
            ConditionKind::Blinded => 0,
            ConditionKind::Charmed => 1,
            ConditionKind::Deafened => 2,
            ConditionKind::Exhaustion => 3,
            ConditionKind::Frightened => 4,
            ConditionKind::Grappled => 5,
            ConditionKind::Incapacitated => 6,
            ConditionKind::Invisible => 7,
            ConditionKind::Paralyzed => 8,
            ConditionKind::Petrified => 9,
            ConditionKind::Poisoned => 10,
            ConditionKind::Prone => 11,
            ConditionKind::Restrained => 12,
            ConditionKind::Stunned => 13,
            ConditionKind::Unconscious => 14,
        };
        assert(s[i] == k);
    }
}

/// No two kinds share an abbreviation.
pub proof fn lemma_abbreviations_unique(a: ConditionKind, b: ConditionKind)
    ensures
        a.spec_abbreviation() == b.spec_abbreviation() ==> a == b,
{
    if a.spec_abbreviation() == b.spec_abbreviation() {
        assert(a.spec_abbreviation().len() == b.spec_abbreviation().len());
        assert(a.spec_abbreviation()[0] == b.spec_abbreviation()[0]);
        assert(a.spec_abbreviation()[1] == b.spec_abbreviation()[1]);
        if a.spec_abbreviation().len() == 3 {
            assert(a.spec_abbreviation()[2] == b.spec_abbreviation()[2]);
        }
    }
}

impl ConditionKind {
    /// The short abbreviation that identifies the condition in compact displays.
    pub open spec fn spec_abbreviation(self) -> Seq<char> {
        match self {
            ConditionKind::Blinded => seq!['B', 'L'],
            ConditionKind::Charmed => seq!['C', 'H'],
            ConditionKind::Deafened => seq!['D', 'E'],
            ConditionKind::Exhaustion => seq!['E', 'X'],
            ConditionKind::Frightened => seq!['F', 'R'],
            ConditionKind::Grappled => seq!['G', 'R'],
            ConditionKind::Incapacitated => seq!['I', 'N', 'C'],
            ConditionKind::Invisible => seq!['I', 'N', 'V'],
            ConditionKind::Paralyzed => seq!['P', 'A'],
            ConditionKind::Petrified => seq!['P', 'E'],
            ConditionKind::Poisoned => seq!['P', 'O'],
            ConditionKind::Prone => seq!['P', 'R'],
            ConditionKind::Restrained => seq!['R', 'E'],
            ConditionKind::Stunned => seq!['S', 'T'],
            ConditionKind::Unconscious => seq!['U', 'N'],
        }
    }

    /// The condition's full name.
    pub open spec fn spec_name(self) -> Seq<char> {
        match self {
            ConditionKind::Blinded => "Blinded"@,
            ConditionKind::Charmed => "Charmed"@,
            ConditionKind::Deafened => "Deafened"@,
            ConditionKind::Exhaustion => "Exhaustion"@,
            ConditionKind::Frightened => "Frightened"@,
            ConditionKind::Grappled => "Grappled"@,
            ConditionKind::Incapacitated => "Incapacitated"@,
            ConditionKind::Invisible => "Invisible"@,
            ConditionKind::Paralyzed => "Paralyzed"@,
            ConditionKind::Petrified => "Petrified"@,
            ConditionKind::Poisoned => "Poisoned"@,
            ConditionKind::Prone => "Prone"@,
            ConditionKind::Restrained => "Restrained"@,
            ConditionKind::Stunned => "Stunned"@,
            ConditionKind::Unconscious => "Unconscious"@,
        }
    }

    /// Returns the condition's full name, as displayed in condition tables.
    pub fn name(self) -> (r: &'static str)
        ensures
            r@ == self.spec_name(),
    {
        match self {
            ConditionKind::Blinded => "Blinded",
            ConditionKind::Charmed => "Charmed",
            ConditionKind::Deafened => "Deafened",
            ConditionKind::Exhaustion => "Exhaustion",
            ConditionKind::Frightened => "Frightened",
            ConditionKind::Grappled => "Grappled",
            ConditionKind::Incapacitated => "Incapacitated",
            ConditionKind::Invisible => "Invisible",
            ConditionKind::Paralyzed => "Paralyzed",
            ConditionKind::Petrified => "Petrified",
            ConditionKind::Poisoned => "Poisoned",
            ConditionKind::Prone => "Prone",
            ConditionKind::Restrained => "Restrained",
            ConditionKind::Stunned => "Stunned",
            ConditionKind::Unconscious => "Unconscious",
        }
    }

    /// Returns every condition kind, each once, in a stable order.
    pub fn variants() -> (r: Vec<ConditionKind>)
        ensures
            r@ == all_kinds(),
            r@.no_duplicates(),
            forall|k: ConditionKind| r@.contains(k),
    {
        proof {
            lemma_all_kinds_complete();
        }
        vec![
            ConditionKind::Blinded,
            ConditionKind::Charmed,
            ConditionKind::Deafened,
            ConditionKind::Exhaustion,
            ConditionKind::Frightened,
            ConditionKind::Grappled,
            ConditionKind::Incapacitated,
            ConditionKind::Invisible,
            ConditionKind::Paralyzed,
            ConditionKind::Petrified,
            ConditionKind::Poisoned,
            ConditionKind::Prone,
            ConditionKind::Restrained,
            ConditionKind::Stunned,
            ConditionKind::Unconscious,
        ]
    }

    /// Returns an abbreviation for the condition that identifies it uniquely.
    pub fn abbreviation(self) -> (r: &'static str)
        ensures
            r@ == self.spec_abbreviation(),
    {
        let r = match self {
            ConditionKind::Blinded => "BL",
            ConditionKind::Charmed => "CH",
            ConditionKind::Deafened => "DE",
            ConditionKind::Exhaustion => "EX",
            ConditionKind::Frightened => "FR",
            ConditionKind::Grappled => "GR",
            ConditionKind::Incapacitated => "INC",
            ConditionKind::Invisible => "INV",
            ConditionKind::Paralyzed => "PA",
            ConditionKind::Petrified => "PE",
            ConditionKind::Poisoned => "PO",
            ConditionKind::Prone => "PR",
            ConditionKind::Restrained => "RE",
            ConditionKind::Stunned => "ST",
            ConditionKind::Unconscious => "UN",
        };
        proof {
            reveal_strlit("BL");
            reveal_strlit("CH");
            reveal_strlit("DE");
            reveal_strlit("EX");
            reveal_strlit("FR");
            reveal_strlit("GR");
            reveal_strlit("INC");
            reveal_strlit("INV");
            reveal_strlit("PA");
            reveal_strlit("PE");
            reveal_strlit("PO");
            reveal_strlit("PR");
            reveal_strlit("RE");
            reveal_strlit("ST");
            reveal_strlit("UN");
        }
        r
    }
}

impl Condition {
    /// How the condition reads in a compact display: its abbreviation, then a colon and the
    /// rounds it has left, if it ends at all.
    pub open spec fn spec_compact_label(self) -> Seq<char> {
        match self.duration.spec_rounds_left() {
            Some(n) => self.kind.spec_abbreviation() + seq![':'] + decimal(n as nat),
            None => self.kind.spec_abbreviation(),
        }
    }

    /// Returns how the condition reads in a compact display, such as `ST:2`, or `PR` for a
    /// condition that lasts forever.
    pub fn compact_label(&self) -> (r: String)
        requires
            self.duration.wf(),
        ensures
            r@ == self.spec_compact_label(),
    {
        let mut s = String::new();
        s.append(self.kind.abbreviation());
        match self.duration.rounds_left() {
            Some(n) => {
                proof {
                    reveal_strlit(":");
                }
                s.append(":");
                push_decimal(&mut s, n);
            },
            None => {},
        }
        s
    }
}

/// Duration of a condition.
#[derive(Clone, Copy, Debug, Default, PartialEq, Eq, Hash, Structural)]
pub enum ConditionDuration {
    /// The condition lasts until the end of the combatant's next turn.
    #[default]
    UntilNextTurn,
    /// The condition lasts for the given number of rounds (at least one).
    ///
    /// When the combatant's turn ends, the duration is decremented by one. When the duration
    /// is reduced to zero, the condition ends.
    Rounds(u32),
    /// The condition lasts for the given number of minutes (at least one).
    ///
    /// One minute is equal to 10 rounds.
    Minutes(u32),
    /// The condition lasts forever until it is manually removed.
    Forever,
}

impl ConditionDuration {
    /// A duration is well formed when its count is at least one, and, for minutes, when its
    /// length in rounds fits in a `u32`.
    pub open spec fn wf(self) -> bool {
        match self {
            ConditionDuration::Rounds(n) => n >= 1,
            ConditionDuration::Minutes(n) => 1 <= n && n * 10 <= u32::MAX,
            _ => true,
        }
    }

    /// The number of rounds until the condition ends; `None` for a condition that lasts
    /// forever.
    pub open spec fn spec_rounds_left(self) -> Option<u32> {
        match self {
            ConditionDuration::UntilNextTurn => Some(2u32),
            ConditionDuration::Rounds(n) => Some(n),
            ConditionDuration::Minutes(n) => Some((n * 10) as u32),
            ConditionDuration::Forever => None,
        }
    }

    /// The duration left once one more round has passed; `None` once the condition has ended.
    /// Every finite duration that survives is counted in rounds.
    pub open spec fn spec_decrement(self) -> Option<ConditionDuration> {
        match self.spec_rounds_left() {
            None => Some(ConditionDuration::Forever),
            Some(n) => if n <= 1 {
                None
            } else {
                Some(ConditionDuration::Rounds((n - 1) as u32))
            },
        }
    }

    /// Whether `self` lasts strictly longer than `other`: a duration that lasts forever is
    /// longer than any finite one, and finite durations compare by the rounds they have left.
    pub open spec fn longer(self, other: ConditionDuration) -> bool {
        match (self.spec_rounds_left(), other.spec_rounds_left()) {
            (None, None) => false,
            (None, Some(_)) => true,
            (Some(_), None) => false,
            (Some(a), Some(b)) => a > b,
        }
    }

    /// How the duration reads in a display.
    pub open spec fn spec_label(self) -> Seq<char> {
        match self {
            ConditionDuration::UntilNextTurn => seq!['2'] + plural_rounds(),
            ConditionDuration::Rounds(n) => if n == 1 {
                seq!['1'] + singular_round()
            } else {
                decimal(n as nat) + plural_rounds()
            },
            ConditionDuration::Minutes(n) => if n == 1 {
                seq!['1'] + singular_minute()
            } else {
                decimal(n as nat) + plural_minutes()
            },
            ConditionDuration::Forever => seq!['F', 'o', 'r', 'e', 'v', 'e', 'r'],
        }
    }

    /// Returns the number of rounds until the condition ends. Returns `None` if the condition
    /// duration is `ConditionDuration::Forever`.
    pub fn rounds_left(self) -> (r: Option<u32>)
        requires
            self.wf(),
        ensures
            r == self.spec_rounds_left(),
    {
        match self {
            // the value is 2: one turn to end the current turn and one to end the next
            ConditionDuration::UntilNextTurn => Some(2),
            ConditionDuration::Rounds(n) => Some(n),
            ConditionDuration::Minutes(n) => Some(n * 10),
            ConditionDuration::Forever => None,
        }
    }

    /// Returns a new duration with one round subtracted. `ConditionDuration::Forever` simply
    /// returns itself. Returns `None` if the duration is or will be zero.
    pub fn decrement(self) -> (r: Option<ConditionDuration>)
        requires
            self.wf(),
        ensures
            r == self.spec_decrement(),
            r matches Some(d) ==> d.wf(),
    {
        if matches!(self, ConditionDuration::Forever) {
            return Some(ConditionDuration::Forever);
        }
        match self.rounds_left() {
            None => None,
            Some(rounds) => match rounds.checked_sub(1) {
                None => None,
                Some(left) => if left == 0 {
                    None
                } else {
                    Some(ConditionDuration::Rounds(left))
                },
            },
        }
    }

    /// Returns whether this duration lasts strictly longer than `other`.
    pub fn is_longer_than(self, other: ConditionDuration) -> (r: bool)
        requires
            self.wf(),
            other.wf(),
        ensures
            r == self.longer(other),
    {
        match (self.rounds_left(), other.rounds_left()) {
            (None, None) => false,
            (None, Some(_)) => true,
            (Some(_), None) => false,
            (Some(a), Some(b)) => a > b,
        }
    }

    /// Returns how the duration reads in a display, such as `1 round` or `3 minutes`.
    pub fn label(self) -> (r: String)
        ensures
            r@ == self.spec_label(),
    {
        proof {
            reveal_strlit("2 rounds");
            reveal_strlit("1 round");
            reveal_strlit(" rounds");
            reveal_strlit("1 minute");
            reveal_strlit(" minutes");
            reveal_strlit("Forever");
        }
        match self {
            ConditionDuration::UntilNextTurn => String::from_str("2 rounds"),
            ConditionDuration::Rounds(n) => if n == 1 {
                String::from_str("1 round")
            } else {
                let mut s = String::new();
                push_decimal(&mut s, n);
                s.append(" rounds");
                s
            },
            ConditionDuration::Minutes(n) => if n == 1 {
                String::from_str("1 minute")
            } else {
                let mut s = String::new();
                push_decimal(&mut s, n);
                s.append(" minutes");
                s
            },
            ConditionDuration::Forever => String::from_str("Forever"),
        }
    }
}

pub open spec fn singular_round() -> Seq<char> {
    seq![' ', 'r', 'o', 'u', 'n', 'd']
}

pub open spec fn plural_rounds() -> Seq<char> {
    singular_round().push('s')
}

pub open spec fn singular_minute() -> Seq<char> {
    seq![' ', 'm', 'i', 'n', 'u', 't', 'e']
}

pub open spec fn plural_minutes() -> Seq<char> {
    singular_minute().push('s')
}

} // verus!
