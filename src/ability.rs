use vstd::prelude::*;

verus! {

/// An ability score (1-30).
pub type Score = i32;

/// An ability modifier (-5 to +10).
pub type Modifier = i32;

/// The modifier of an ability score: `floor((score - 10) / 2)`, rounding toward negative
/// infinity for odd scores below 10.
pub open spec fn modifier_of(score: int) -> int {
    (score - 10) / 2
}

/// Computes the modifier for an ability score.
pub fn score_to_modifier(score: Score) -> (m: Modifier)
    ensures
        m == modifier_of(score as int),
{
    // `(score - 10) / 2` in machine arithmetic truncates toward zero, which rounds the odd
    // scores below 10 up instead of down; halve first, round down, then subtract.
    let half: i32 = score / 2;
    let floor_half: i32 = if score < 0 && score % 2 != 0 { half - 1 } else { half };
    floor_half - 5
}

/// A type that packs together all six ability values.
///
/// It can represent the ability scores themselves, the ability score modifiers, or any other
/// numerical values related to abilities, depending on the parameter chosen for the type `T`.
#[derive(Clone, Copy, Debug, Default)]
pub struct Ability<T> {
    pub strength: T,
    pub dexterity: T,
    pub constitution: T,
    pub intelligence: T,
    pub wisdom: T,
    pub charisma: T,
}

impl Ability<Score> {
    /// Convert the ability scores to ability modifiers.
    pub fn modifiers(&self) -> (r: Ability<Modifier>)
        ensures
            r.strength == modifier_of(self.strength as int),
            r.dexterity == modifier_of(self.dexterity as int),
            r.constitution == modifier_of(self.constitution as int),
            r.intelligence == modifier_of(self.intelligence as int),
            r.wisdom == modifier_of(self.wisdom as int),
            r.charisma == modifier_of(self.charisma as int),
    {
        Ability {
            strength: score_to_modifier(self.strength),
            dexterity: score_to_modifier(self.dexterity),
            constitution: score_to_modifier(self.constitution),
            intelligence: score_to_modifier(self.intelligence),
            wisdom: score_to_modifier(self.wisdom),
            charisma: score_to_modifier(self.charisma),
        }
    }
}

/// A type that packs together all skills.
#[derive(Clone, Copy, Debug, Default)]
pub struct Skill<T> {
    /// Acrobatics (Dexterity).
    pub acrobatics: T,
    /// Animal Handling (Wisdom).
    pub animal_handling: T,
    /// Arcana (Intelligence).
    pub arcana: T,
    /// Athletics (Strength).
    pub athletics: T,
    /// Deception (Charisma).
    pub deception: T,
    /// History (Intelligence).
    pub history: T,
    /// Insight (Wisdom).
    pub insight: T,
    /// Intimidation (Charisma).
    pub intimidation: T,
    /// Investigation (Intelligence).
    pub investigation: T,
    /// Medicine (Wisdom).
    pub medicine: T,
    /// Nature (Intelligence).
    pub nature: T,
    /// Perception (Wisdom).
    pub perception: T,
    /// Performance (Charisma).
    pub performance: T,
    /// Persuasion (Charisma).
    pub persuasion: T,
    /// Religion (Intelligence).
    pub religion: T,
    /// Sleight of Hand (Dexterity).
    pub sleight_of_hand: T,
    /// Stealth (Dexterity).
    pub stealth: T,
    /// Survival (Wisdom).
    pub survival: T,
}

} // verus!
