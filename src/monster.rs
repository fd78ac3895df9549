use vstd::prelude::*;

use crate::ability::{Ability, Modifier, Score, Skill};
use crate::text::str_eq;

verus! {

/// The source of a monster's armor class value.
#[derive(Clone, Copy, Debug, Default, PartialEq, Eq, Structural)]
pub enum ArmorClassSource {
    /// The armor class is calculated from the monster's Dexterity modifier (i.e., 10 + DEX mod).
    #[default]
    Dexterity,
    /// The monster has natural armor that provides a fixed armor class value.
    Natural,
    /// The monster has armor that provides a fixed armor class value.
    Armor,
}

/// A monster's armor class.
#[derive(Clone, Copy, Debug, Default, PartialEq, Eq, Structural)]
pub struct ArmorClass {
    /// The source of the armor class value.
    pub source: ArmorClassSource,
    /// The armor class value.
    pub value: u32,
}

/// A creature's speed on all types of movement.
///
/// Each field is given as a descriptive string, such as "30 ft.".
#[derive(Clone, Debug, Default)]
pub struct Speed {
    /// Basic movement speed.
    pub walk: Option<String>,
    /// Movement speed when moving through sand, earth, mud, or ice.
    pub burrow: Option<String>,
    /// Movement speed when climbing.
    pub climb: Option<String>,
    /// Movement speed when flying.
    pub fly: Option<String>,
    /// Movement speed when swimming.
    pub swim: Option<String>,
}

/// A creature's size.
#[derive(Clone, Copy, Debug, Default, PartialEq, Eq, Structural)]
pub enum Size {
    #[default]
    Tiny,
    Small,
    Medium,
    Large,
    Huge,
    Gargantuan,
}

/// A creature's type.
#[derive(Clone, Copy, Debug, Default, PartialEq, Eq, Structural)]
pub enum Type {
    Aberration,
    Beast,
    Celestial,
    Construct,
    Dragon,
    Elemental,
    Fey,
    Fiend,
    Giant,
    Humanoid,
    Monstrosity,
    Ooze,
    Plant,
    Undead,
    #[default]
    Other,
}

/// A monster's proficiencies.
#[derive(Clone, Debug, Default)]
pub struct Proficiencies {
    /// The monster's skill proficiencies.
    ///
    /// If the monster has proficiency in a skill, its modifier is `Some`, and holds its
    /// proficiency bonus plus its ability modifier for the relevant ability score. Otherwise it
    /// is `None`, and the monster uses the ability modifier alone for the skill check.
    pub skills: Skill<Option<Modifier>>,
    /// The monster's saving throw proficiencies.
    ///
    /// If the monster has proficiency in a saving throw, its modifier is `Some`, and holds its
    /// proficiency bonus plus its ability modifier for the relevant ability score. Otherwise it
    /// is `None`, and the monster uses the ability modifier alone for the saving throw.
    pub saving_throws: Ability<Option<Modifier>>,
}

/// A special ability that a monster has.
#[derive(Clone, Debug, Default)]
pub struct SpecialAbility {
    /// The name of the special ability.
    pub name: String,
    /// The description of the special ability.
    pub desc: String,
    /// The usage of the special ability.
    pub usage: Usage,
}

/// Usage constraints for a special ability.
#[derive(Clone, Copy, Debug, Default, PartialEq, Eq, Structural)]
pub enum Usage {
    /// The special ability has a limited number of usages per day. Effectively, this is a
    /// limit to how many times the special ability can be used in this combat encounter.
    PerDay(usize),
    /// The special ability recharges after a short or long rest.
    RechargeAfterRest,
    /// The special ability recharges only after a long rest.
    RechargeAfterLongRest,
    /// There is no constraint; the special ability can be used at will, or it is a passive
    /// ability that is always active.
    #[default]
    AtWill,
}

/// A pre-made monster from the System Reference Document (SRD), or a custom monster.
#[derive(Clone, Debug, Default)]
pub struct Monster {
    /// The monster's index, used for identification.
    pub index: String,
    /// The monster's name.
    pub name: String,
    /// A string describing the monster's alignment.
    pub alignment: String,
    /// The monster's ability scores, used for calculating modifiers.
    pub scores: Ability<Score>,
    /// The monster's size, used to determine the amount of space it occupies on the battlefield.
    pub size: Size,
    /// The type of monster, used for categorization, or for spells and abilities that target
    /// specific types of creatures.
    pub creature_type: Type,
    /// The monster's subtype, if any. This is used for further categorization.
    pub subtype: Option<String>,
    /// The monster's armor class, the amount needed to hit it with an attack.
    pub armor_class: ArmorClass,
    /// The monster's hit points.
    pub hit_points: i32,
    /// The expression to roll for the monster's hit points.
    pub hit_points_roll: String,
    /// The different speeds the monster has, such as walking, flying, or swimming.
    pub speed: Speed,
    /// The monster's proficiencies, including its skill and saving throw proficiencies.
    pub proficiencies: Proficiencies,
    /// The monster's challenge rating in eighths: `0`, `1` (for 1/8), `2` (1/4), `4` (1/2), or
    /// eight times an integer rating from 1 to 30.
    pub challenge_rating_eighths: u32,
    /// The XP value of the monster. If the DM is using XP to determine rewards, this is the amount
    /// of XP the party gains for defeating the monster.
    pub xp: i32,
    /// The monster's proficiency bonus, used for calculating attack bonuses and saving throw DCs.
    pub proficiency_bonus: i32,
    /// The monster's special abilities that aren't necessarily actions, bonus actions, or
    /// reactions. This includes things like Legendary Resistances, Lair Actions, etc.
    pub special_abilities: Vec<SpecialAbility>,
}

impl ArmorClassSource {
    /// The source that an entry of creature data names by `name`, if it names one.
    pub open spec fn spec_from_name(name: Seq<char>) -> Option<ArmorClassSource> {
        if name == "dex"@ {
            Some(ArmorClassSource::Dexterity)
        } else if name == "natural"@ {
            Some(ArmorClassSource::Natural)
        } else if name == "armor"@ {
            Some(ArmorClassSource::Armor)
        } else {
            None
        }
    }

    /// Returns the source that creature data names `name` (`dex`, `natural` or `armor`), or
    /// `None` for any other name.
    pub fn from_name(name: &str) -> (r: Option<ArmorClassSource>)
        ensures
            r == ArmorClassSource::spec_from_name(name@),
    {
        if str_eq(name, "dex") {
            Some(ArmorClassSource::Dexterity)
        } else if str_eq(name, "natural") {
            Some(ArmorClassSource::Natural)
        } else if str_eq(name, "armor") {
            Some(ArmorClassSource::Armor)
        } else {
            None
        }
    }
}

/// The armor class given by the first entry, from index `i` on, whose type names a known
/// source.
pub open spec fn first_armor_class(entries: Seq<(String, u32)>, i: int) -> Option<ArmorClass>
    decreases entries.len() - i,
{
    if i < 0 || i >= entries.len() {
        None
    } else {
        match ArmorClassSource::spec_from_name(entries[i].0@) {
            Some(source) => Some(ArmorClass { source, value: entries[i].1 }),
            None => first_armor_class(entries, i + 1),
        }
    }
}

impl ArmorClass {
    /// Returns the armor class of the first entry `(type, value)` whose type names a known
    /// source; `None` when no entry does.
    pub fn from_entries(entries: &Vec<(String, u32)>) -> (r: Option<ArmorClass>)
        ensures
            r == first_armor_class(entries@, 0),
    {
        let mut i: usize = 0;
        while i < entries.len()
            invariant
                i <= entries@.len(),
                first_armor_class(entries@, i as int) == first_armor_class(entries@, 0),
            decreases entries@.len() - i,
        {
            match ArmorClassSource::from_name(entries[i].0.as_str()) {
                Some(source) => {
                    return Some(ArmorClass { source, value: entries[i].1 });
                },
                None => {},
            }
            i = i + 1;
        }
        None
    }
}

/// The value of the last entry of `entries` named `name`, if any.
pub open spec fn last_value(entries: Seq<(String, i32)>, name: Seq<char>) -> Option<i32>
    decreases entries.len(),
{
    if entries.len() == 0 {
        None
    } else if entries.last().0@ == name {
        Some(entries.last().1)
    } else {
        last_value(entries.drop_last(), name)
    }
}

/// Returns the value of the last entry of `entries` named `name`, if any.
fn last_value_of(entries: &Vec<(String, i32)>, name: &str) -> (r: Option<i32>)
    ensures
        r == last_value(entries@, name@),
{
    let mut i: usize = entries.len();
    proof {
        assert(entries@.subrange(0, i as int) == entries@);
    }
    while i > 0
        invariant
            i <= entries@.len(),
            last_value(entries@.subrange(0, i as int), name@) == last_value(entries@, name@),
        decreases i,
    {
        let ghost prefix = entries@.subrange(0, i as int);
        proof {
            assert(prefix.drop_last() == entries@.subrange(0, i - 1));
            assert(prefix.last() == entries@[i - 1]);
        }
        if str_eq(entries[i - 1].0.as_str(), name) {
            return Some(entries[i - 1].1);
        }
        i = i - 1;
    }
    None
}

impl Proficiencies {
    /// Returns the proficiencies that entries `(index, modifier)` of creature data give: each
    /// saving throw and skill takes the modifier of the last entry whose index names it
    /// (`saving-throw-str`, `skill-animal-handling`, ...), and stays `None` when no entry does.
    /// Entries with other indices are ignored.
    pub fn from_entries(entries: &Vec<(String, i32)>) -> (r: Proficiencies)
        ensures
            r.saving_throws.strength == last_value(entries@, "saving-throw-str"@),
            r.saving_throws.dexterity == last_value(entries@, "saving-throw-dex"@),
            r.saving_throws.constitution == last_value(entries@, "saving-throw-con"@),
            r.saving_throws.intelligence == last_value(entries@, "saving-throw-int"@),
            r.saving_throws.wisdom == last_value(entries@, "saving-throw-wis"@),
            r.saving_throws.charisma == last_value(entries@, "saving-throw-cha"@),
            r.skills.acrobatics == last_value(entries@, "skill-acrobatics"@),
            r.skills.animal_handling == last_value(entries@, "skill-animal-handling"@),
            r.skills.arcana == last_value(entries@, "skill-arcana"@),
            r.skills.athletics == last_value(entries@, "skill-athletics"@),
            r.skills.deception == last_value(entries@, "skill-deception"@),
            r.skills.history == last_value(entries@, "skill-history"@),
            r.skills.insight == last_value(entries@, "skill-insight"@),
            r.skills.intimidation == last_value(entries@, "skill-intimidation"@),
            r.skills.investigation == last_value(entries@, "skill-investigation"@),
            r.skills.medicine == last_value(entries@, "skill-medicine"@),
            r.skills.nature == last_value(entries@, "skill-nature"@),
            r.skills.perception == last_value(entries@, "skill-perception"@),
            r.skills.performance == last_value(entries@, "skill-performance"@),
            r.skills.persuasion == last_value(entries@, "skill-persuasion"@),
            r.skills.religion == last_value(entries@, "skill-religion"@),
            r.skills.sleight_of_hand == last_value(entries@, "skill-sleight-of-hand"@),
            r.skills.stealth == last_value(entries@, "skill-stealth"@),
            r.skills.survival == last_value(entries@, "skill-survival"@),
    {
        Proficiencies {
            saving_throws: Ability {
                strength: last_value_of(entries, "saving-throw-str"),
                dexterity: last_value_of(entries, "saving-throw-dex"),
                constitution: last_value_of(entries, "saving-throw-con"),
                intelligence: last_value_of(entries, "saving-throw-int"),
                wisdom: last_value_of(entries, "saving-throw-wis"),
                charisma: last_value_of(entries, "saving-throw-cha"),
            },
            skills: Skill {
                acrobatics: last_value_of(entries, "skill-acrobatics"),
                animal_handling: last_value_of(entries, "skill-animal-handling"),
                arcana: last_value_of(entries, "skill-arcana"),
                athletics: last_value_of(entries, "skill-athletics"),
                deception: last_value_of(entries, "skill-deception"),
                history: last_value_of(entries, "skill-history"),
                insight: last_value_of(entries, "skill-insight"),
                intimidation: last_value_of(entries, "skill-intimidation"),
                investigation: last_value_of(entries, "skill-investigation"),
                medicine: last_value_of(entries, "skill-medicine"),
                nature: last_value_of(entries, "skill-nature"),
                perception: last_value_of(entries, "skill-perception"),
                performance: last_value_of(entries, "skill-performance"),
                persuasion: last_value_of(entries, "skill-persuasion"),
                religion: last_value_of(entries, "skill-religion"),
                sleight_of_hand: last_value_of(entries, "skill-sleight-of-hand"),
                stealth: last_value_of(entries, "skill-stealth"),
                survival: last_value_of(entries, "skill-survival"),
            },
        }
    }
}

/// Why usage data of a special ability could not be read.
#[derive(Clone, Copy, Debug, PartialEq, Eq, Structural)]
pub enum UsageError {
    /// Rest types were given, but none of them is `short` or `long`.
    InvalidRestTypes,
    /// Neither a positive number of uses per day nor any rest type was given.
    InvalidUsageData,
}

/// Whether some element of `names` is `name`.
pub open spec fn names_contain(names: Seq<String>, name: Seq<char>) -> bool {
    exists|i: int| 0 <= i < names.len() && (#[trigger] names[i])@ == name
}

/// Returns whether some element of `names` is `name`.
fn contains_name(names: &Vec<String>, name: &str) -> (r: bool)
    ensures
        r == names_contain(names@, name@),
{
    let mut i: usize = 0;
    while i < names.len()
        invariant
            i <= names@.len(),
            forall|j: int| 0 <= j < i ==> (#[trigger] names@[j])@ != name@,
        decreases names@.len() - i,
    {
        if str_eq(names[i].as_str(), name) {
            return true;
        }
        i = i + 1;
    }
    false
}

impl Usage {
    /// The usage that `times` (uses per day) and `rest_types` describe.
    pub open spec fn spec_from_data(times: Option<usize>, rest_types: Option<Seq<String>>) -> Result<
        Usage,
        UsageError,
    > {
        if times matches Some(t) && t > 0 {
            Ok(Usage::PerDay(times->0))
        } else if rest_types matches Some(rs) && rs.len() > 0 {
            if names_contain(rest_types->0, "short"@) {
                Ok(Usage::RechargeAfterRest)
            } else if names_contain(rest_types->0, "long"@) {
                Ok(Usage::RechargeAfterLongRest)
            } else {
                Err(UsageError::InvalidRestTypes)
            }
        } else {
            Err(UsageError::InvalidUsageData)
        }
    }

    /// Returns the usage of a special ability from its data: a positive number of uses per day
    /// wins; otherwise a recharge after a short rest (which a long rest covers too) or after a
    /// long rest only.
    pub fn from_data(times: Option<usize>, rest_types: &Option<Vec<String>>) -> (r: Result<
        Usage,
        UsageError,
    >)
        ensures
            r == Usage::spec_from_data(
                times,
                match rest_types {
                    Some(rs) => Some(rs@),
                    None => None,
                },
            ),
    {
        match times {
            Some(t) => if t > 0 {
                return Ok(Usage::PerDay(t));
            },
            None => {},
        }
        match rest_types {
            Some(rs) => if rs.len() > 0 {
                return if contains_name(rs, "short") {
                    Ok(Usage::RechargeAfterRest)
                } else if contains_name(rs, "long") {
                    Ok(Usage::RechargeAfterLongRest)
                } else {
                    Err(UsageError::InvalidRestTypes)
                };
            },
            None => {},
        }
        Err(UsageError::InvalidUsageData)
    }
}

} // verus!
