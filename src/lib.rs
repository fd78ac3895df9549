use vstd::prelude::*;

pub mod ability;
pub mod combatant;
pub mod condition;
pub mod monster;
pub mod text;
pub mod theme;
pub mod tracker;

pub use ability::{score_to_modifier, Ability};
pub use combatant::{Action, Combatant, CombatantKind};
pub use condition::{Condition, ConditionDuration, ConditionKind};
pub use monster::Monster;
pub use tracker::Tracker;

verus! {

} // verus!
