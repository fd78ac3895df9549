use h5t_core::{Action, Combatant, Condition, ConditionDuration, ConditionKind, Monster, Tracker};

fn monster(index: &str, name: &str, hit_points: i32) -> Combatant {
    Combatant::from_monster(Monster {
        index: index.to_string(),
        name: name.to_string(),
        hit_points,
        ..Default::default()
    })
}

/// Ensure that the tracker advances turns correctly.
#[test]
fn test_tracker_next_turn() {
    let mut tracker = Tracker::new(vec![
        Combatant::from_monster(Monster {
            index: "goblin".to_string(),
            name: "Goblin".to_string(),
            ..Default::default()
        }),
        Combatant::from_monster(Monster {
            index: "ogre".to_string(),
            name: "Ogre".to_string(),
            ..Default::default()
        }),
        Combatant::from_monster(Monster {
            index: "tarrasque".to_string(),
            name: "Tarrasque".to_string(),
            ..Default::default()
        }),
    ]);

    assert_eq!(tracker.turn, 0);
    assert_eq!(tracker.round, 0);

    tracker.next_turn();
    assert_eq!(tracker.turn, 1);
    assert_eq!(tracker.round, 0);

    tracker.next_turn();
    assert_eq!(tracker.turn, 2);
    assert_eq!(tracker.round, 0);

    tracker.next_turn();
    assert_eq!(tracker.turn, 0);
    assert_eq!(tracker.round, 1);
}

#[test]
fn goblin_and_ogre_turn_order() {
    let mut tracker = Tracker::new(vec![monster("goblin", "Goblin", 7), monster("ogre", "Ogre", 59)]);
    assert_eq!((tracker.turn, tracker.round), (0, 0));
    tracker.next_turn();
    assert_eq!((tracker.turn, tracker.round), (1, 0));
    tracker.next_turn();
    assert_eq!((tracker.turn, tracker.round), (0, 1));
    tracker.next_turn();
    assert_eq!((tracker.turn, tracker.round), (1, 1));
    assert_eq!(tracker.combatants[0].hit_points, 7);
    assert_eq!(tracker.combatants[1].hit_points, 59);
}

#[test]
fn full_round_returns_to_same_turn() {
    let mut tracker = Tracker::new(vec![
        monster("a", "A", 1),
        monster("b", "B", 2),
        monster("c", "C", 3),
        monster("d", "D", 4),
    ]);
    tracker.next_turn();
    tracker.next_turn();
    let (turn, round) = (tracker.turn, tracker.round);
    for _ in 0..4 {
        tracker.next_turn();
    }
    assert_eq!(tracker.turn, turn);
    assert_eq!(tracker.round, round + 1);
}

#[test]
fn single_combatant_starts_a_round_every_turn() {
    let mut tracker = Tracker::new(vec![monster("goblin", "Goblin", 7)]);
    tracker.next_turn();
    assert_eq!((tracker.turn, tracker.round), (0, 1));
    tracker.next_turn();
    assert_eq!((tracker.turn, tracker.round), (0, 2));
}

#[test]
fn new_turn_resets_action_budget() {
    let mut tracker = Tracker::new(vec![monster("goblin", "Goblin", 7), monster("ogre", "Ogre", 59)]);
    tracker.combatants[1].actions = Action { actions: 0, bonus_actions: 3, reactions: 0 };
    assert!(tracker.use_action());
    assert!(tracker.use_reaction());
    tracker.next_turn();
    let current = tracker.current_combatant();
    assert_eq!(current.actions, Action { actions: 1, bonus_actions: 1, reactions: 1 });
    // the budget of the combatant whose turn ended stays spent until its next turn
    assert_eq!(tracker.combatants[0].actions, Action { actions: 0, bonus_actions: 1, reactions: 0 });
    tracker.next_turn();
    assert_eq!(tracker.current_combatant().actions, Action::default());
}

#[test]
fn use_action_spends_once() {
    let mut tracker = Tracker::new(vec![monster("goblin", "Goblin", 7)]);
    assert!(tracker.use_action());
    assert_eq!(tracker.current_combatant().actions.actions, 0);
    assert!(!tracker.use_action());
    assert_eq!(
        tracker.current_combatant().actions,
        Action { actions: 0, bonus_actions: 1, reactions: 1 }
    );
}

#[test]
fn use_bonus_action_and_reaction() {
    let mut tracker = Tracker::new(vec![monster("goblin", "Goblin", 7)]);
    tracker.combatants[0].actions = Action { actions: 1, bonus_actions: 2, reactions: 1 };
    assert!(tracker.use_bonus_action());
    assert!(tracker.use_bonus_action());
    assert!(!tracker.use_bonus_action());
    assert!(tracker.use_reaction());
    assert!(!tracker.use_reaction());
    assert_eq!(
        tracker.current_combatant().actions,
        Action { actions: 1, bonus_actions: 0, reactions: 0 }
    );
}

#[test]
fn damage_goes_below_zero() {
    let mut goblin = monster("goblin", "Goblin", 5);
    goblin.damage(12);
    assert_eq!(goblin.hit_points, -7);
    assert!(goblin.is_defeated());
    assert_eq!(goblin.max_hit_points(), 5);
}

#[test]
fn damage_targets_only_selected() {
    let mut tracker = Tracker::new(vec![
        monster("goblin", "Goblin", 7),
        monster("ogre", "Ogre", 59),
        monster("orc", "Orc", 15),
    ]);
    tracker.damage(&vec![2, 0], 10);
    assert_eq!(tracker.combatants[0].hit_points, -3);
    assert_eq!(tracker.combatants[1].hit_points, 59);
    assert_eq!(tracker.combatants[2].hit_points, 5);
    assert!(tracker.combatants[0].is_defeated());
    assert!(!tracker.combatants[2].is_defeated());
}

#[test]
fn healing_is_negative_damage() {
    let mut tracker = Tracker::new(vec![monster("goblin", "Goblin", 7)]);
    tracker.damage(&vec![0], -3);
    assert_eq!(tracker.combatants[0].hit_points, 10);
}

#[test]
fn longer_condition_wins() {
    let mut goblin = monster("goblin", "Goblin", 7);
    let with = |duration| Condition { kind: ConditionKind::Stunned, duration };
    goblin.apply_condition(with(ConditionDuration::Rounds(5)));
    goblin.apply_condition(with(ConditionDuration::Rounds(3)));
    assert_eq!(goblin.conditions, vec![with(ConditionDuration::Rounds(5))]);
    goblin.apply_condition(with(ConditionDuration::Rounds(7)));
    assert_eq!(goblin.conditions, vec![with(ConditionDuration::Rounds(7))]);
    goblin.apply_condition(with(ConditionDuration::Minutes(1)));
    assert_eq!(goblin.conditions, vec![with(ConditionDuration::Minutes(1))]);
    goblin.apply_condition(with(ConditionDuration::Rounds(10)));
    assert_eq!(goblin.conditions, vec![with(ConditionDuration::Minutes(1))]);
}

#[test]
fn new_condition_kinds_are_appended() {
    let mut goblin = monster("goblin", "Goblin", 7);
    goblin.apply_condition(Condition { kind: ConditionKind::Prone, duration: ConditionDuration::Forever });
    goblin.apply_condition(Condition { kind: ConditionKind::Blinded, duration: ConditionDuration::Rounds(1) });
    assert_eq!(goblin.conditions.len(), 2);
    assert_eq!(goblin.conditions[0].kind, ConditionKind::Prone);
    assert_eq!(goblin.conditions[1].kind, ConditionKind::Blinded);
}

#[test]
fn apply_condition_to_targets() {
    let mut tracker = Tracker::new(vec![
        monster("goblin", "Goblin", 7),
        monster("ogre", "Ogre", 59),
        monster("orc", "Orc", 15),
    ]);
    tracker.combatants[2].apply_condition(Condition {
        kind: ConditionKind::Poisoned,
        duration: ConditionDuration::Rounds(5),
    });
    tracker.apply_condition(
        &vec![0, 2],
        &vec![ConditionKind::Poisoned, ConditionKind::Frightened],
        ConditionDuration::Rounds(3),
    );
    assert_eq!(
        tracker.combatants[0].conditions,
        vec![
            Condition { kind: ConditionKind::Poisoned, duration: ConditionDuration::Rounds(3) },
            Condition { kind: ConditionKind::Frightened, duration: ConditionDuration::Rounds(3) },
        ]
    );
    assert!(tracker.combatants[1].conditions.is_empty());
    assert_eq!(
        tracker.combatants[2].conditions,
        vec![
            Condition { kind: ConditionKind::Poisoned, duration: ConditionDuration::Rounds(5) },
            Condition { kind: ConditionKind::Frightened, duration: ConditionDuration::Rounds(3) },
        ]
    );
}

#[test]
fn stunned_goblin_recovers_after_two_turn_ends() {
    let mut tracker = Tracker::new(vec![monster("goblin", "Goblin", 7), monster("ogre", "Ogre", 59)]);
    tracker.apply_condition(&vec![0], &vec![ConditionKind::Stunned], ConditionDuration::Rounds(2));
    assert_eq!(
        tracker.combatants[0].conditions,
        vec![Condition { kind: ConditionKind::Stunned, duration: ConditionDuration::Rounds(2) }]
    );
    // the goblin's turn ends
    tracker.next_turn();
    assert_eq!(
        tracker.combatants[0].conditions,
        vec![Condition { kind: ConditionKind::Stunned, duration: ConditionDuration::Rounds(1) }]
    );
    // the ogre's turn ends: the goblin's conditions are untouched
    tracker.next_turn();
    assert_eq!(tracker.combatants[0].conditions.len(), 1);
    // the goblin's turn ends again
    tracker.next_turn();
    assert!(tracker.combatants[0].conditions.is_empty());
}

#[test]
fn turn_end_keeps_forever_and_drops_expired() {
    let mut goblin = monster("goblin", "Goblin", 7);
    goblin.apply_condition(Condition { kind: ConditionKind::Prone, duration: ConditionDuration::Forever });
    goblin.apply_condition(Condition { kind: ConditionKind::Blinded, duration: ConditionDuration::Rounds(1) });
    goblin.apply_condition(Condition { kind: ConditionKind::Charmed, duration: ConditionDuration::Minutes(1) });
    goblin.apply_condition(Condition { kind: ConditionKind::Deafened, duration: ConditionDuration::UntilNextTurn });
    goblin.end_turn();
    assert_eq!(
        goblin.conditions,
        vec![
            Condition { kind: ConditionKind::Prone, duration: ConditionDuration::Forever },
            Condition { kind: ConditionKind::Charmed, duration: ConditionDuration::Rounds(9) },
            Condition { kind: ConditionKind::Deafened, duration: ConditionDuration::Rounds(1) },
        ]
    );
}

#[test]
fn combatant_reads_its_monster() {
    let goblin = Combatant::from_monster(Monster {
        name: "Goblin".to_string(),
        hit_points: 7,
        proficiency_bonus: 2,
        armor_class: h5t_core::monster::ArmorClass {
            source: h5t_core::monster::ArmorClassSource::Armor,
            value: 15,
        },
        ..Default::default()
    });
    assert_eq!(goblin.name(), "Goblin");
    assert_eq!(goblin.armor_class(), 15);
    assert_eq!(goblin.max_hit_points(), 7);
    assert_eq!(goblin.hit_points, 7);
    assert_eq!(goblin.proficiency_bonus(), 2);
    assert!(goblin.speed().walk.is_none());
    assert_eq!(goblin.actions, Action::default());
    assert!(goblin.conditions.is_empty());
    assert!(!goblin.is_defeated());
}

#[test]
fn current_combatant_mut_changes_only_the_current() {
    let mut tracker = Tracker::new(vec![monster("goblin", "Goblin", 7), monster("ogre", "Ogre", 59)]);
    tracker.next_turn();
    tracker.current_combatant_mut().damage(9);
    assert_eq!(tracker.combatants[0].hit_points, 7);
    assert_eq!(tracker.combatants[1].hit_points, 50);
    assert_eq!(tracker.current_combatant().name(), "Ogre");
}
