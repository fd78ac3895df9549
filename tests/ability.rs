use h5t_core::{score_to_modifier, Ability};

/// Ensure the modifier calculation is correct.
#[test]
fn modifier_calculation() {
    let tests = [
        (1, -5),
        (2, -4),
        (3, -4),
        (4, -3),
        (5, -3),
        (6, -2),
        (7, -2),
        (8, -1),
        (9, -1),
        (10, 0),
        (11, 0),
        (12, 1),
        (13, 1),
        (14, 2),
        (15, 2),
        (16, 3),
        (17, 3),
        (18, 4),
        (19, 4),
        (20, 5),
        (21, 5),
        (22, 6),
        (23, 6),
        (24, 7),
        (25, 7),
        (26, 8),
        (27, 8),
        (28, 9),
        (29, 9),
        (30, 10),
    ];

    for (score, modifier) in tests.iter() {
        assert_eq!(score_to_modifier(*score), *modifier);
    }
}

#[test]
fn modifier_rounds_down_below_zero() {
    assert_eq!(score_to_modifier(0), -5);
    assert_eq!(score_to_modifier(-1), -6);
    assert_eq!(score_to_modifier(-2), -6);
    assert_eq!(score_to_modifier(i32::MIN), i32::MIN / 2 - 5);
    assert_eq!(score_to_modifier(i32::MAX), i32::MAX / 2 - 5);
}

#[test]
fn ability_modifiers_convert_each_score() {
    let scores = Ability {
        strength: 21,
        dexterity: 8,
        constitution: 19,
        intelligence: 5,
        wisdom: 16,
        charisma: 10,
    };
    let m = scores.modifiers();
    assert_eq!(m.strength, 5);
    assert_eq!(m.dexterity, -1);
    assert_eq!(m.constitution, 4);
    assert_eq!(m.intelligence, -3);
    assert_eq!(m.wisdom, 3);
    assert_eq!(m.charisma, 0);
}
