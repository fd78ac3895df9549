use h5t_core::monster::{ArmorClass, ArmorClassSource, Proficiencies, Usage, UsageError};
use h5t_core::text::compact_count;

#[test]
fn armor_class_takes_first_known_entry() {
    let entries = vec![
        ("spell".to_string(), 18),
        ("natural".to_string(), 12),
        ("dex".to_string(), 14),
    ];
    assert_eq!(
        ArmorClass::from_entries(&entries),
        Some(ArmorClass { source: ArmorClassSource::Natural, value: 12 })
    );
    assert_eq!(
        ArmorClass::from_entries(&vec![("armor".to_string(), 16)]),
        Some(ArmorClass { source: ArmorClassSource::Armor, value: 16 })
    );
}

#[test]
fn armor_class_without_known_entry() {
    assert_eq!(ArmorClass::from_entries(&vec![]), None);
    assert_eq!(ArmorClass::from_entries(&vec![("Dex".to_string(), 10)]), None);
}

#[test]
fn armor_class_source_names() {
    assert_eq!(ArmorClassSource::from_name("dex"), Some(ArmorClassSource::Dexterity));
    assert_eq!(ArmorClassSource::from_name("natural"), Some(ArmorClassSource::Natural));
    assert_eq!(ArmorClassSource::from_name("armo"), None);
    assert_eq!(ArmorClassSource::from_name(""), None);
}

#[test]
fn proficiencies_from_entries() {
    let entries = vec![
        ("saving-throw-wis".to_string(), 11),
        ("skill-animal-handling".to_string(), 4),
        ("skill-perception".to_string(), 2),
        ("condition-immunity".to_string(), 9),
        ("skill-perception".to_string(), 5),
    ];
    let p = Proficiencies::from_entries(&entries);
    assert_eq!(p.saving_throws.wisdom, Some(11));
    assert_eq!(p.saving_throws.strength, None);
    assert_eq!(p.skills.animal_handling, Some(4));
    assert_eq!(p.skills.perception, Some(5));
    assert_eq!(p.skills.stealth, None);
}

#[test]
fn usage_per_day_wins() {
    assert_eq!(Usage::from_data(Some(3), &Some(vec!["short".to_string()])), Ok(Usage::PerDay(3)));
    assert_eq!(Usage::from_data(Some(2), &None), Ok(Usage::PerDay(2)));
}

#[test]
fn usage_recharge_after_rest() {
    assert_eq!(
        Usage::from_data(None, &Some(vec!["long".to_string(), "short".to_string()])),
        Ok(Usage::RechargeAfterRest)
    );
    assert_eq!(
        Usage::from_data(Some(0), &Some(vec!["long".to_string()])),
        Ok(Usage::RechargeAfterLongRest)
    );
}

#[test]
fn usage_errors() {
    assert_eq!(
        Usage::from_data(None, &Some(vec!["nap".to_string()])),
        Err(UsageError::InvalidRestTypes)
    );
    assert_eq!(Usage::from_data(Some(0), &Some(vec![])), Err(UsageError::InvalidUsageData));
    assert_eq!(Usage::from_data(None, &None), Err(UsageError::InvalidUsageData));
}

#[test]
fn compact_counts() {
    assert_eq!(compact_count("A", 0), "");
    assert_eq!(compact_count("A", 1), "A");
    assert_eq!(compact_count("BA", 3), "BABABA");
    assert_eq!(compact_count("R", 4), "Rx4");
    assert_eq!(compact_count("A", 12), "Ax12");
}
