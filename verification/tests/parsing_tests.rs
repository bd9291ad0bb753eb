use majorules::types::{CharacterClass, Stance};

#[test]
fn class_names_parse_case_insensitively() {
    assert_eq!(CharacterClass::from_str("warrior"), Some(CharacterClass::Warrior));
    assert_eq!(CharacterClass::from_str("WARRIOR"), Some(CharacterClass::Warrior));
    assert_eq!(CharacterClass::from_str("Assassin"), Some(CharacterClass::Assassin));
    assert_eq!(CharacterClass::from_str("mAgE"), Some(CharacterClass::Mage));
    assert_eq!(CharacterClass::from_str("tank"), Some(CharacterClass::Tank));
    assert_eq!(CharacterClass::from_str("Trickster"), Some(CharacterClass::Trickster));
    assert_eq!(CharacterClass::from_str("paladin"), None);
    assert_eq!(CharacterClass::from_str(""), None);
}

#[test]
fn stance_names_parse_case_insensitively() {
    assert_eq!(Stance::from_str("balanced"), Some(Stance::Balanced));
    assert_eq!(Stance::from_str("AGGRESSIVE"), Some(Stance::Aggressive));
    assert_eq!(Stance::from_str("Defensive"), Some(Stance::Defensive));
    assert_eq!(Stance::from_str("bErSeRkEr"), Some(Stance::Berserker));
    assert_eq!(Stance::from_str("counter"), Some(Stance::Counter));
    assert_eq!(Stance::from_str("sneaky"), None);
}

#[test]
fn class_base_stats_and_cooldowns() {
    assert_eq!(CharacterClass::Warrior.base_stats(), (120, 8, 15, 1500));
    assert_eq!(CharacterClass::Assassin.base_stats(), (90, 12, 20, 3500));
    assert_eq!(CharacterClass::Mage.base_stats(), (80, 10, 18, 2000));
    assert_eq!(CharacterClass::Tank.base_stats(), (150, 6, 12, 1000));
    assert_eq!(CharacterClass::Trickster.base_stats(), (100, 8, 16, 2500));

    assert_eq!(CharacterClass::Warrior.special_cooldown(), 3);
    assert_eq!(CharacterClass::Assassin.special_cooldown(), 4);
    assert_eq!(CharacterClass::Mage.special_cooldown(), 3);
    assert_eq!(CharacterClass::Tank.special_cooldown(), 4);
    assert_eq!(CharacterClass::Trickster.special_cooldown(), 2);
}
