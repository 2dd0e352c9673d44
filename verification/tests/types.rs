use takure::types::tachi::{Difficulty, Flare, ImportMeta, Optional, Playtype, TachiLamp};

#[test]
fn playtype_codes() {
    assert_eq!(Playtype::from(0), Playtype::SP);
    assert_eq!(Playtype::from(1), Playtype::DP);
    assert_eq!(Playtype::from(2), Playtype::SP);
}

#[test]
fn difficulty_codes() {
    assert_eq!(Difficulty::from(0), Difficulty::Beginner);
    assert_eq!(Difficulty::from(1), Difficulty::Basic);
    assert_eq!(Difficulty::from(2), Difficulty::Difficult);
    assert_eq!(Difficulty::from(3), Difficulty::Expert);
    assert_eq!(Difficulty::from(4), Difficulty::Challenge);
    assert_eq!(Difficulty::from(5), Difficulty::Basic);
    assert_eq!(Difficulty::from(6), Difficulty::Difficult);
    assert_eq!(Difficulty::from(7), Difficulty::Expert);
    assert_eq!(Difficulty::from(8), Difficulty::Challenge);
}

#[test]
fn single_and_double_difficulties_agree() {
    for n in 1u8..=4 {
        assert_eq!(Difficulty::from(n), Difficulty::from(n + 4));
    }
}

#[test]
fn lamp_codes() {
    assert_eq!(TachiLamp::from(1), TachiLamp::Failed);
    assert_eq!(TachiLamp::from(2), TachiLamp::Assist);
    assert_eq!(TachiLamp::from(3), TachiLamp::Clear);
    assert_eq!(TachiLamp::from(6), TachiLamp::Life4);
    assert_eq!(TachiLamp::from(7), TachiLamp::FullCombo);
    assert_eq!(TachiLamp::from(8), TachiLamp::GreatFullCombo);
    assert_eq!(TachiLamp::from(9), TachiLamp::PerfectFullCombo);
    assert_eq!(TachiLamp::from(10), TachiLamp::MarvelousFullCombo);
    assert_eq!(TachiLamp::from(0), TachiLamp::Failed);
    assert_eq!(TachiLamp::from(4), TachiLamp::Failed);
    assert_eq!(TachiLamp::from(255), TachiLamp::Failed);
}

#[test]
fn flare_codes() {
    assert_eq!(Flare::from(0), Flare::NoFlare);
    assert_eq!(Flare::from(1), Flare::I);
    assert_eq!(Flare::from(5), Flare::V);
    assert_eq!(Flare::from(10), Flare::EX);
    assert_eq!(Flare::from(11), Flare::NoFlare);
    assert!(Flare::is_none(&Flare::default()));
    assert!(!Flare::is_none(&Flare::IX));
}

#[test]
fn default_import_meta() {
    let meta = ImportMeta::default();
    assert_eq!(meta.game, "ddr");
    assert_eq!(meta.service, "Takure");
    assert_eq!(meta.play_type, Playtype::SP);
    assert_eq!(Optional::default().flare, Flare::NoFlare);
}
