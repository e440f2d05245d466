use ugc_scraper::vocabulary::{GameMode, InvalidGameMode, MembershipRole, Region};

#[test]
fn game_mode_reads_every_spelling_of_highlander() {
    for text in ["9v9", "Highlander", "TF2 Highlander", "ASIA TF2-H"] {
        assert_eq!(GameMode::from_str(text), Ok(GameMode::Highlander));
    }
}

#[test]
fn game_mode_refuses_text_outside_the_table() {
    assert_eq!(
        GameMode::from_str("7v7"),
        Err(InvalidGameMode { text: "7v7".to_string() })
    );
    assert_eq!(
        GameMode::from_str(" 9v9"),
        Err(InvalidGameMode { text: " 9v9".to_string() })
    );
}

#[test]
fn region_strips_its_marks() {
    assert_eq!(Region::from_str("*(Euro)*"), Ok(Region::Europe));
    assert_eq!(Region::from_str("N.A."), Ok(Region::NorthAmerica));
}

#[test]
fn role_defaults_to_member() {
    assert_eq!(MembershipRole::from_str_or_member(" Leader "), MembershipRole::Leader);
    assert_eq!(MembershipRole::from_str_or_member("captain"), MembershipRole::Member);
}
