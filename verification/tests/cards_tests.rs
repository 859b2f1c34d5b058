use bang_web::cards::{default_cards, default_characters, Cards, Characters, Weapons, DF_MAX_PLAYERS, DF_MIN_PLAYERS};

#[test]
fn weapons_by_name() {
    assert_eq!(Weapons::from_str("Schofield"), Ok(Weapons::Schofield));
    assert_eq!(Weapons::from_str("Remington"), Ok(Weapons::Remington));
    assert_eq!(Weapons::from_str("Carabine"), Ok(Weapons::Carabine));
    assert_eq!(Weapons::from_str("Winchester"), Ok(Weapons::Winchester));
    assert_eq!(Weapons::from_str("Volcanic"), Ok(Weapons::Volcanic));
    assert_eq!(Weapons::from_str("Colt45"), Err(()));
    assert_eq!(Weapons::from_str("schofield"), Err(()));
    assert_eq!(Weapons::from_str(""), Err(()));
}

#[test]
fn characters_by_name() {
    assert_eq!(Characters::from_str("Calamity Janet"), Ok(Characters::CalamityJanet));
    assert_eq!(Characters::from_str("Slab the Killer"), Ok(Characters::SlabTheKiller));
    assert_eq!(Characters::from_str("Willy the Kid"), Ok(Characters::WillyTheKid));
    assert_eq!(Characters::from_str("Paul Regret"), Ok(Characters::PaulRegret));
    assert_eq!(Characters::from_str("Jourdonnais"), Ok(Characters::Jourdonnais));
    assert_eq!(Characters::from_str("Rose Doolan"), Ok(Characters::RoseDoolan));
    assert_eq!(Characters::from_str("Black Jack"), Ok(Characters::BlackJack));
    assert_eq!(Characters::from_str("Vulture Sam"), Err(()));
    assert_eq!(Characters::from_str("CalamityJanet"), Err(()));
}

#[test]
fn cards_by_name() {
    assert_eq!(Cards::from_str("Bang"), Ok(Cards::Bang));
    assert_eq!(Cards::from_str("Miss"), Ok(Cards::Miss));
    assert_eq!(Cards::from_str("Jail"), Ok(Cards::Jail));
    assert_eq!(Cards::from_str("Beer"), Err(()));
    assert_eq!(Cards::from_str("Bang!"), Err(()));
}

#[test]
fn defaults() {
    assert_eq!(DF_MIN_PLAYERS, 4);
    assert_eq!(DF_MAX_PLAYERS, 7);
    let cards = default_cards();
    assert_eq!(cards.len(), 22);
    assert_eq!(cards[0], (Cards::Bang, 1, 13, 8, 3));
    assert_eq!(cards[21], (Cards::Scope, 1, 13, 8, 3));
    assert!(cards.iter().all(|c| c.1 == 1 && c.2 == 13 && c.3 == 8 && c.4 == 3));
    let characters = default_characters();
    assert_eq!(characters.len(), 16);
    assert_eq!(characters[0], Characters::CalamityJanet);
    assert_eq!(characters[15], Characters::VultureSam);
}

#[test]
fn names_parse_through_from_str_trait() {
    assert_eq!("Miss".parse::<Cards>(), Ok(Cards::Miss));
    assert_eq!("Black Jack".parse::<Characters>(), Ok(Characters::BlackJack));
    assert_eq!("Carabine".parse::<Weapons>(), Ok(Weapons::Carabine));
    assert_eq!("Colt45".parse::<Weapons>(), Err(()));
}
