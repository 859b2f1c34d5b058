use vstd::prelude::*;
use crate::text::str_eq;

verus! {

/// The players' bounds when the configuration gives none.
pub const DF_MIN_PLAYERS: u8 = 4;

pub const DF_MAX_PLAYERS: u8 = 7;

#[derive(PartialEq, Eq, Structural, Clone, Copy, Debug)]
pub enum Weapons {
    Colt45,
    Volcanic,
    Schofield,
    Remington,
    Carabine,
    Winchester,
}

#[derive(PartialEq, Eq, Structural, Clone, Copy, Debug)]
pub enum Characters {
    CalamityJanet,
    SlabTheKiller,
    WillyTheKid,
    PaulRegret,
    Jourdonnais,
    RoseDoolan,
    BlackJack,
    PedroRamirez,
    BartCassidy,
    ElGringo,
    JesseJones,
    KitCarlson,
    LuckyDuke,
    SidKetchum,
    SuzyLafayette,
    VultureSam,
}

#[derive(PartialEq, Eq, Structural, Clone, Copy, Debug)]
pub enum Roles {
    Outlaw,
    Sheriff,
    Renegade,
    Deputy,
}

#[derive(PartialEq, Eq, Structural, Clone, Copy, Debug)]
pub enum Cards {
    Bang,
    Miss,
    Indians,
    Jail,
    Barrel,
    Mustang,
    Beer,
    CatBalou,
    Duel,
    Gatling,
    Store,
    Panic,
    Saloon,
    Stagecoach,
    WellsFargo,
    Dynamite,
    Schofield,
    Volcanic,
    Remington,
    Carabine,
    Winchester,
    Scope,
}

#[derive(PartialEq, Eq, Structural, Clone, Copy, Debug)]
pub enum Suits {
    Heart,
    Diamond,
    Spade,
    Club,
}

/// The weapon that a name in the configuration stands for, if any.
pub open spec fn weapon_named(s: Seq<char>) -> Option<Weapons> {
    if s == "Schofield"@ {
        Some(Weapons::Schofield)
    } else if s == "Remington"@ {
        Some(Weapons::Remington)
    } else if s == "Carabine"@ {
        Some(Weapons::Carabine)
    } else if s == "Winchester"@ {
        Some(Weapons::Winchester)
    } else if s == "Volcanic"@ {
        Some(Weapons::Volcanic)
    } else {
        None
    }
}

/// The character that a name in the configuration stands for, if any.
pub open spec fn character_named(s: Seq<char>) -> Option<Characters> {
    if s == "Calamity Janet"@ {
        Some(Characters::CalamityJanet)
    } else if s == "Slab the Killer"@ {
        Some(Characters::SlabTheKiller)
    } else if s == "Willy the Kid"@ {
        Some(Characters::WillyTheKid)
    } else if s == "Paul Regret"@ {
        Some(Characters::PaulRegret)
    } else if s == "Jourdonnais"@ {
        Some(Characters::Jourdonnais)
    } else if s == "Rose Doolan"@ {
        Some(Characters::RoseDoolan)
    } else if s == "Black Jack"@ {
        Some(Characters::BlackJack)
    } else {
        None
    }
}

/// The card that a name in the configuration stands for, if any.
pub open spec fn card_named(s: Seq<char>) -> Option<Cards> {
    if s == "Bang"@ {
        Some(Cards::Bang)
    } else if s == "Miss"@ {
        Some(Cards::Miss)
    } else if s == "Jail"@ {
        Some(Cards::Jail)
    } else {
        None
    }
}

pub open spec fn named_result<T>(found: Option<T>) -> Result<T, ()> {
    match found {
        Some(x) => Ok(x),
        None => Err(()),
    }
}

impl Weapons {
    /// Reads a weapon's name; any other text is an error.
    pub fn from_str(input: &str) -> (r: Result<Weapons, ()>)
        ensures
            r == named_result(weapon_named(input@)),
    {
        if str_eq(input, "Schofield") {
            Ok(Weapons::Schofield)
        } else if str_eq(input, "Remington") {
            Ok(Weapons::Remington)
        } else if str_eq(input, "Carabine") {
            Ok(Weapons::Carabine)
        } else if str_eq(input, "Winchester") {
            Ok(Weapons::Winchester)
        } else if str_eq(input, "Volcanic") {
            Ok(Weapons::Volcanic)
        } else {
            Err(())
        }
    }
}

impl Characters {
    /// Reads a character's name; any other text is an error.
    pub fn from_str(input: &str) -> (r: Result<Characters, ()>)
        ensures
            r == named_result(character_named(input@)),
    {
        if str_eq(input, "Calamity Janet") {
            Ok(Characters::CalamityJanet)
        } else if str_eq(input, "Slab the Killer") {
            Ok(Characters::SlabTheKiller)
        } else if str_eq(input, "Willy the Kid") {
            Ok(Characters::WillyTheKid)
        } else if str_eq(input, "Paul Regret") {
            Ok(Characters::PaulRegret)
        } else if str_eq(input, "Jourdonnais") {
            Ok(Characters::Jourdonnais)
        } else if str_eq(input, "Rose Doolan") {
            Ok(Characters::RoseDoolan)
        } else if str_eq(input, "Black Jack") {
            Ok(Characters::BlackJack)
        } else {
            Err(())
        }
    }
}

impl Cards {
    /// Reads a card's name; any other text is an error.
    pub fn from_str(input: &str) -> (r: Result<Cards, ()>)
        ensures
            r == named_result(card_named(input@)),
    {
        if str_eq(input, "Bang") {
            Ok(Cards::Bang)
        } else if str_eq(input, "Miss") {
            Ok(Cards::Miss)
        } else if str_eq(input, "Jail") {
            Ok(Cards::Jail)
        } else {
            Err(())
        }
    }
}

impl std::str::FromStr for Weapons {
    type Err = ();

    fn from_str(input: &str) -> (r: Result<Weapons, ()>)
        ensures
            r == named_result(weapon_named(input@)),
    {
        Weapons::from_str(input)
    }
}

impl std::str::FromStr for Characters {
    type Err = ();

    fn from_str(input: &str) -> (r: Result<Characters, ()>)
        ensures
            r == named_result(character_named(input@)),
    {
        Characters::from_str(input)
    }
}

impl std::str::FromStr for Cards {
    type Err = ();

    fn from_str(input: &str) -> (r: Result<Cards, ()>)
        ensures
            r == named_result(card_named(input@)),
    {
        Cards::from_str(input)
    }
}

/// Every card of the game, in the order of its declaration.
pub open spec fn all_cards() -> Seq<Cards> {
    seq![
        Cards::Bang,
        Cards::Miss,
        Cards::Indians,
        Cards::Jail,
        Cards::Barrel,
        Cards::Mustang,
        Cards::Beer,
        Cards::CatBalou,
        Cards::Duel,
        Cards::Gatling,
        Cards::Store,
        Cards::Panic,
        Cards::Saloon,
        Cards::Stagecoach,
        Cards::WellsFargo,
        Cards::Dynamite,
        Cards::Schofield,
        Cards::Volcanic,
        Cards::Remington,
        Cards::Carabine,
        Cards::Winchester,
        Cards::Scope,
    ]
}

/// Every character of the game, in the order of its declaration.
pub open spec fn all_characters() -> Seq<Characters> {
    seq![
        Characters::CalamityJanet,
        Characters::SlabTheKiller,
        Characters::WillyTheKid,
        Characters::PaulRegret,
        Characters::Jourdonnais,
        Characters::RoseDoolan,
        Characters::BlackJack,
        Characters::PedroRamirez,
        Characters::BartCassidy,
        Characters::ElGringo,
        Characters::JesseJones,
        Characters::KitCarlson,
        Characters::LuckyDuke,
        Characters::SidKetchum,
        Characters::SuzyLafayette,
        Characters::VultureSam,
    ]
}

/// The deck when the configuration gives none: each card with the numbers 1, 13, 8 and 3.
pub fn default_cards() -> (r: Vec<(Cards, u8, u8, u8, u8)>)
    ensures
        r@.len() == all_cards().len(),
        forall|i: int| 0 <= i < r@.len() ==> #[trigger] r@[i] == (all_cards()[i], 1u8, 13u8, 8u8, 3u8),
{
    vec![
        (Cards::Bang, 1, 13, 8, 3),
        (Cards::Miss, 1, 13, 8, 3),
        (Cards::Indians, 1, 13, 8, 3),
        (Cards::Jail, 1, 13, 8, 3),
        (Cards::Barrel, 1, 13, 8, 3),
        (Cards::Mustang, 1, 13, 8, 3),
        (Cards::Beer, 1, 13, 8, 3),
        (Cards::CatBalou, 1, 13, 8, 3),
        (Cards::Duel, 1, 13, 8, 3),
        (Cards::Gatling, 1, 13, 8, 3),
        (Cards::Store, 1, 13, 8, 3),
        (Cards::Panic, 1, 13, 8, 3),
        (Cards::Saloon, 1, 13, 8, 3),
        (Cards::Stagecoach, 1, 13, 8, 3),
        (Cards::WellsFargo, 1, 13, 8, 3),
        (Cards::Dynamite, 1, 13, 8, 3),
        (Cards::Schofield, 1, 13, 8, 3),
        (Cards::Volcanic, 1, 13, 8, 3),
        (Cards::Remington, 1, 13, 8, 3),
        (Cards::Carabine, 1, 13, 8, 3),
        (Cards::Winchester, 1, 13, 8, 3),
        (Cards::Scope, 1, 13, 8, 3),
    ]
}

/// The characters when the configuration gives none: all of them.
pub fn default_characters() -> (r: Vec<Characters>)
    ensures
        r@ == all_characters(),
{
    let r = vec![
        Characters::CalamityJanet,
        Characters::SlabTheKiller,
        Characters::WillyTheKid,
        Characters::PaulRegret,
        Characters::Jourdonnais,
        Characters::RoseDoolan,
        Characters::BlackJack,
        Characters::PedroRamirez,
        Characters::BartCassidy,
        Characters::ElGringo,
        Characters::JesseJones,
        Characters::KitCarlson,
        Characters::LuckyDuke,
        Characters::SidKetchum,
        Characters::SuzyLafayette,
        Characters::VultureSam,
    ];
    assert(r@ =~= all_characters());
    r
}

/// The position of a character in the order of its declaration.
pub open spec fn character_index(c: Characters) -> int {
    match c {
        Characters::CalamityJanet => 0,
        Characters::SlabTheKiller => 1,
        Characters::WillyTheKid => 2,
        Characters::PaulRegret => 3,
        Characters::Jourdonnais => 4,
        Characters::RoseDoolan => 5,
        Characters::BlackJack => 6,
        Characters::PedroRamirez => 7,
        Characters::BartCassidy => 8,
        Characters::ElGringo => 9,
        Characters::JesseJones => 10,
        Characters::KitCarlson => 11,
        Characters::LuckyDuke => 12,
        Characters::SidKetchum => 13,
        Characters::SuzyLafayette => 14,
        Characters::VultureSam => 15,
    }
}

/// The default characters hold every character, each exactly once.
pub proof fn lemma_default_characters_complete(c: Characters)
    ensures
        0 <= character_index(c) < all_characters().len(),
        all_characters()[character_index(c)] == c,
        forall|i: int|
            0 <= i < all_characters().len() && #[trigger] all_characters()[i] == c ==> i == character_index(c),
{
    assert forall|i: int| 0 <= i < all_characters().len() implies character_index(
        #[trigger] all_characters()[i],
    ) == i by {}
}

/// The position of a card in the order of its declaration.
pub open spec fn card_index(c: Cards) -> int {
    match c {
        Cards::Bang => 0,
        Cards::Miss => 1,
        Cards::Indians => 2,
        Cards::Jail => 3,
        Cards::Barrel => 4,
        Cards::Mustang => 5,
        Cards::Beer => 6,
        Cards::CatBalou => 7,
        Cards::Duel => 8,
        Cards::Gatling => 9,
        Cards::Store => 10,
        Cards::Panic => 11,
        Cards::Saloon => 12,
        Cards::Stagecoach => 13,
        Cards::WellsFargo => 14,
        Cards::Dynamite => 15,
        Cards::Schofield => 16,
        Cards::Volcanic => 17,
        Cards::Remington => 18,
        Cards::Carabine => 19,
        Cards::Winchester => 20,
        Cards::Scope => 21,
    }
}

/// The default deck holds every card, each exactly once.
pub proof fn lemma_default_cards_complete(c: Cards)
    ensures
        0 <= card_index(c) < all_cards().len(),
        all_cards()[card_index(c)] == c,
        forall|i: int| 0 <= i < all_cards().len() && #[trigger] all_cards()[i] == c ==> i == card_index(c),
{
    assert forall|i: int| 0 <= i < all_cards().len() implies card_index(#[trigger] all_cards()[i]) == i by {}
}

/// No name reads as the Colt .45, the weapon that every player starts with.
pub proof fn lemma_no_name_for_colt45(s: Seq<char>)
    ensures
        weapon_named(s) != Some(Weapons::Colt45),
{
}

} // verus!
