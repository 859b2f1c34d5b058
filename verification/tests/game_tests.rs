use bang_web::game::{
    change_weapon, command_from_name, game_reply, lower_deck_add, lower_deck_remove, parse_game_message, play_card,
    GameCommand,
};

#[test]
fn commands_by_name() {
    assert_eq!(command_from_name("playCard"), GameCommand::PlayCard);
    assert_eq!(command_from_name("pullCard"), GameCommand::PullCard);
    assert_eq!(command_from_name("lowerDeckAdd"), GameCommand::LowerDeckAdd);
    assert_eq!(command_from_name("lowerDeckRemove"), GameCommand::LowerDeckRemove);
    assert_eq!(command_from_name("changeWeapon"), GameCommand::ChangeWeapon);
    assert_eq!(command_from_name("playcard"), GameCommand::Other);
    assert_eq!(command_from_name(""), GameCommand::Other);
}

#[test]
fn message_with_one_colon() {
    let r = parse_game_message("playCard:3").unwrap();
    assert_eq!(r.command, GameCommand::PlayCard);
    assert_eq!(r.content, "3");
    let r = parse_game_message("dance:").unwrap();
    assert_eq!(r.command, GameCommand::Other);
    assert_eq!(r.content, "");
    let r = parse_game_message(":x").unwrap();
    assert_eq!(r.command, GameCommand::Other);
    assert_eq!(r.content, "x");
    let r = parse_game_message("changeWeapon:Volcanic é").unwrap();
    assert_eq!(r.command, GameCommand::ChangeWeapon);
    assert_eq!(r.content, "Volcanic é");
}

#[test]
fn message_without_single_colon_is_invalid() {
    for msg in ["", "playCard", "a:b:c", "::", "pullCard:1:2"] {
        assert!(parse_game_message(msg).is_none(), "{msg}");
        assert_eq!(msg.split(':').count() == 2, parse_game_message(msg).is_some());
    }
}

#[test]
fn message_round_trip() {
    for (name, content) in [("lowerDeckAdd", "Mustang"), ("x", ""), ("", "y")] {
        let r = parse_game_message(&format!("{name}:{content}")).unwrap();
        assert_eq!(r.command, command_from_name(name));
        assert_eq!(r.content, content);
    }
}

#[test]
fn replies() {
    assert_eq!(game_reply(&parse_game_message("a:b:c")), "Invalid");
    assert_eq!(game_reply(&parse_game_message("playCard:1")), "Game updated");
    assert_eq!(game_reply(&parse_game_message("what:1")), "Game updated");
}

#[test]
fn unfinished_rules_do_nothing() {
    play_card();
    lower_deck_add();
    lower_deck_remove();
    change_weapon();
}
