use vstd::prelude::*;
use vstd::string::*;
use crate::text::str_eq;

verus! {

/// What the game is asked to do.
#[derive(PartialEq, Eq, Structural, Clone, Copy, Debug)]
pub enum GameCommand {
    PlayCard,
    PullCard,
    LowerDeckAdd,
    LowerDeckRemove,
    ChangeWeapon,
    Other,
}

/// The command that a command's name asks for.
pub open spec fn command_spec(name: Seq<char>) -> GameCommand {
    if name == "playCard"@ {
        GameCommand::PlayCard
    } else if name == "pullCard"@ {
        GameCommand::PullCard
    } else if name == "lowerDeckAdd"@ {
        GameCommand::LowerDeckAdd
    } else if name == "lowerDeckRemove"@ {
        GameCommand::LowerDeckRemove
    } else if name == "changeWeapon"@ {
        GameCommand::ChangeWeapon
    } else {
        GameCommand::Other
    }
}

/// Reads a command's name.
pub fn command_from_name(name: &str) -> (r: GameCommand)
    ensures
        r == command_spec(name@),
{
    if str_eq(name, "playCard") {
        GameCommand::PlayCard
    } else if str_eq(name, "pullCard") {
        GameCommand::PullCard
    } else if str_eq(name, "lowerDeckAdd") {
        GameCommand::LowerDeckAdd
    } else if str_eq(name, "lowerDeckRemove") {
        GameCommand::LowerDeckRemove
    } else if str_eq(name, "changeWeapon") {
        GameCommand::ChangeWeapon
    } else {
        GameCommand::Other
    }
}

/// A well-formed message to the game: a command and what comes with it.
pub struct GameRequest {
    pub command: GameCommand,
    pub content: String,
}

/// `s[i]` is a colon, and the only one in `s`.
pub open spec fn is_sole_colon(s: Seq<char>, i: int) -> bool {
    &&& 0 <= i < s.len()
    &&& s[i] == ':'
    &&& forall|j: int| 0 <= j < s.len() && j != i ==> s[j] != ':'
}

/// A message split at its colon into command name and content, when it
/// holds exactly one colon (when splitting it at colons gives two parts).
pub open spec fn split_at_colon(s: Seq<char>) -> Option<(Seq<char>, Seq<char>)> {
    if exists|i: int| is_sole_colon(s, i) {
        let i = choose|i: int| is_sole_colon(s, i);
        Some((s.take(i), s.skip(i + 1)))
    } else {
        None
    }
}

pub open spec fn has_no_colon(s: Seq<char>) -> bool {
    forall|j: int| 0 <= j < s.len() ==> s[j] != ':'
}

/// Reads a message to the game: `command:content` with exactly one colon;
/// any other message is invalid (`None`).
pub fn parse_game_message(msg: &str) -> (r: Option<GameRequest>)
    ensures
        match split_at_colon(msg@) {
            None => r is None,
            Some((name, content)) => r matches Some(req) && req.command == command_spec(name)
                && req.content@ == content,
        },
{
    let n = msg.unicode_len();
    let mut count: usize = 0;
    let mut first: usize = 0;
    let mut i: usize = 0;
    while i < n
        invariant
            n == msg@.len(),
            i <= n,
            count <= 1,
            count == 0 ==> forall|j: int| 0 <= j < i ==> msg@[j] != ':',
            count == 1 ==> first < i && msg@[first as int] == ':' && forall|j: int|
                0 <= j < i && j != first ==> msg@[j] != ':',
        decreases n - i,
    {
        if msg.get_char(i) == ':' {
            if count == 1 {
                assert(!exists|k: int| is_sole_colon(msg@, k)) by {
                    if exists|k: int| is_sole_colon(msg@, k) {
                        let k = choose|k: int| is_sole_colon(msg@, k);
                        assert(k == first || msg@[first as int] != ':');
                        assert(k == i || msg@[i as int] != ':');
                    }
                }
                return None;
            }
            count = 1;
            first = i;
        }
        i = i + 1;
    }
    if count == 0 {
        assert(!exists|k: int| is_sole_colon(msg@, k)) by {
            if exists|k: int| is_sole_colon(msg@, k) {
                let k = choose|k: int| is_sole_colon(msg@, k);
                assert(msg@[k] == ':');
            }
        }
        return None;
    }
    assert(is_sole_colon(msg@, first as int));
    proof {
        let k = choose|k: int| is_sole_colon(msg@, k);
        assert(k == first) by {
            if k != first {
                assert(msg@[first as int] != ':');
            }
        }
    }
    let name = msg.substring_char(0, first);
    let content = msg.substring_char(first + 1, n);
    Some(GameRequest { command: command_from_name(name), content: content.to_owned() })
}

/// The game's answer to a message: `Invalid` for an ill-formed one, else
/// `Game updated`.
pub fn game_reply(request: &Option<GameRequest>) -> (r: &'static str)
    ensures
        request is None ==> r@ == "Invalid"@,
        request is Some ==> r@ == "Game updated"@,
{
    match request {
        None => "Invalid",
        Some(_) => "Game updated",
    }
}

/// Plays a card; the rule is not written yet, and it changes nothing.
pub fn play_card() {
}

/// Adds a card to the lower deck; the rule is not written yet, and it changes nothing.
pub fn lower_deck_add() {
}

/// Removes a card from the lower deck; the rule is not written yet, and it changes nothing.
pub fn lower_deck_remove() {
}

/// Changes the weapon; the rule is not written yet, and it changes nothing.
pub fn change_weapon() {
}

/// A message of a command name and a content, neither holding a colon,
/// joined by a colon, reads back as that name and that content.
pub proof fn lemma_message_round_trip(name: Seq<char>, content: Seq<char>)
    requires
        has_no_colon(name),
        has_no_colon(content),
    ensures
        split_at_colon(name + seq![':'] + content) == Some((name, content)),
{
    let s = name + seq![':'] + content;
    let i = name.len() as int;
    assert(s[i] == ':');
    assert forall|j: int| 0 <= j < s.len() && j != i implies s[j] != ':' by {
        if j < i {
            assert(s[j] == name[j]);
        } else {
            assert(s[j] == content[j - i - 1]);
        }
    }
    assert(is_sole_colon(s, i));
    let k = choose|k: int| is_sole_colon(s, k);
    assert(k == i) by {
        if k != i {
            assert(s[i] != ':');
        }
    }
    assert(s.take(i) =~= name);
    assert(s.skip(i + 1) =~= content);
}

/// A message without a colon is invalid.
pub proof fn lemma_invalid_without_colon(s: Seq<char>)
    requires
        has_no_colon(s),
    ensures
        split_at_colon(s) is None,
{
    if exists|k: int| is_sole_colon(s, k) {
        let k = choose|k: int| is_sole_colon(s, k);
        assert(s[k] == ':');
    }
}

/// A message with two colons or more is invalid.
pub proof fn lemma_invalid_with_two_colons(s: Seq<char>, a: int, b: int)
    requires
        0 <= a < b < s.len(),
        s[a] == ':',
        s[b] == ':',
    ensures
        split_at_colon(s) is None,
{
    if exists|k: int| is_sole_colon(s, k) {
        let k = choose|k: int| is_sole_colon(s, k);
        assert(k == a || s[a] != ':');
        assert(k == b || s[b] != ':');
    }
}

} // verus!
