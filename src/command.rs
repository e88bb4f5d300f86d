use vstd::prelude::*;
use crate::world::Direction;

verus! {

/// A command the interpreter knows, or `Unknown` for any other line.
#[derive(Clone, Copy, PartialEq, Eq, Structural, Debug)]
pub enum Command {
    Quit,
    Look,
    Go(Direction),
    Unknown,
}

/// The word that issues a move in direction `d`.
pub open spec fn direction_word(d: Direction) -> Seq<char> {
    match d {
        Direction::Up => "up"@,
        Direction::Down => "down"@,
        Direction::West => "west"@,
        Direction::East => "east"@,
        Direction::North => "north"@,
        Direction::South => "south"@,
    }
}

/// The command a submitted line means: an exact, case-sensitive match
/// against the verb table.
pub open spec fn spec_parse(line: Seq<char>) -> Command {
    if line == "quit"@ {
        Command::Quit
    } else if line == "look"@ {
        Command::Look
    } else if line == "west"@ {
        Command::Go(Direction::West)
    } else if line == "east"@ {
        Command::Go(Direction::East)
    } else if line == "up"@ {
        Command::Go(Direction::Up)
    } else if line == "down"@ {
        Command::Go(Direction::Down)
    } else if line == "north"@ {
        Command::Go(Direction::North)
    } else if line == "south"@ {
        Command::Go(Direction::South)
    } else {
        Command::Unknown
    }
}

/// Whether `line` holds exactly the characters of `word`.
fn same_text(line: &Vec<char>, word: &str) -> (r: bool)
    ensures
        r == (line@ == word@),
{
    let n = word.unicode_len();
    if line.len() != n {
        return false;
    }
    let mut i: usize = 0;
    while i < n
        invariant
            n == word@.len(),
            line@.len() == n,
            i <= n,
            forall|j: int| 0 <= j < i ==> line@[j] == word@[j],
        decreases n - i,
    {
        if line[i] != word.get_char(i) {
            return false;
        }
        i = i + 1;
    }
    assert(line@ =~= word@);
    true
}

/// Reads a submitted line as a command.
pub fn parse_command(line: &Vec<char>) -> (r: Command)
    ensures
        r == spec_parse(line@),
{
    if same_text(line, "quit") {
        Command::Quit
    } else if same_text(line, "look") {
        Command::Look
    } else if same_text(line, "west") {
        Command::Go(Direction::West)
    } else if same_text(line, "east") {
        Command::Go(Direction::East)
    } else if same_text(line, "up") {
        Command::Go(Direction::Up)
    } else if same_text(line, "down") {
        Command::Go(Direction::Down)
    } else if same_text(line, "north") {
        Command::Go(Direction::North)
    } else if same_text(line, "south") {
        Command::Go(Direction::South)
    } else {
        Command::Unknown
    }
}

/// Each direction word reads as the move in that direction.
pub proof fn lemma_direction_word_parses(d: Direction)
    ensures
        spec_parse(direction_word(d)) == Command::Go(d),
{
    reveal_strlit("quit");
    reveal_strlit("look");
    reveal_strlit("west");
    reveal_strlit("east");
    reveal_strlit("up");
    reveal_strlit("down");
    reveal_strlit("north");
    reveal_strlit("south");
    assert("quit"@.len() == 4 && "quit"@[0] == 'q' && "quit"@[1] == 'u');
    assert("look"@.len() == 4 && "look"@[0] == 'l' && "look"@[1] == 'o');
    assert("west"@.len() == 4 && "west"@[0] == 'w' && "west"@[1] == 'e');
    assert("east"@.len() == 4 && "east"@[0] == 'e' && "east"@[1] == 'a');
    assert("up"@.len() == 2 && "up"@[0] == 'u' && "up"@[1] == 'p');
    assert("down"@.len() == 4 && "down"@[0] == 'd' && "down"@[1] == 'o');
    assert("north"@.len() == 5 && "north"@[0] == 'n' && "north"@[1] == 'o');
    assert("south"@.len() == 5 && "south"@[0] == 's' && "south"@[1] == 'o');
}

/// The empty line matches no verb.
pub proof fn lemma_empty_line_is_unknown()
    ensures
        spec_parse(Seq::<char>::empty()) == Command::Unknown,
{
    reveal_strlit("quit");
    reveal_strlit("look");
    reveal_strlit("west");
    reveal_strlit("east");
    reveal_strlit("up");
    reveal_strlit("down");
    reveal_strlit("north");
    reveal_strlit("south");
    assert("quit"@.len() == 4);
    assert("look"@.len() == 4);
    assert("west"@.len() == 4);
    assert("east"@.len() == 4);
    assert("up"@.len() == 2);
    assert("down"@.len() == 4);
    assert("north"@.len() == 5);
    assert("south"@.len() == 5);
}


/// A reply printed after a command.
#[derive(Clone, Copy, PartialEq, Eq, Structural, Debug)]
pub enum Reply {
    /// There is no exit that way.
    CannotGo,
    /// The player walked off in this direction.
    Heading(Direction),
    /// The line matched no verb.
    NotUnderstood,
}

/// The text of a reply.
pub open spec fn reply_text(r: Reply) -> Seq<char> {
    match r {
        Reply::CannotGo => "I don't appear to be able to go in that direction.\n"@,
        Reply::Heading(Direction::Up) => "OK, heading up.\n"@,
        Reply::Heading(Direction::Down) => "OK, heading down.\n"@,
        Reply::Heading(Direction::West) => "OK, heading west.\n"@,
        Reply::Heading(Direction::East) => "OK, heading east.\n"@,
        Reply::Heading(Direction::North) => "OK, heading north.\n"@,
        Reply::Heading(Direction::South) => "OK, heading south.\n"@,
        Reply::NotUnderstood => "I don't understand you, friend.\n"@,
    }
}

impl Reply {
    pub fn text(&self) -> (r: &'static str)
        ensures
            r@ == reply_text(*self),
    {
        match self {
            Reply::CannotGo => "I don't appear to be able to go in that direction.\n",
            Reply::Heading(Direction::Up) => "OK, heading up.\n",
            Reply::Heading(Direction::Down) => "OK, heading down.\n",
            Reply::Heading(Direction::West) => "OK, heading west.\n",
            Reply::Heading(Direction::East) => "OK, heading east.\n",
            Reply::Heading(Direction::North) => "OK, heading north.\n",
            Reply::Heading(Direction::South) => "OK, heading south.\n",
            Reply::NotUnderstood => "I don't understand you, friend.\n",
        }
    }
}

/// What the caller is to do after a submitted line: end the session, or
/// print the reply (if any) and then, if asked, redraw the room.
#[derive(Clone, Copy, PartialEq, Eq, Structural, Debug)]
pub enum Outcome {
    Quit,
    Continue { reply: Option<Reply>, redraw_room: bool },
}

} // verus!
