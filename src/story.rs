use vstd::prelude::*;
use crate::command::{
    direction_word, lemma_direction_word_parses, lemma_empty_line_is_unknown, parse_command,
    reply_text, spec_parse, Command, Outcome, Reply,
};
use crate::editor::{step, submits, EscapeState, LineEditor};
use crate::player::Player;
use crate::text::{fill_text, filled, header_line, header_text};
use crate::world::{
    Direction, Item, ItemIdentifier, ItemRegistry, Room, RoomIdentifier, RoomRegistry,
};

verus! {

/// Where a move in direction `d` from `loc` leads; `Void` where it leads
/// nowhere. Only west and east are walkable.
pub open spec fn destination(
    rooms: Map<RoomIdentifier, Room>,
    loc: RoomIdentifier,
    d: Direction,
) -> RoomIdentifier {
    if (d == Direction::West || d == Direction::East) && rooms.contains_key(loc) {
        rooms[loc].spec_exit(d)
    } else {
        RoomIdentifier::Void
    }
}

/// What a command does from `loc`: the outcome, the player's next location,
/// and whether a move was made.
pub open spec fn respond(
    rooms: Map<RoomIdentifier, Room>,
    loc: RoomIdentifier,
    cmd: Command,
) -> (Outcome, RoomIdentifier, bool) {
    match cmd {
        Command::Quit => (Outcome::Quit, loc, false),
        Command::Look => (Outcome::Continue { reply: None, redraw_room: true }, loc, false),
        Command::Go(d) => {
            let to = destination(rooms, loc, d);
            if to == RoomIdentifier::Void {
                (Outcome::Continue { reply: Some(Reply::CannotGo), redraw_room: false }, loc, false)
            } else {
                (Outcome::Continue { reply: Some(Reply::Heading(d)), redraw_room: true }, to, true)
            }
        },
        Command::Unknown => (
            Outcome::Continue { reply: Some(Reply::NotUnderstood), redraw_room: false },
            loc,
            false,
        ),
    }
}

/// One play session: the world, the player in it, and the line being typed.
pub struct InteractiveStory {
    pub columns: usize,
    pub game_title: String,
    pub player: Player,
    pub items: ItemRegistry,
    pub rooms: RoomRegistry,
    pub editor: LineEditor,
}

impl InteractiveStory {
    pub open spec fn wf(&self) -> bool {
        &&& self.items.wf()
        &&& self.rooms.wf()
        &&& self.editor.wf()
    }

    /// A session for a screen `columns` wide, with an empty world holding
    /// only the sentinel room, and a player placed nowhere yet.
    pub fn new(columns: usize) -> (r: InteractiveStory)
        ensures
            r.wf(),
            r.columns == columns,
            r.game_title@ == "Mystery"@,
            r.rooms@.dom() == set![RoomIdentifier::Void],
            r.rooms@[RoomIdentifier::Void].name@ == "The Void"@,
            r.rooms@[RoomIdentifier::Void].description@
                == "I'm in the void. So this is the end, huh?"@,
            forall|d: Direction|
                #[trigger] r.rooms@[RoomIdentifier::Void].spec_exit(d) == RoomIdentifier::Void,
            r.items@ == Map::<ItemIdentifier, Item>::empty(),
            r.player.location == RoomIdentifier::Void,
            r.player.moves == 0,
            r.player.score == 0,
            r.player.items@.len() == 0,
            r.editor@ == (Seq::<char>::empty(), 0int, EscapeState::Idle),
    {
        let story = InteractiveStory {
            columns,
            game_title: String::from_str("Mystery"),
            player: Player::new(),
            items: ItemRegistry::new(),
            rooms: RoomRegistry::new(void_room()),
            editor: LineEditor::new(),
        };
        assert(story.rooms@.dom() =~= set![RoomIdentifier::Void]);
        story
    }
    /// Fills the item registry.
    pub fn define_items(&mut self)
        requires
            old(self).wf(),
        ensures
            final(self).wf(),
            final(self).items@.contains_key(ItemIdentifier::Flashlight),
            final(self).items@[ItemIdentifier::Flashlight].description@
                == "A sleek and modern flashlight"@,
            final(self).items@.dom() == old(self).items@.dom().insert(ItemIdentifier::Flashlight),
            final(self).rooms == old(self).rooms,
            final(self).player == old(self).player,
            final(self).editor == old(self).editor,
            final(self).columns == old(self).columns,
            final(self).game_title == old(self).game_title,
    {
        self.items.insert(
            Item::new(
                ItemIdentifier::Flashlight,
                String::from_str("A sleek and modern flashlight"),
            ),
        );
    }

    /// Fills the room registry: the sentinel room, the hotel room, and the
    /// hallway west of it.
    pub fn define_rooms(&mut self)
        requires
            old(self).wf(),
        ensures
            final(self).wf(),
            final(self).rooms@.contains_key(RoomIdentifier::Void),
            final(self).rooms@.contains_key(RoomIdentifier::GrimyHotelRoom),
            final(self).rooms@.contains_key(RoomIdentifier::HotelHallway),
            final(self).rooms@[RoomIdentifier::Void].name@ == "The Void"@,
            forall|d: Direction|
                #[trigger] final(self).rooms@[RoomIdentifier::Void].spec_exit(d)
                    == RoomIdentifier::Void,
            final(self).rooms@[RoomIdentifier::GrimyHotelRoom].name@
                == "Grimy & Dark Hotel Room"@,
            final(self).rooms@[RoomIdentifier::GrimyHotelRoom].description@
                == "I'm in a dark, seedy, and extremely dirty hotel room.  My head is killing me."@,
            forall|d: Direction|
                #[trigger] final(self).rooms@[RoomIdentifier::GrimyHotelRoom].spec_exit(d) == (
                if d == Direction::West {
                    RoomIdentifier::HotelHallway
                } else {
                    RoomIdentifier::Void
                }),
            final(self).rooms@[RoomIdentifier::HotelHallway].name@
                == "Grimy & Dark Hotel's Hallway"@,
            final(self).rooms@[RoomIdentifier::HotelHallway].description@
                == "If it's possible, this hallway is even darker and more disgusting than that hotel room. Who am I?"@,
            forall|d: Direction|
                #[trigger] final(self).rooms@[RoomIdentifier::HotelHallway].spec_exit(d) == (
                if d == Direction::East {
                    RoomIdentifier::GrimyHotelRoom
                } else {
                    RoomIdentifier::Void
                }),
            final(self).items == old(self).items,
            final(self).player == old(self).player,
            final(self).editor == old(self).editor,
            final(self).columns == old(self).columns,
            final(self).game_title == old(self).game_title,
    {
        self.rooms.insert(void_room());
        self.rooms.insert(
            Room::new(
                RoomIdentifier::GrimyHotelRoom,
                String::from_str("Grimy & Dark Hotel Room"),
                String::from_str(
                    "I'm in a dark, seedy, and extremely dirty hotel room.  My head is killing me.",
                ),
                RoomIdentifier::Void,
                RoomIdentifier::Void,
                RoomIdentifier::HotelHallway,
                RoomIdentifier::Void,
                RoomIdentifier::Void,
                RoomIdentifier::Void,
            ),
        );
        self.rooms.insert(
            Room::new(
                RoomIdentifier::HotelHallway,
                String::from_str("Grimy & Dark Hotel's Hallway"),
                String::from_str(
                    "If it's possible, this hallway is even darker and more disgusting than that hotel room. Who am I?",
                ),
                RoomIdentifier::Void,
                RoomIdentifier::Void,
                RoomIdentifier::Void,
                RoomIdentifier::GrimyHotelRoom,
                RoomIdentifier::Void,
                RoomIdentifier::Void,
            ),
        );
    }

    /// Builds the world and places the player in the hotel room.
    pub fn initialize(&mut self)
        requires
            old(self).wf(),
        ensures
            final(self).wf(),
            final(self).player.location == RoomIdentifier::GrimyHotelRoom,
            final(self).player.moves == old(self).player.moves,
            final(self).player.score == old(self).player.score,
            final(self).player.items == old(self).player.items,
            final(self).rooms@.dom() == set![
                RoomIdentifier::Void,
                RoomIdentifier::GrimyHotelRoom,
                RoomIdentifier::HotelHallway,
            ],
            final(self).rooms@[RoomIdentifier::GrimyHotelRoom].west
                == RoomIdentifier::HotelHallway,
            final(self).rooms@[RoomIdentifier::GrimyHotelRoom].east == RoomIdentifier::Void,
            final(self).rooms@[RoomIdentifier::HotelHallway].east
                == RoomIdentifier::GrimyHotelRoom,
            final(self).rooms@[RoomIdentifier::HotelHallway].west == RoomIdentifier::Void,
            final(self).items@.contains_key(ItemIdentifier::Flashlight),
            final(self).editor == old(self).editor,
            final(self).columns == old(self).columns,
    {
        self.define_items();
        self.define_rooms();
        self.player.location = RoomIdentifier::GrimyHotelRoom;
        assert(self.rooms@.dom() =~= set![
            RoomIdentifier::Void,
            RoomIdentifier::GrimyHotelRoom,
            RoomIdentifier::HotelHallway,
        ]) by {
            assert(self.rooms@[RoomIdentifier::GrimyHotelRoom].spec_exit(Direction::West)
                == RoomIdentifier::HotelHallway);
        }
        assert(self.rooms@[RoomIdentifier::GrimyHotelRoom].spec_exit(Direction::West)
            == RoomIdentifier::HotelHallway);
        assert(self.rooms@[RoomIdentifier::GrimyHotelRoom].spec_exit(Direction::East)
            == RoomIdentifier::Void);
        assert(self.rooms@[RoomIdentifier::HotelHallway].spec_exit(Direction::West)
            == RoomIdentifier::Void);
        assert(self.rooms@[RoomIdentifier::HotelHallway].spec_exit(Direction::East)
            == RoomIdentifier::GrimyHotelRoom);
    }
    /// The description of the player's room, ended by a line break and
    /// wrapped to the screen's width. An unknown location shows the
    /// sentinel room.
    pub fn look_at_room(&self) -> (r: String)
        requires
            self.wf(),
        ensures
            r@ == filled(
                self.rooms.spec_room(self.player.location).description@.push('\n'),
                self.columns as nat,
            ),
    {
        let room = self.rooms.room(self.player.location);
        let mut description = room.description.clone();
        description.push('\n');
        fill_text(description.as_str(), self.columns)
    }

    /// The header bar: title, the player's room, score and move count.
    pub fn update_header(&self) -> (r: String)
        requires
            self.wf(),
        ensures
            r@ == header_line(
                self.game_title@,
                self.rooms.spec_room(self.player.location).name@,
                self.player.score as nat,
                self.player.moves as nat,
                self.columns as nat,
            ),
    {
        let room = self.rooms.room(self.player.location);
        header_text(
            self.game_title.as_str(),
            room.name.as_str(),
            self.player.score,
            self.player.moves,
            self.columns,
        )
    }

    /// Where the exit west of the player's room leads (`Void`: nowhere).
    pub fn move_west(&self) -> (r: RoomIdentifier)
        requires
            self.wf(),
        ensures
            r == destination(self.rooms@, self.player.location, Direction::West),
    {
        self.rooms.exit(self.player.location, Direction::West)
    }

    /// Where the exit east of the player's room leads (`Void`: nowhere).
    pub fn move_east(&self) -> (r: RoomIdentifier)
        requires
            self.wf(),
        ensures
            r == destination(self.rooms@, self.player.location, Direction::East),
    {
        self.rooms.exit(self.player.location, Direction::East)
    }

    /// Carries out a submitted line: moves the player where it names a
    /// walkable exit, and says what to print.
    pub fn interpret(&mut self, line: &Vec<char>) -> (r: Outcome)
        requires
            old(self).wf(),
            old(self).player.moves < u32::MAX,
        ensures
            final(self).wf(),
            ({
                let (o, to, moved) = respond(
                    old(self).rooms@,
                    old(self).player.location,
                    spec_parse(line@),
                );
                &&& r == o
                &&& final(self).player.location == to
                &&& final(self).player.moves == old(self).player.moves + (if moved {
                    1int
                } else {
                    0int
                })
            }),
            final(self).player.score == old(self).player.score,
            final(self).player.items == old(self).player.items,
            final(self).rooms == old(self).rooms,
            final(self).items == old(self).items,
            final(self).editor == old(self).editor,
            final(self).columns == old(self).columns,
            final(self).game_title == old(self).game_title,
    {
        match parse_command(line) {
            Command::Quit => Outcome::Quit,
            Command::Look => Outcome::Continue { reply: None, redraw_room: true },
            Command::Go(d) => {
                let to = match d {
                    Direction::West => self.move_west(),
                    Direction::East => self.move_east(),
                    _ => RoomIdentifier::Void,
                };
                if to == RoomIdentifier::Void {
                    Outcome::Continue { reply: Some(Reply::CannotGo), redraw_room: false }
                } else {
                    self.player.location = to;
                    self.player.made_move();
                    Outcome::Continue { reply: Some(Reply::Heading(d)), redraw_room: true }
                }
            },
            Command::Unknown => Outcome::Continue {
                reply: Some(Reply::NotUnderstood),
                redraw_room: false,
            },
        }
    }

    /// Starts a fresh input line.
    pub fn prompt(&mut self)
        ensures
            final(self).editor@ == (Seq::<char>::empty(), 0int, EscapeState::Idle),
            final(self).editor.wf(),
            final(self).player == old(self).player,
            final(self).rooms == old(self).rooms,
            final(self).items == old(self).items,
            final(self).columns == old(self).columns,
            final(self).game_title == old(self).game_title,
    {
        self.editor.clear();
    }

    /// Takes one key code. A negative code means the input has ended, which
    /// ends the session like `quit`. Any other code goes to the line editor;
    /// where it submits the line, the line is carried out and its outcome
    /// returned. `None` means only the line being typed changed.
    pub fn handle_key(&mut self, code: i32) -> (r: Option<Outcome>)
        requires
            old(self).wf(),
            old(self).player.moves < u32::MAX,
        ensures
            final(self).wf(),
            final(self).rooms == old(self).rooms,
            final(self).items == old(self).items,
            final(self).player.score == old(self).player.score,
            final(self).player.items == old(self).player.items,
            code < 0 ==> r == Some(Outcome::Quit) && final(self).editor == old(self).editor
                && final(self).player == old(self).player,
            code >= 0 ==> final(self).editor@ == step(old(self).editor@, code),
            code >= 0 && !submits(old(self).editor@.2, code) ==> r is None && final(self).player
                == old(self).player,
            code >= 0 && submits(old(self).editor@.2, code) ==> ({
                let (o, to, moved) = respond(
                    old(self).rooms@,
                    old(self).player.location,
                    spec_parse(old(self).editor@.0),
                );
                &&& r == Some(o)
                &&& final(self).player.location == to
                &&& final(self).player.moves == old(self).player.moves + (if moved {
                    1int
                } else {
                    0int
                })
            }),
    {
        if code < 0 {
            return Some(Outcome::Quit);
        }
        match self.editor.feed(code) {
            Some(line) => Some(self.interpret(&line)),
            None => None,
        }
    }
}

/// The sentinel room.
pub fn void_room() -> (r: Room)
    ensures
        r.id == RoomIdentifier::Void,
        r.name@ == "The Void"@,
        r.description@ == "I'm in the void. So this is the end, huh?"@,
        forall|d: Direction| r.spec_exit(d) == RoomIdentifier::Void,
{
    Room::new(
        RoomIdentifier::Void,
        String::from_str("The Void"),
        String::from_str("I'm in the void. So this is the end, huh?"),
        RoomIdentifier::Void,
        RoomIdentifier::Void,
        RoomIdentifier::Void,
        RoomIdentifier::Void,
        RoomIdentifier::Void,
        RoomIdentifier::Void,
    )
}

/// A direction with no walkable exit from the player's room: issuing its
/// word leaves the player where they are, with the same move count, and
/// replies that there is no way there.
pub proof fn lemma_blocked_direction_keeps_player(
    rooms: Map<RoomIdentifier, Room>,
    loc: RoomIdentifier,
    d: Direction,
)
    requires
        destination(rooms, loc, d) == RoomIdentifier::Void,
    ensures
        respond(rooms, loc, spec_parse(direction_word(d))) == (
            Outcome::Continue { reply: Some(Reply::CannotGo), redraw_room: false },
            loc,
            false,
        ),
{
    lemma_direction_word_parses(d);
}

/// A command counts a move exactly when it walks through an exit: it is a
/// west or east move and that exit leads somewhere. Every other command
/// leaves the move count alone.
pub proof fn lemma_only_transitions_count(
    rooms: Map<RoomIdentifier, Room>,
    loc: RoomIdentifier,
    cmd: Command,
)
    ensures
        respond(rooms, loc, cmd).2 <==> (exists|d: Direction|
            cmd == Command::Go(d) && (d == Direction::West || d == Direction::East)
                && #[trigger] destination(rooms, loc, d) != RoomIdentifier::Void),
        respond(rooms, loc, cmd).2 ==> respond(rooms, loc, cmd).1 == destination(
            rooms,
            loc,
            cmd->Go_0,
        ),
        !respond(rooms, loc, cmd).2 ==> respond(rooms, loc, cmd).1 == loc,
{
    if let Command::Go(d) = cmd {
        if respond(rooms, loc, cmd).2 {
            assert(destination(rooms, loc, d) != RoomIdentifier::Void);
        }
    }
}

/// Whether an outcome reports a walk through an exit.
pub open spec fn reports_transition(o: Outcome) -> bool {
    exists|d: Direction|
        o == Outcome::Continue { reply: Some(Reply::Heading(d)), redraw_room: true }
}

/// The player's location and move count after a sequence of commands,
/// carried out in order from `loc` with `moves` moves made.
pub open spec fn run_commands(
    rooms: Map<RoomIdentifier, Room>,
    loc: RoomIdentifier,
    moves: int,
    cmds: Seq<Command>,
) -> (RoomIdentifier, int)
    decreases cmds.len(),
{
    if cmds.len() == 0 {
        (loc, moves)
    } else {
        let (o, to, moved) = respond(rooms, loc, cmds[0]);
        run_commands(rooms, to, moves + if moved { 1int } else { 0int }, cmds.drop_first())
    }
}

/// How many commands of a sequence, carried out in order from `loc`, report
/// a walk through an exit.
pub open spec fn transitions(
    rooms: Map<RoomIdentifier, Room>,
    loc: RoomIdentifier,
    cmds: Seq<Command>,
) -> nat
    decreases cmds.len(),
{
    if cmds.len() == 0 {
        0
    } else {
        let (o, to, moved) = respond(rooms, loc, cmds[0]);
        let here: nat = if reports_transition(o) { 1 } else { 0 };
        here + transitions(rooms, to, cmds.drop_first())
    }
}

/// Over any sequence of commands the move count grows by exactly the number
/// of commands that walked through an exit.
pub proof fn lemma_moves_count_transitions(
    rooms: Map<RoomIdentifier, Room>,
    loc: RoomIdentifier,
    moves: int,
    cmds: Seq<Command>,
)
    ensures
        run_commands(rooms, loc, moves, cmds).1 == moves + transitions(rooms, loc, cmds),
    decreases cmds.len(),
{
    if cmds.len() > 0 {
        let (o, to, moved) = respond(rooms, loc, cmds[0]);
        if moved {
            assert(reports_transition(o));
        } else {
            assert(!reports_transition(o));
        }
        lemma_moves_count_transitions(
            rooms,
            to,
            moves + if moved { 1int } else { 0int },
            cmds.drop_first(),
        );
    }
}

/// An empty line matches no verb: the reply is that the line was not
/// understood, and nothing changes.
pub proof fn lemma_empty_line_not_understood(rooms: Map<RoomIdentifier, Room>, loc: RoomIdentifier)
    ensures
        respond(rooms, loc, spec_parse(Seq::<char>::empty())) == (
            Outcome::Continue { reply: Some(Reply::NotUnderstood), redraw_room: false },
            loc,
            false,
        ),
        reply_text(Reply::NotUnderstood) == "I don't understand you, friend.\n"@,
{
    lemma_empty_line_is_unknown();
}

} // verus!
