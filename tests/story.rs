use mystery::command::{parse_command, Command, Outcome, Reply};
use mystery::story::{void_room, InteractiveStory};
use mystery::world::{Direction, ItemIdentifier, RoomIdentifier, RoomRegistry};

fn chars(s: &str) -> Vec<char> {
    s.chars().collect()
}

fn started() -> InteractiveStory {
    let mut story = InteractiveStory::new(80);
    story.initialize();
    story
}

#[test]
fn absent_room_falls_back_to_void() {
    let registry = RoomRegistry::new(void_room());
    for id in [RoomIdentifier::GrimyHotelRoom, RoomIdentifier::HotelHallway] {
        assert!(!registry.contains(id));
        let room = registry.room(id);
        assert_eq!(room.id, RoomIdentifier::Void);
        assert_eq!(room.name, "The Void");
        assert_eq!(registry.exit(id, Direction::West), RoomIdentifier::Void);
    }
}

#[test]
fn world_is_built_as_described() {
    let story = started();
    assert_eq!(story.player.location, RoomIdentifier::GrimyHotelRoom);
    assert_eq!(story.player.moves, 0);
    assert_eq!(story.player.score, 0);
    let hotel = story.rooms.room(RoomIdentifier::GrimyHotelRoom);
    assert_eq!(hotel.west, RoomIdentifier::HotelHallway);
    assert_eq!(hotel.east, RoomIdentifier::Void);
    let hallway = story.rooms.room(RoomIdentifier::HotelHallway);
    assert_eq!(hallway.east, RoomIdentifier::GrimyHotelRoom);
    assert_eq!(hallway.name, "Grimy & Dark Hotel's Hallway");
    let flashlight = story.items.get(ItemIdentifier::Flashlight).unwrap();
    assert_eq!(flashlight.description, "A sleek and modern flashlight");
}

#[test]
fn blocked_direction_changes_nothing() {
    let mut story = started();
    for word in ["east", "up", "down", "north", "south"] {
        let outcome = story.interpret(&chars(word));
        assert_eq!(
            outcome,
            Outcome::Continue { reply: Some(Reply::CannotGo), redraw_room: false }
        );
        assert_eq!(story.player.location, RoomIdentifier::GrimyHotelRoom);
        assert_eq!(story.player.moves, 0);
    }
}

#[test]
fn only_transitions_count_moves() {
    let mut story = started();
    story.interpret(&chars("look"));
    story.interpret(&chars("up"));
    story.interpret(&chars("dance"));
    assert_eq!(story.player.moves, 0);
    story.interpret(&chars("west"));
    assert_eq!(story.player.moves, 1);
    story.interpret(&chars("west"));
    story.interpret(&chars("look"));
    assert_eq!(story.player.moves, 1);
    story.interpret(&chars("east"));
    assert_eq!(story.player.moves, 2);
}

#[test]
fn empty_line_is_not_understood() {
    let mut story = started();
    assert_eq!(parse_command(&Vec::new()), Command::Unknown);
    let outcome = story.interpret(&Vec::new());
    assert_eq!(
        outcome,
        Outcome::Continue { reply: Some(Reply::NotUnderstood), redraw_room: false }
    );
    assert_eq!(Reply::NotUnderstood.text(), "I don't understand you, friend.\n");
    assert_eq!(story.player.moves, 0);
}

#[test]
fn matching_is_exact_and_case_sensitive() {
    assert_eq!(parse_command(&chars("West")), Command::Unknown);
    assert_eq!(parse_command(&chars("west ")), Command::Unknown);
    assert_eq!(parse_command(&chars("wes")), Command::Unknown);
    assert_eq!(parse_command(&chars("west")), Command::Go(Direction::West));
    assert_eq!(parse_command(&chars("south")), Command::Go(Direction::South));
    assert_eq!(parse_command(&chars("quit")), Command::Quit);
    assert_eq!(parse_command(&chars("look")), Command::Look);
}

#[test]
fn walk_west_then_east() {
    let mut story = started();
    let outcome = story.interpret(&chars("west"));
    assert_eq!(
        outcome,
        Outcome::Continue { reply: Some(Reply::Heading(Direction::West)), redraw_room: true }
    );
    assert_eq!(Reply::Heading(Direction::West).text(), "OK, heading west.\n");
    assert_eq!(story.player.location, RoomIdentifier::HotelHallway);
    assert_eq!(story.player.moves, 1);
    let outcome = story.interpret(&chars("east"));
    assert_eq!(
        outcome,
        Outcome::Continue { reply: Some(Reply::Heading(Direction::East)), redraw_room: true }
    );
    assert_eq!(Reply::Heading(Direction::East).text(), "OK, heading east.\n");
    assert_eq!(story.player.location, RoomIdentifier::GrimyHotelRoom);
    assert_eq!(story.player.moves, 2);
}

#[test]
fn up_cannot_be_walked() {
    let mut story = started();
    story.interpret(&chars("west"));
    let outcome = story.interpret(&chars("up"));
    assert_eq!(
        outcome,
        Outcome::Continue { reply: Some(Reply::CannotGo), redraw_room: false }
    );
    assert_eq!(
        Reply::CannotGo.text(),
        "I don't appear to be able to go in that direction.\n"
    );
    assert_eq!(story.player.location, RoomIdentifier::HotelHallway);
    assert_eq!(story.player.moves, 1);
}

#[test]
fn quit_ends_the_session() {
    let mut story = started();
    assert_eq!(story.interpret(&chars("quit")), Outcome::Quit);
    assert_eq!(story.player.location, RoomIdentifier::GrimyHotelRoom);
}

#[test]
fn look_asks_for_a_redraw() {
    let mut story = started();
    assert_eq!(
        story.interpret(&chars("look")),
        Outcome::Continue { reply: None, redraw_room: true }
    );
}

#[test]
fn keys_drive_the_session() {
    let mut story = started();
    for c in "west".chars() {
        assert_eq!(story.handle_key(c as i32), None);
    }
    assert_eq!(
        story.handle_key(10),
        Some(Outcome::Continue { reply: Some(Reply::Heading(Direction::West)), redraw_room: true })
    );
    assert_eq!(story.player.location, RoomIdentifier::HotelHallway);
    assert!(story.editor.text().is_empty());
    for c in "quit".chars() {
        story.handle_key(c as i32);
    }
    assert_eq!(story.handle_key(10), Some(Outcome::Quit));
}

#[test]
fn end_of_input_quits() {
    let mut story = started();
    story.handle_key('l' as i32);
    assert_eq!(story.handle_key(-1), Some(Outcome::Quit));
    assert_eq!(story.editor.text(), &vec!['l']);
}

#[test]
fn header_shows_room_score_and_moves() {
    let story = started();
    assert_eq!(
        story.update_header(),
        " Mystery | Grimy & Dark Hotel Room                   Score: 000000 | Moves: 000 "
    );
}

#[test]
fn header_pads_numbers_and_keeps_long_titles() {
    assert_eq!(
        mystery::text::header_text("Mystery", "Grimy & Dark Hotel's Hallway", 42, 1234, 40),
        " Mystery | Grimy & Dark Hotel's Hallway Score: 000042 | Moves: 1234 "
    );
}

#[test]
fn room_description_is_wrapped() {
    let mut story = InteractiveStory::new(20);
    story.initialize();
    let text = story.look_at_room();
    assert!(text.contains('\n'));
    assert!(text.lines().count() > 2);
    for line in text.lines() {
        assert!(line.chars().count() <= 20, "line too wide: {:?}", line);
    }
    let words: Vec<&str> = text.split_whitespace().collect();
    let expected: Vec<&str> =
        "I'm in a dark, seedy, and extremely dirty hotel room.  My head is killing me."
            .split_whitespace()
            .collect();
    assert_eq!(words, expected);
}

#[test]
fn wide_screen_keeps_description_on_one_line() {
    let story = started();
    let text = story.look_at_room();
    assert!(text.starts_with(
        "I'm in a dark, seedy, and extremely dirty hotel room.  My head is killing me."
    ));
}
