//! A small interactive-fiction engine: a world of rooms, a player who walks
//! between them, a line editor that turns raw key codes into submitted lines,
//! and an interpreter that turns those lines into moves and replies.
pub mod command;
pub mod editor;
pub mod player;
pub mod story;
pub mod text;
pub mod world;
