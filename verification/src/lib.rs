//! The rules and the message handling of a Bang! web server: reading names of
//! cards, characters and weapons; the command line; routing HTTP requests;
//! counting WebSocket connections; reading the players' messages to the game;
//! the players' attributes; and rendering the pages' templates.

pub mod address;
pub mod cards;
pub mod config;
pub mod game;
pub mod lobby;
pub mod player;
pub mod render;
pub mod routing;
pub mod text;
