//! Interprets the text of one game block of a basketball scoreboard page into a typed `Game`.
pub mod date_handler;
pub mod extract;
pub mod game;
pub mod html_parser;
pub mod laws;
pub mod team;
pub mod text;
pub mod timezone;

pub use date_handler::{count_dashes, date_shortcut, extract_date_argument, format_date, DateShortcut};
pub use extract::{interpret, parse_leader, placeholder_table, LeaderFault};
pub use game::{create_nonstarted_game, ExtractionError, Field, Game};
pub use html_parser::{form_game, interpret_block, read_game_block, GameBlockText};
pub use team::Team;
pub use text::{join_words, parse_u32, words_of};
pub use timezone::TimezoneIndex;
