//! Game-name resolution and sorting decisions for an album of console captures.
//!
//! Every capture carries the identifier of its game in its file name. The
//! [`resolver`] turns an identifier into the game's name: it asks the override
//! table first, which a JSON source supplies ([`overrides`]), and then the
//! built-in table ([`builtin`]). The [`plan`] module decides, from plain facts
//! about the file system, what the sorter does with a file or a folder.

pub mod builtin;
pub mod json;
pub mod memo;
pub mod overrides;
pub mod plan;
pub mod resolver;
pub mod table;

pub use resolver::{display_name, get_game_name, Resolver};
