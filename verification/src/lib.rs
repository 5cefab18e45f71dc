//! A directory of guilds for a chat platform: the table of entries, the
//! commands that query and change it, the cards they answer with, and the
//! rule that finds guilds in the links of a message.

pub mod address;
pub mod commands;
pub mod database;
pub mod embed;
pub mod entry;
pub mod handler;
pub mod interaction;
pub mod links;
pub mod text;

pub use crate::address::Url;
pub use crate::embed::{create_embed_from_entries, create_embed_from_entry, Color, Embed};
pub use crate::entry::{GuildEntry, Row};
pub use crate::handler::{Dispatch, GuildlyHandler};
pub use crate::links::find_guild_ids;
