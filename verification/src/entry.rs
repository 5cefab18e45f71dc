//! The guild record, and the shape in which a table row holds it.

use vstd::prelude::*;
use crate::address::{text_view, url_parse, url_view, Url, UrlView};

verus! {

/// One guild of the directory.
#[derive(Debug, PartialEq, Eq)]
pub struct GuildEntry {
    pub name: String,
    pub guild_id: u64,
    pub invite_url: Option<Url>,
    pub icon_url: Option<Url>,
}

pub struct GuildEntryView {
    pub name: Seq<char>,
    pub guild_id: u64,
    pub invite_url: Option<UrlView>,
    pub icon_url: Option<UrlView>,
}

impl View for GuildEntry {
    type V = GuildEntryView;

    open spec fn view(&self) -> GuildEntryView {
        GuildEntryView {
            name: self.name@,
            guild_id: self.guild_id,
            invite_url: url_view(self.invite_url),
            icon_url: url_view(self.icon_url),
        }
    }
}

pub open spec fn entry_view(entry: Option<GuildEntry>) -> Option<GuildEntryView> {
    match entry {
        Some(e) => Some(e@),
        None => None,
    }
}

/// The views of `entries`, in order.
pub open spec fn entries_view(entries: Seq<GuildEntry>) -> Seq<GuildEntryView> {
    Seq::new(entries.len(), |i: int| entries[i]@)
}

fn clone_url(url: &Option<Url>) -> (copy: Option<Url>)
    ensures
        url_view(copy) == url_view(*url),
{
    match url {
        Some(u) => Some(u.clone()),
        None => None,
    }
}

impl Clone for GuildEntry {
    fn clone(&self) -> (copy: GuildEntry)
        ensures
            copy@ == self@,
    {
        GuildEntry {
            name: self.name.clone(),
            guild_id: self.guild_id,
            invite_url: clone_url(&self.invite_url),
            icon_url: clone_url(&self.icon_url),
        }
    }
}

/// A row of the table `guilds`: a signed 64-bit key, a name, and two
/// nullable texts.
#[derive(Debug, PartialEq, Eq)]
pub struct Row {
    pub guild_id: i64,
    pub name: String,
    pub invite_url: Option<String>,
    pub icon_url: Option<String>,
}

pub struct RowView {
    pub guild_id: i64,
    pub name: Seq<char>,
    pub invite_url: Option<Seq<char>>,
    pub icon_url: Option<Seq<char>>,
}

impl View for Row {
    type V = RowView;

    open spec fn view(&self) -> RowView {
        RowView {
            guild_id: self.guild_id,
            name: self.name@,
            invite_url: text_view(self.invite_url),
            icon_url: text_view(self.icon_url),
        }
    }
}

/// The key column's value for a guild id: the signed number with the same
/// 64 bits.
pub open spec fn id_to_column(id: u64) -> i64 {
    if id <= i64::MAX {
        id as i64
    } else {
        (id - 0x1_0000_0000_0000_0000) as i64
    }
}

/// The guild id that a key column's value stands for.
pub open spec fn column_to_id(column: i64) -> u64 {
    if column >= 0 {
        column as u64
    } else {
        (column + 0x1_0000_0000_0000_0000) as u64
    }
}

/// The URL that a stored text stands for: none where the column is null or
/// its text is no absolute URL.
pub open spec fn stored_url(text: Option<Seq<char>>) -> Option<UrlView> {
    match text {
        Some(t) => url_parse(t),
        None => None,
    }
}

/// The text under which a URL is stored: its serialization.
pub open spec fn url_text(url: Option<UrlView>) -> Option<Seq<char>> {
    match url {
        Some(u) => Some(u.text),
        None => None,
    }
}

/// The row that holds `entry`.
pub open spec fn row_of_entry(entry: GuildEntryView) -> RowView {
    RowView {
        guild_id: id_to_column(entry.guild_id),
        name: entry.name,
        invite_url: url_text(entry.invite_url),
        icon_url: url_text(entry.icon_url),
    }
}

/// The entry that `row` holds.
pub open spec fn entry_of_row(row: RowView) -> GuildEntryView {
    GuildEntryView {
        name: row.name,
        guild_id: column_to_id(row.guild_id),
        invite_url: stored_url(row.invite_url),
        icon_url: stored_url(row.icon_url),
    }
}

/// A guild id survives the key column unchanged, and so does a key.
pub proof fn lemma_id_column_round_trip(id: u64, column: i64)
    ensures
        column_to_id(id_to_column(id)) == id,
        id_to_column(column_to_id(column)) == column,
{
}

/// An entry that is written to a row and read back keeps its name and id;
/// each of its URLs comes back as what its stored serialization parses to.
pub proof fn lemma_row_round_trip(entry: GuildEntryView)
    ensures
        entry_of_row(row_of_entry(entry)).name == entry.name,
        entry_of_row(row_of_entry(entry)).guild_id == entry.guild_id,
        entry_of_row(row_of_entry(entry)).invite_url == stored_url(url_text(entry.invite_url)),
        entry_of_row(row_of_entry(entry)).icon_url == stored_url(url_text(entry.icon_url)),
{
}

/// The key column's value for a guild id.
pub fn encode_id(id: u64) -> (column: i64)
    ensures
        column == id_to_column(id),
{
    if id <= 0x7fff_ffff_ffff_ffff {
        id as i64
    } else {
        let low: u64 = id - 0x8000_0000_0000_0000;
        (low as i64) + i64::MIN
    }
}

/// The guild id that a key column's value stands for.
pub fn decode_id(column: i64) -> (id: u64)
    ensures
        id == column_to_id(column),
{
    if column >= 0 {
        column as u64
    } else {
        let low: i64 = column - i64::MIN;
        (low as u64) + 0x8000_0000_0000_0000
    }
}

fn encode_url(url: &Option<Url>) -> (text: Option<String>)
    ensures
        text_view(text) == url_text(url_view(*url)),
{
    match url {
        Some(u) => Some(u.as_str().to_owned()),
        None => None,
    }
}

fn decode_url(text: &Option<String>) -> (url: Option<Url>)
    ensures
        url_view(url) == stored_url(text_view(*text)),
{
    match text {
        Some(t) => Url::parse(t.as_str()),
        None => None,
    }
}

impl GuildEntry {
    /// The row under which this entry is stored.
    pub fn to_row(&self) -> (row: Row)
        ensures
            row@ == row_of_entry(self@),
    {
        Row {
            guild_id: encode_id(self.guild_id),
            name: self.name.clone(),
            invite_url: encode_url(&self.invite_url),
            icon_url: encode_url(&self.icon_url),
        }
    }

    /// The entry that `row` holds. A stored URL that no longer parses is
    /// read as absent.
    pub fn from_row(row: &Row) -> (entry: GuildEntry)
        ensures
            entry@ == entry_of_row(row@),
    {
        GuildEntry {
            name: row.name.clone(),
            guild_id: decode_id(row.guild_id),
            invite_url: decode_url(&row.invite_url),
            icon_url: decode_url(&row.icon_url),
        }
    }
}

} // verus!
