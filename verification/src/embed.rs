//! What a command answers with: a coloured card with an optional title, an
//! optional author line and a list of fields.

use vstd::prelude::*;
use vstd::string::*;
use crate::address::{text_view, Url, UrlView};
use crate::entry::{entries_view, url_text, GuildEntry, GuildEntryView};

verus! {

/// The colours of an answer, as RGB codes.
pub struct Color;

impl Color {
    /// Something was done or found.
    pub const INFO: u32 = 0x6FC6E2;

    /// Nothing was found.
    pub const WARN: u32 = 0xE67E22;

    /// The command could not be carried out.
    pub const ERROR: u32 = 0xE74C3C;
}

/// The author line of an answer.
#[derive(Debug, PartialEq, Eq)]
pub struct Author {
    pub name: String,
    pub link: Option<String>,
    pub icon: Option<String>,
}

pub struct AuthorView {
    pub name: Seq<char>,
    pub link: Option<Seq<char>>,
    pub icon: Option<Seq<char>>,
}

impl View for Author {
    type V = AuthorView;

    open spec fn view(&self) -> AuthorView {
        AuthorView { name: self.name@, link: text_view(self.link), icon: text_view(self.icon) }
    }
}

/// One field of an answer.
#[derive(Debug, PartialEq, Eq)]
pub struct Field {
    pub label: String,
    pub value: String,
    pub inline: bool,
}

pub struct FieldView {
    pub label: Seq<char>,
    pub value: Seq<char>,
    pub inline: bool,
}

impl View for Field {
    type V = FieldView;

    open spec fn view(&self) -> FieldView {
        FieldView { label: self.label@, value: self.value@, inline: self.inline }
    }
}

/// An answer to a command.
#[derive(Debug, PartialEq, Eq)]
pub struct Embed {
    pub color: u32,
    pub title: Option<String>,
    pub author: Option<Author>,
    pub fields: Vec<Field>,
}

pub struct EmbedView {
    pub color: u32,
    pub title: Option<Seq<char>>,
    pub author: Option<AuthorView>,
    pub fields: Seq<FieldView>,
}

pub open spec fn author_view(author: Option<Author>) -> Option<AuthorView> {
    match author {
        Some(a) => Some(a@),
        None => None,
    }
}

pub open spec fn fields_view(fields: Seq<Field>) -> Seq<FieldView> {
    Seq::new(fields.len(), |i: int| fields[i]@)
}

impl View for Embed {
    type V = EmbedView;

    open spec fn view(&self) -> EmbedView {
        EmbedView {
            color: self.color,
            title: text_view(self.title),
            author: author_view(self.author),
            fields: fields_view(self.fields@),
        }
    }
}

/// An answer that is a colour and a title, and nothing else.
pub open spec fn notice(color: u32, title: Seq<char>) -> EmbedView {
    EmbedView { color, title: Some(title), author: None, fields: Seq::empty() }
}

/// `embed` under the title `title`.
pub open spec fn titled(embed: EmbedView, title: Seq<char>) -> EmbedView {
    EmbedView { title: Some(title), ..embed }
}

/// The card of one entry: its name as the author, linked to its invite and
/// with its icon where it has them.
pub open spec fn entry_embed(entry: GuildEntryView) -> EmbedView {
    EmbedView {
        color: Color::INFO,
        title: None,
        author: Some(
            AuthorView {
                name: entry.name,
                link: url_text(entry.invite_url),
                icon: url_text(entry.icon_url),
            },
        ),
        fields: Seq::empty(),
    }
}

/// The label of an entry in a list: its name, as a markdown link to its
/// invite where it has one.
pub open spec fn entry_label(entry: GuildEntryView) -> Seq<char> {
    match entry.invite_url {
        Some(url) => "["@ + entry.name + "]("@ + url.text + ")"@,
        None => entry.name,
    }
}

/// The field of an entry in a list: its label, over an empty value, not
/// inlined.
pub open spec fn entry_field(entry: GuildEntryView) -> FieldView {
    FieldView { label: entry_label(entry), value: Seq::empty(), inline: false }
}

/// The card of a list of entries: a warning where there is none, the card of
/// the entry where there is one, else one field for each entry, in order.
pub open spec fn entries_embed(entries: Seq<GuildEntryView>) -> EmbedView {
    if entries.len() == 0 {
        notice(Color::WARN, "No Servers Found"@)
    } else if entries.len() == 1 {
        entry_embed(entries[0])
    } else {
        EmbedView {
            color: Color::INFO,
            title: Some("Servers"@),
            author: None,
            fields: Seq::new(entries.len(), |i: int| entry_field(entries[i])),
        }
    }
}

fn link_text(url: &Option<Url>) -> (text: Option<String>)
    ensures
        text_view(text) == url_text(crate::address::url_view(*url)),
{
    match url {
        Some(u) => Some(u.as_str().to_owned()),
        None => None,
    }
}

impl Embed {
    /// An answer that is a colour and a title.
    pub fn notice(color: u32, title: &str) -> (embed: Embed)
        ensures
            embed@ == notice(color, title@),
    {
        let embed = Embed {
            color,
            title: Some(title.to_owned()),
            author: None,
            fields: Vec::new(),
        };
        assert(embed@.fields =~= Seq::empty());
        embed
    }

    /// This answer under the title `title`.
    pub fn title(self, title: &str) -> (embed: Embed)
        ensures
            embed@ == titled(self@, title@),
    {
        Embed {
            color: self.color,
            title: Some(title.to_owned()),
            author: self.author,
            fields: self.fields,
        }
    }
}

/// The card of one entry.
pub fn create_embed_from_entry(entry: &GuildEntry) -> (embed: Embed)
    ensures
        embed@ == entry_embed(entry@),
{
    let author = Author {
        name: entry.name.clone(),
        link: link_text(&entry.invite_url),
        icon: link_text(&entry.icon_url),
    };
    let embed = Embed { color: Color::INFO, title: None, author: Some(author), fields: Vec::new() };
    assert(embed@.fields =~= Seq::empty());
    embed
}

fn label_of(entry: &GuildEntry) -> (label: String)
    ensures
        label@ == entry_label(entry@),
{
    match &entry.invite_url {
        Some(url) => {
            let mut label = "[".to_owned();
            label.append(entry.name.as_str());
            label.append("](");
            label.append(url.as_str());
            label.append(")");
            label
        },
        None => entry.name.clone(),
    }
}

/// The card of a list of entries.
pub fn create_embed_from_entries(entries: &[GuildEntry]) -> (embed: Embed)
    ensures
        embed@ == entries_embed(entries_view(entries@)),
{
    if entries.len() == 0 {
        Embed::notice(Color::WARN, "No Servers Found")
    } else if entries.len() == 1 {
        create_embed_from_entry(&entries[0])
    } else {
        let mut fields: Vec<Field> = Vec::new();
        let ghost all = entries_view(entries@);
        let mut i: usize = 0;
        while i < entries.len()
            invariant
                i <= entries@.len(),
                all == entries_view(entries@),
                fields@.len() == i,
                forall|k: int| 0 <= k < i ==> (#[trigger] fields@[k])@ == entry_field(all[k]),
            decreases entries@.len() - i,
        {
            let field = Field { label: label_of(&entries[i]), value: String::new(), inline: false };
            fields.push(field);
            i += 1;
        }
        let embed = Embed {
            color: Color::INFO,
            title: Some("Servers".to_owned()),
            author: None,
            fields,
        };
        assert(embed@.fields =~= Seq::new(all.len(), |i: int| entry_field(all[i])));
        embed
    }
}

} // verus!
