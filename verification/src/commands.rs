//! The commands of the directory, and what each of them is to the handler
//! that runs it.

use vstd::prelude::*;
use crate::database::{delete, upsert, Database};
use crate::embed::{Embed, EmbedView};
use crate::entry::{GuildEntry, GuildEntryView};
use crate::interaction::{
    CommandDeclaration, CommandDeclarationView, Interaction, InteractionView, OptionView,
};
use crate::text::parse_u64_spec;
use crate::commands::add::AddServer;
use crate::commands::remove::RemoveServer;
use crate::commands::search::SearchServer;
use crate::commands::show_menu::ShowServersMenu;

pub mod add;
pub mod remove;
pub mod search;
pub mod show_menu;

verus! {

/// What a command did to the table, for whoever keeps the table on disk.
#[derive(Debug, PartialEq, Eq)]
pub enum Change {
    /// The table is as it was.
    Nothing,
    /// The entry was stored under its id.
    Stored(GuildEntry),
    /// The entry under the id was taken out.
    Removed(u64),
}

pub enum ChangeView {
    Nothing,
    Stored(GuildEntryView),
    Removed(u64),
}

impl View for Change {
    type V = ChangeView;

    open spec fn view(&self) -> ChangeView {
        match self {
            Change::Nothing => ChangeView::Nothing,
            Change::Stored(entry) => ChangeView::Stored(entry@),
            Change::Removed(guild_id) => ChangeView::Removed(*guild_id),
        }
    }
}

/// The table after `change`.
pub open spec fn changed(rows: Seq<GuildEntryView>, change: ChangeView) -> Seq<GuildEntryView> {
    match change {
        ChangeView::Nothing => rows,
        ChangeView::Stored(entry) => upsert(rows, entry),
        ChangeView::Removed(guild_id) => delete(rows, guild_id),
    }
}

/// What running a command comes to: the answer to show, and the change
/// that it made to the table.
#[derive(Debug, PartialEq, Eq)]
pub struct Outcome {
    pub embed: Embed,
    pub change: Change,
}

pub struct OutcomeView {
    pub embed: EmbedView,
    pub change: ChangeView,
}

impl View for Outcome {
    type V = OutcomeView;

    open spec fn view(&self) -> OutcomeView {
        OutcomeView { embed: self.embed@, change: self.change@ }
    }
}

/// An answer that leaves the table as it was.
pub open spec fn answer(embed: EmbedView) -> OutcomeView {
    OutcomeView { embed, change: ChangeView::Nothing }
}

impl Outcome {
    /// An answer that leaves the table as it was.
    pub fn answer(embed: Embed) -> (outcome: Outcome)
        ensures
            outcome@ == answer(embed@),
    {
        Outcome { embed, change: Change::Nothing }
    }
}

/// The title of the answer to an option named `id` whose text is no
/// unsigned 64-bit numeral; none for any other option.
pub open spec fn id_fault(option: OptionView) -> Option<Seq<char>> {
    if option.name == "id"@ && parse_u64_spec(option.value) is None {
        Some("Invalid Server ID"@)
    } else {
        None
    }
}

/// The guild id that the text given for `id` denotes.
pub open spec fn given_id(value: Option<Seq<char>>) -> Option<u64> {
    match value {
        Some(text) => parse_u64_spec(text),
        None => None,
    }
}

/// One command of the directory: a name to be called by, a declaration for
/// the platform, and what it does to the table and answers when it is run.
pub trait GuildlyCommand {
    /// The name under which the command is registered and called.
    spec fn called(&self) -> Seq<char>;

    /// The declaration that the command makes of `ctx`.
    spec fn declared(&self, ctx: CommandDeclarationView) -> CommandDeclarationView;

    /// Whether the command has an answer to `interaction`.
    spec fn accepts(&self, interaction: InteractionView) -> bool;

    /// What running the command on `interaction` comes to when the table
    /// holds `rows`.
    spec fn outcome(&self, rows: Seq<GuildEntryView>, interaction: InteractionView) -> OutcomeView;

    fn name(&self) -> (name: &'static str)
        ensures
            name@ == self.called(),
    ;

    fn create_command(&self, ctx: CommandDeclaration) -> (declaration: CommandDeclaration)
        ensures
            declaration@ == self.declared(ctx@),
    ;

    fn handles(&self, interaction: &Interaction) -> (yes: bool)
        ensures
            yes == self.accepts(interaction@),
    ;

    fn execute(&self, database: &mut Database, interaction: &Interaction) -> (outcome: Outcome)
        requires
            self.accepts(interaction@),
        ensures
            outcome@ == self.outcome(old(database)@, interaction@),
            final(database)@ == changed(old(database)@, outcome@.change),
    ;
}

/// The commands that a handler can hold.
#[derive(Clone, Copy, Debug, PartialEq, Eq, Structural)]
pub enum Command {
    Add(AddServer),
    Remove(RemoveServer),
    Search(SearchServer),
    ShowServers(ShowServersMenu),
}

impl GuildlyCommand for Command {
    open spec fn called(&self) -> Seq<char> {
        match self {
            Command::Add(command) => command.called(),
            Command::Remove(command) => command.called(),
            Command::Search(command) => command.called(),
            Command::ShowServers(command) => command.called(),
        }
    }

    open spec fn declared(&self, ctx: CommandDeclarationView) -> CommandDeclarationView {
        match self {
            Command::Add(command) => command.declared(ctx),
            Command::Remove(command) => command.declared(ctx),
            Command::Search(command) => command.declared(ctx),
            Command::ShowServers(command) => command.declared(ctx),
        }
    }

    open spec fn accepts(&self, interaction: InteractionView) -> bool {
        match self {
            Command::Add(command) => command.accepts(interaction),
            Command::Remove(command) => command.accepts(interaction),
            Command::Search(command) => command.accepts(interaction),
            Command::ShowServers(command) => command.accepts(interaction),
        }
    }

    open spec fn outcome(
        &self,
        rows: Seq<GuildEntryView>,
        interaction: InteractionView,
    ) -> OutcomeView {
        match self {
            Command::Add(command) => command.outcome(rows, interaction),
            Command::Remove(command) => command.outcome(rows, interaction),
            Command::Search(command) => command.outcome(rows, interaction),
            Command::ShowServers(command) => command.outcome(rows, interaction),
        }
    }

    fn name(&self) -> (name: &'static str) {
        match self {
            Command::Add(command) => command.name(),
            Command::Remove(command) => command.name(),
            Command::Search(command) => command.name(),
            Command::ShowServers(command) => command.name(),
        }
    }

    fn create_command(&self, ctx: CommandDeclaration) -> (declaration: CommandDeclaration) {
        match self {
            Command::Add(command) => command.create_command(ctx),
            Command::Remove(command) => command.create_command(ctx),
            Command::Search(command) => command.create_command(ctx),
            Command::ShowServers(command) => command.create_command(ctx),
        }
    }

    fn handles(&self, interaction: &Interaction) -> (yes: bool) {
        match self {
            Command::Add(command) => command.handles(interaction),
            Command::Remove(command) => command.handles(interaction),
            Command::Search(command) => command.handles(interaction),
            Command::ShowServers(command) => command.handles(interaction),
        }
    }

    fn execute(&self, database: &mut Database, interaction: &Interaction) -> (outcome: Outcome) {
        match self {
            Command::Add(command) => command.execute(database, interaction),
            Command::Remove(command) => command.execute(database, interaction),
            Command::Search(command) => command.execute(database, interaction),
            Command::ShowServers(command) => command.execute(database, interaction),
        }
    }
}

} // verus!
