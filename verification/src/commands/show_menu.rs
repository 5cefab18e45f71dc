//! The command that shows the guilds that messages link to.

use vstd::prelude::*;
use crate::commands::{answer, GuildlyCommand, Outcome, OutcomeView};
use crate::database::{lookup, Database};
use crate::embed::{create_embed_from_entries, entries_embed};
use crate::entry::{entries_view, GuildEntry, GuildEntryView};
use crate::interaction::{
    CommandDeclaration, CommandDeclarationView, CommandKind, Interaction, InteractionView,
};
use crate::links::{find_guild_ids, guild_ids_in, strings_view};

verus! {

/// Shows the guilds of the directory that the selected messages link to.
#[derive(Clone, Copy, Debug, PartialEq, Eq, Structural)]
pub struct ShowServersMenu;

/// The entries stored under `ids`, one for each id that has one, in the
/// order of the ids. An id that occurs twice is shown twice.
pub open spec fn entries_under(rows: Seq<GuildEntryView>, ids: Seq<u64>) -> Seq<GuildEntryView>
    decreases ids.len(),
{
    if ids.len() == 0 {
        Seq::empty()
    } else {
        let before = entries_under(rows, ids.drop_last());
        match lookup(rows, ids.last()) {
            Some(entry) => before.push(entry),
            None => before,
        }
    }
}

/// The entries that `messages` link to, message by message.
pub open spec fn linked_entries(rows: Seq<GuildEntryView>, messages: Seq<Seq<char>>) -> Seq<
    GuildEntryView,
>
    decreases messages.len(),
{
    if messages.len() == 0 {
        Seq::empty()
    } else {
        linked_entries(rows, messages.drop_last()) + entries_under(
            rows,
            guild_ids_in(messages.last()),
        )
    }
}

/// What showing comes to: the card of the entries that the messages link
/// to. The table stays as it is.
pub open spec fn show_outcome(rows: Seq<GuildEntryView>, messages: Seq<Seq<char>>) -> OutcomeView {
    answer(entries_embed(linked_entries(rows, messages)))
}

/// The declaration of `show servers`: an entry in the menu of a message.
pub open spec fn show_declaration(ctx: CommandDeclarationView) -> CommandDeclarationView {
    CommandDeclarationView { kind: CommandKind::Message, ..ctx }
}

impl ShowServersMenu {
    /// Appends to `entries` the entries stored under `ids`.
    pub fn collect(database: &Database, ids: &Vec<u64>, entries: &mut Vec<GuildEntry>)
        ensures
            entries_view(final(entries)@) == entries_view(old(entries)@) + entries_under(
                database@,
                ids@,
            ),
    {
        let ghost first = entries_view(entries@);
        let mut i: usize = 0;
        assert(ids@.take(0) =~= Seq::<u64>::empty());
        assert(first + Seq::<GuildEntryView>::empty() =~= first);
        while i < ids.len()
            invariant
                i <= ids@.len(),
                entries_view(entries@) == first + entries_under(database@, ids@.take(i as int)),
            decreases ids@.len() - i,
        {
            proof {
                let next = ids@.take(i + 1);
                assert(next.drop_last() =~= ids@.take(i as int));
                assert(next.last() == ids@[i as int]);
            }
            let ghost before = entries_view(entries@);
            match database.get(ids[i]) {
                Some(entry) => {
                    entries.push(entry);
                    assert(entries_view(entries@) =~= before.push(entry@));
                    assert(before.push(entry@) =~= first + entries_under(
                        database@,
                        ids@.take(i as int),
                    ).push(entry@));
                },
                None => {},
            }
            i += 1;
        }
        assert(ids@.take(ids@.len() as int) =~= ids@);
    }

    /// The entries of the table that `messages` link to.
    pub fn linked(database: &Database, messages: &Vec<String>) -> (entries: Vec<GuildEntry>)
        ensures
            entries_view(entries@) == linked_entries(database@, strings_view(messages@)),
    {
        let mut entries: Vec<GuildEntry> = Vec::new();
        let ghost all = strings_view(messages@);
        let mut i: usize = 0;
        assert(all.take(0) =~= Seq::<Seq<char>>::empty());
        assert(entries_view(entries@) =~= Seq::<GuildEntryView>::empty());
        while i < messages.len()
            invariant
                i <= messages@.len(),
                all == strings_view(messages@),
                entries_view(entries@) == linked_entries(database@, all.take(i as int)),
            decreases messages@.len() - i,
        {
            proof {
                let next = all.take(i + 1);
                assert(next.drop_last() =~= all.take(i as int));
                assert(next.last() == messages@[i as int]@);
            }
            let ids = find_guild_ids(messages[i].as_str());
            ShowServersMenu::collect(database, &ids, &mut entries);
            i += 1;
        }
        assert(all.take(messages@.len() as int) =~= all);
        entries
    }
}

impl GuildlyCommand for ShowServersMenu {
    open spec fn called(&self) -> Seq<char> {
        "show servers"@
    }

    open spec fn declared(&self, ctx: CommandDeclarationView) -> CommandDeclarationView {
        show_declaration(ctx)
    }

    open spec fn accepts(&self, interaction: InteractionView) -> bool {
        true
    }

    open spec fn outcome(
        &self,
        rows: Seq<GuildEntryView>,
        interaction: InteractionView,
    ) -> OutcomeView {
        show_outcome(rows, interaction.messages)
    }

    fn name(&self) -> (name: &'static str) {
        "show servers"
    }

    fn create_command(&self, ctx: CommandDeclaration) -> (declaration: CommandDeclaration) {
        ctx.kind(CommandKind::Message)
    }

    fn handles(&self, interaction: &Interaction) -> (yes: bool) {
        true
    }

    fn execute(&self, database: &mut Database, interaction: &Interaction) -> (outcome: Outcome) {
        let entries = ShowServersMenu::linked(database, &interaction.messages);
        Outcome::answer(create_embed_from_entries(entries.as_slice()))
    }
}

} // verus!
