//! The command that takes a guild out.

use vstd::prelude::*;
use crate::commands::{
    answer, given_id, id_fault, Change, ChangeView, GuildlyCommand, Outcome, OutcomeView,
};
use crate::database::{lookup, Database};
use crate::embed::{create_embed_from_entry, entry_embed, notice, titled, Color, Embed};
use crate::entry::GuildEntryView;
use crate::interaction::{
    last_value, options_view, text_option, CommandDeclaration, CommandDeclarationView,
    CommandKind, CommandOption, Interaction, InteractionView, OptionView,
};
use crate::text::{parse_u64, str_eq};

verus! {

/// Takes out the guild stored under an id.
#[derive(Clone, Copy, Debug, PartialEq, Eq, Structural)]
pub struct RemoveServer;

/// The fault of the first option named `id` whose text is no numeral.
pub open spec fn first_id_fault(options: Seq<OptionView>) -> Option<Seq<char>>
    decreases options.len(),
{
    if options.len() == 0 {
        None
    } else if first_id_fault(options.drop_last()) is Some {
        first_id_fault(options.drop_last())
    } else {
        id_fault(options.last())
    }
}

/// A fault among the first options stays the fault of them all.
pub proof fn lemma_first_id_fault_prefix(options: Seq<OptionView>, k: int)
    requires
        0 <= k <= options.len(),
        first_id_fault(options.take(k)) is Some,
    ensures
        first_id_fault(options) == first_id_fault(options.take(k)),
    decreases options.len(),
{
    if k == options.len() {
        assert(options.take(k) =~= options);
    } else {
        assert(options.drop_last().take(k) =~= options.take(k));
        lemma_first_id_fault_prefix(options.drop_last(), k);
    }
}

/// The id that the options ask to be taken out, or the title of the answer
/// that refuses them. Of ids given twice the last counts.
pub open spec fn remove_request(options: Seq<OptionView>) -> Result<u64, Seq<char>> {
    if first_id_fault(options) is Some {
        Err(first_id_fault(options).unwrap())
    } else if last_value(options, "id"@) is None {
        Err("No Guild ID"@)
    } else {
        Ok(given_id(last_value(options, "id"@)).unwrap())
    }
}

/// What removing comes to: the entry under the id is taken out and shown
/// under `Removed Server`; where there is none, or the options are refused,
/// the table stays as it is.
pub open spec fn remove_outcome(rows: Seq<GuildEntryView>, options: Seq<OptionView>) -> OutcomeView {
    match remove_request(options) {
        Ok(guild_id) => match lookup(rows, guild_id) {
            Some(entry) => OutcomeView {
                embed: titled(entry_embed(entry), "Removed Server"@),
                change: ChangeView::Removed(guild_id),
            },
            None => answer(notice(Color::ERROR, "Not Found Guild"@)),
        },
        Err(title) => answer(notice(Color::ERROR, title)),
    }
}

/// The declaration of `remove`: a chat command with a required `id`.
pub open spec fn remove_declaration(ctx: CommandDeclarationView) -> CommandDeclarationView {
    CommandDeclarationView {
        kind: CommandKind::ChatInput,
        description: Some("Remove a server"@),
        options: ctx.options.push(text_option("id"@, "Server Id"@, true)),
        ..ctx
    }
}

impl RemoveServer {
    /// Reads the options of an invocation: the id to take out, or the title
    /// of the answer that refuses them.
    pub fn request(options: &Vec<CommandOption>) -> (request: Result<u64, &'static str>)
        ensures
            match request {
                Ok(guild_id) => remove_request(options_view(options@)) == Ok::<u64, Seq<char>>(
                    guild_id,
                ),
                Err(title) => remove_request(options_view(options@)) == Err::<u64, Seq<char>>(
                    title@,
                ),
            },
    {
        let ghost all = options_view(options@);
        let mut guild_id: Option<u64> = None;
        let mut i: usize = 0;
        assert(all.take(0) =~= Seq::<OptionView>::empty());
        while i < options.len()
            invariant
                i <= options@.len(),
                all == options_view(options@),
                first_id_fault(all.take(i as int)) is None,
                guild_id == given_id(last_value(all.take(i as int), "id"@)),
                last_value(all.take(i as int), "id"@) is Some ==> guild_id is Some,
            decreases options@.len() - i,
        {
            let option = &options[i];
            proof {
                let next = all.take(i + 1);
                assert(next.drop_last() =~= all.take(i as int));
                assert(next.last() == option@);
            }
            if str_eq(option.name.as_str(), "id") {
                match parse_u64(option.value.as_str()) {
                    Some(parsed) => {
                        guild_id = Some(parsed);
                    },
                    None => {
                        proof {
                            lemma_first_id_fault_prefix(all, i + 1);
                        }
                        return Err("Invalid Server ID");
                    },
                }
            }
            i += 1;
        }
        assert(all.take(options@.len() as int) =~= all);
        match guild_id {
            Some(guild_id) => Ok(guild_id),
            None => Err("No Guild ID"),
        }
    }
}

impl GuildlyCommand for RemoveServer {
    open spec fn called(&self) -> Seq<char> {
        "remove"@
    }

    open spec fn declared(&self, ctx: CommandDeclarationView) -> CommandDeclarationView {
        remove_declaration(ctx)
    }

    open spec fn accepts(&self, interaction: InteractionView) -> bool {
        true
    }

    open spec fn outcome(
        &self,
        rows: Seq<GuildEntryView>,
        interaction: InteractionView,
    ) -> OutcomeView {
        remove_outcome(rows, interaction.options)
    }

    fn name(&self) -> (name: &'static str) {
        "remove"
    }

    fn create_command(&self, ctx: CommandDeclaration) -> (declaration: CommandDeclaration) {
        ctx.kind(CommandKind::ChatInput).description("Remove a server").add_option(
            "id",
            "Server Id",
            true,
        )
    }

    fn handles(&self, interaction: &Interaction) -> (yes: bool) {
        true
    }

    fn execute(&self, database: &mut Database, interaction: &Interaction) -> (outcome: Outcome) {
        match RemoveServer::request(&interaction.options) {
            Ok(guild_id) => match database.remove(guild_id) {
                Some(entry) => {
                    let embed = create_embed_from_entry(&entry).title("Removed Server");
                    Outcome { embed, change: Change::Removed(guild_id) }
                },
                None => Outcome::answer(Embed::notice(Color::ERROR, "Not Found Guild")),
            },
            Err(title) => Outcome::answer(Embed::notice(Color::ERROR, title)),
        }
    }
}

} // verus!
