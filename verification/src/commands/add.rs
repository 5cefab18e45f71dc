//! The command that stores a guild.

use vstd::prelude::*;
use crate::address::{url_parse, url_view, Url};
use crate::commands::{answer, given_id, id_fault, Change, ChangeView, GuildlyCommand, Outcome, OutcomeView};
use crate::database::Database;
use crate::embed::{create_embed_from_entry, entry_embed, notice, titled, Color, Embed};
use crate::entry::{stored_url, GuildEntry, GuildEntryView};
use crate::interaction::{
    blank_declaration, last_value, options_view, text_option, CommandDeclaration,
    CommandDeclarationView, CommandKind, CommandOption, Interaction, InteractionView, OptionView,
};
use crate::text::{parse_u64, parse_u64_spec, str_eq};

verus! {

/// Stores a guild under its id, in place of the entry that was there.
#[derive(Clone, Copy, Debug, PartialEq, Eq, Structural)]
pub struct AddServer;

/// The title of the answer to an option that this command cannot read: an
/// `id` that is no numeral, an `icon` or an `invite` that is no absolute URL.
pub open spec fn add_fault(option: OptionView) -> Option<Seq<char>> {
    if id_fault(option) is Some {
        id_fault(option)
    } else if (option.name == "icon"@ || option.name == "invite"@) && url_parse(option.value)
        is None {
        Some("Invalid Icon URL"@)
    } else {
        None
    }
}

/// The fault of the first option that has one.
pub open spec fn first_add_fault(options: Seq<OptionView>) -> Option<Seq<char>>
    decreases options.len(),
{
    if options.len() == 0 {
        None
    } else if first_add_fault(options.drop_last()) is Some {
        first_add_fault(options.drop_last())
    } else {
        add_fault(options.last())
    }
}

/// What the options ask to be stored, or the title of the answer that
/// refuses them. The first option at fault decides; then a name must be
/// given, then an id. Of options given twice the last counts.
pub open spec fn add_request(options: Seq<OptionView>) -> Result<GuildEntryView, Seq<char>> {
    if first_add_fault(options) is Some {
        Err(first_add_fault(options).unwrap())
    } else if last_value(options, "name"@) is None {
        Err("No Guild Name"@)
    } else if last_value(options, "id"@) is None {
        Err("No Guild ID"@)
    } else {
        Ok(
            GuildEntryView {
                name: last_value(options, "name"@).unwrap(),
                guild_id: given_id(last_value(options, "id"@)).unwrap(),
                invite_url: stored_url(last_value(options, "invite"@)),
                icon_url: stored_url(last_value(options, "icon"@)),
            },
        )
    }
}

/// What adding comes to: the entry is stored and shown under `Server
/// Added`, or the options are refused and the table stays as it is.
pub open spec fn add_outcome(options: Seq<OptionView>) -> OutcomeView {
    match add_request(options) {
        Ok(entry) => OutcomeView {
            embed: titled(entry_embed(entry), "Server Added"@),
            change: ChangeView::Stored(entry),
        },
        Err(title) => answer(notice(Color::ERROR, title)),
    }
}

/// The declaration of `add`: a chat command with a required `id` and `name`
/// and an optional `icon` and `invite`.
pub open spec fn add_declaration(ctx: CommandDeclarationView) -> CommandDeclarationView {
    CommandDeclarationView {
        kind: CommandKind::ChatInput,
        description: Some("Add a server"@),
        options: ctx.options.push(text_option("id"@, "Server Id"@, true)).push(
            text_option("name"@, "Guild Name"@, true),
        ).push(text_option("icon"@, "Icon Url"@, false)).push(
            text_option("invite"@, "Invite Url"@, false),
        ),
        ..ctx
    }
}

/// A fault among the first options stays the fault of them all.
pub proof fn lemma_first_add_fault_prefix(options: Seq<OptionView>, k: int)
    requires
        0 <= k <= options.len(),
        first_add_fault(options.take(k)) is Some,
    ensures
        first_add_fault(options) == first_add_fault(options.take(k)),
    decreases options.len(),
{
    if k == options.len() {
        assert(options.take(k) =~= options);
    } else {
        assert(options.drop_last().take(k) =~= options.take(k));
        lemma_first_add_fault_prefix(options.drop_last(), k);
    }
}

impl AddServer {
    /// Reads the options of an invocation: the entry to store, or the title
    /// of the answer that refuses them.
    pub fn request(options: &Vec<CommandOption>) -> (request: Result<GuildEntry, &'static str>)
        ensures
            match request {
                Ok(entry) => add_request(options_view(options@)) == Ok::<
                    GuildEntryView,
                    Seq<char>,
                >(entry@),
                Err(title) => add_request(options_view(options@)) == Err::<
                    GuildEntryView,
                    Seq<char>,
                >(title@),
            },
    {
        let ghost all = options_view(options@);
        let mut guild_id: Option<u64> = None;
        let mut guild_name: Option<String> = None;
        let mut guild_icon: Option<Url> = None;
        let mut guild_invite: Option<Url> = None;
        let mut i: usize = 0;
        assert(all.take(0) =~= Seq::<OptionView>::empty());
        while i < options.len()
            invariant
                i <= options@.len(),
                all == options_view(options@),
                first_add_fault(all.take(i as int)) is None,
                guild_id == given_id(last_value(all.take(i as int), "id"@)),
                last_value(all.take(i as int), "id"@) is Some ==> guild_id is Some,
                crate::address::text_view(guild_name) == last_value(all.take(i as int), "name"@),
                url_view(guild_icon) == stored_url(last_value(all.take(i as int), "icon"@)),
                url_view(guild_invite) == stored_url(last_value(all.take(i as int), "invite"@)),
            decreases options@.len() - i,
        {
            let option = &options[i];
            proof {
                let next = all.take(i + 1);
                assert(next.drop_last() =~= all.take(i as int));
                assert(next.last() == option@);
            }
            if str_eq(option.name.as_str(), "id") {
                match parse_u64(option.value.as_str()) {
                    Some(parsed) => {
                        guild_id = Some(parsed);
                    },
                    None => {
                        proof {
                            lemma_first_add_fault_prefix(all, i + 1);
                        }
                        return Err("Invalid Server ID");
                    },
                }
            }
            if str_eq(option.name.as_str(), "name") {
                guild_name = Some(option.value.clone());
            }
            if str_eq(option.name.as_str(), "icon") {
                match Url::parse(option.value.as_str()) {
                    Some(url) => {
                        guild_icon = Some(url);
                    },
                    None => {
                        proof {
                            lemma_first_add_fault_prefix(all, i + 1);
                        }
                        return Err("Invalid Icon URL");
                    },
                }
            }
            if str_eq(option.name.as_str(), "invite") {
                match Url::parse(option.value.as_str()) {
                    Some(url) => {
                        guild_invite = Some(url);
                    },
                    None => {
                        proof {
                            lemma_first_add_fault_prefix(all, i + 1);
                        }
                        return Err("Invalid Icon URL");
                    },
                }
            }
            i += 1;
        }
        assert(all.take(options@.len() as int) =~= all);
        let name = match guild_name {
            Some(name) => name,
            None => {
                return Err("No Guild Name");
            },
        };
        let guild_id = match guild_id {
            Some(guild_id) => guild_id,
            None => {
                return Err("No Guild ID");
            },
        };
        Ok(GuildEntry { name, guild_id, invite_url: guild_invite, icon_url: guild_icon })
    }
}

impl GuildlyCommand for AddServer {
    open spec fn called(&self) -> Seq<char> {
        "add"@
    }

    open spec fn declared(&self, ctx: CommandDeclarationView) -> CommandDeclarationView {
        add_declaration(ctx)
    }

    open spec fn accepts(&self, interaction: InteractionView) -> bool {
        true
    }

    open spec fn outcome(
        &self,
        rows: Seq<GuildEntryView>,
        interaction: InteractionView,
    ) -> OutcomeView {
        add_outcome(interaction.options)
    }

    fn name(&self) -> (name: &'static str) {
        "add"
    }

    fn create_command(&self, ctx: CommandDeclaration) -> (declaration: CommandDeclaration) {
        ctx.kind(CommandKind::ChatInput).description("Add a server").add_option(
            "id",
            "Server Id",
            true,
        ).add_option("name", "Guild Name", true).add_option("icon", "Icon Url", false).add_option(
            "invite",
            "Invite Url",
            false,
        )
    }

    fn handles(&self, interaction: &Interaction) -> (yes: bool) {
        true
    }

    fn execute(&self, database: &mut Database, interaction: &Interaction) -> (outcome: Outcome) {
        match AddServer::request(&interaction.options) {
            Ok(entry) => {
                database.insert(&entry);
                let embed = create_embed_from_entry(&entry).title("Server Added");
                Outcome { embed, change: Change::Stored(entry) }
            },
            Err(title) => Outcome::answer(Embed::notice(Color::ERROR, title)),
        }
    }
}

} // verus!
