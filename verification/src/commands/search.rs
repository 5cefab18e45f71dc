//! The command that looks guilds up, by id or by name.

use vstd::prelude::*;
use crate::address::text_view;
use crate::commands::remove::{first_id_fault, lemma_first_id_fault_prefix};
use crate::commands::{answer, given_id, GuildlyCommand, Outcome, OutcomeView};
use crate::database::{lookup, matching, Database};
use crate::embed::{
    create_embed_from_entries, create_embed_from_entry, entries_embed, entry_embed, notice, Color,
    Embed,
};
use crate::entry::GuildEntryView;
use crate::interaction::{
    last_value, options_view, text_option, CommandDeclaration, CommandDeclarationView,
    CommandKind, CommandOption, Interaction, InteractionView, OptionView,
};
use crate::text::{parse_u64, str_eq};

verus! {

/// Shows the guild stored under an id, or the guilds whose name contains a
/// text.
#[derive(Clone, Copy, Debug, PartialEq, Eq, Structural)]
pub struct SearchServer;

/// What an invocation of `search` asks for.
#[derive(Debug, PartialEq, Eq)]
pub enum SearchRequest {
    /// An option cannot be read; the answer has this title.
    Refused(&'static str),
    /// The guild under this id.
    ById(u64),
    /// The guilds whose name contains this text.
    ByName(String),
    /// Both an id and a name, or neither: the command has no answer.
    Unanswerable,
}

pub enum SearchRequestView {
    Refused(Seq<char>),
    ById(u64),
    ByName(Seq<char>),
    Unanswerable,
}

impl View for SearchRequest {
    type V = SearchRequestView;

    open spec fn view(&self) -> SearchRequestView {
        match self {
            SearchRequest::Refused(title) => SearchRequestView::Refused(title@),
            SearchRequest::ById(guild_id) => SearchRequestView::ById(*guild_id),
            SearchRequest::ByName(name) => SearchRequestView::ByName(name@),
            SearchRequest::Unanswerable => SearchRequestView::Unanswerable,
        }
    }
}

/// What the options ask for. The first `id` that is no numeral decides;
/// then exactly one of `id` and `name` must be given. Of options given twice
/// the last counts.
pub open spec fn search_request(options: Seq<OptionView>) -> SearchRequestView {
    let id = last_value(options, "id"@);
    let name = last_value(options, "name"@);
    if first_id_fault(options) is Some {
        SearchRequestView::Refused(first_id_fault(options).unwrap())
    } else if id is Some && name is None {
        SearchRequestView::ById(given_id(id).unwrap())
    } else if id is None && name is Some {
        SearchRequestView::ByName(name.unwrap())
    } else {
        SearchRequestView::Unanswerable
    }
}

/// What searching comes to, where the command has an answer. The table
/// stays as it is.
pub open spec fn search_outcome(rows: Seq<GuildEntryView>, options: Seq<OptionView>) -> OutcomeView {
    match search_request(options) {
        SearchRequestView::Refused(title) => answer(notice(Color::ERROR, title)),
        SearchRequestView::ById(guild_id) => match lookup(rows, guild_id) {
            Some(entry) => answer(entry_embed(entry)),
            None => answer(notice(Color::WARN, "No Servers Found"@)),
        },
        SearchRequestView::ByName(name) => answer(entries_embed(matching(rows, name))),
        SearchRequestView::Unanswerable => arbitrary(),
    }
}

/// The declaration of `search`: a chat command with an optional `id` and
/// `name`.
pub open spec fn search_declaration(ctx: CommandDeclarationView) -> CommandDeclarationView {
    CommandDeclarationView {
        kind: CommandKind::ChatInput,
        description: Some("Search servers"@),
        options: ctx.options.push(text_option("id"@, "Server Id"@, false)).push(
            text_option("name"@, "Server Name"@, false),
        ),
        ..ctx
    }
}

impl SearchServer {
    /// Reads the options of an invocation.
    pub fn request(options: &Vec<CommandOption>) -> (request: SearchRequest)
        ensures
            request@ == search_request(options_view(options@)),
    {
        let ghost all = options_view(options@);
        let mut guild_id: Option<u64> = None;
        let mut guild_name: Option<String> = None;
        let mut i: usize = 0;
        assert(all.take(0) =~= Seq::<OptionView>::empty());
        while i < options.len()
            invariant
                i <= options@.len(),
                all == options_view(options@),
                first_id_fault(all.take(i as int)) is None,
                guild_id == given_id(last_value(all.take(i as int), "id"@)),
                last_value(all.take(i as int), "id"@) is Some ==> guild_id is Some,
                text_view(guild_name) == last_value(all.take(i as int), "name"@),
            decreases options@.len() - i,
        {
            let option = &options[i];
            proof {
                let next = all.take(i + 1);
                assert(next.drop_last() =~= all.take(i as int));
                assert(next.last() == option@);
            }
            if str_eq(option.name.as_str(), "id") {
                match parse_u64(option.value.as_str()) {
                    Some(parsed) => {
                        guild_id = Some(parsed);
                    },
                    None => {
                        proof {
                            lemma_first_id_fault_prefix(all, i + 1);
                        }
                        return SearchRequest::Refused("Invalid Server ID");
                    },
                }
            }
            if str_eq(option.name.as_str(), "name") {
                guild_name = Some(option.value.clone());
            }
            i += 1;
        }
        assert(all.take(options@.len() as int) =~= all);
        match (guild_id, guild_name) {
            (Some(guild_id), None) => SearchRequest::ById(guild_id),
            (None, Some(name)) => SearchRequest::ByName(name),
            _ => SearchRequest::Unanswerable,
        }
    }
}

impl GuildlyCommand for SearchServer {
    open spec fn called(&self) -> Seq<char> {
        "search"@
    }

    open spec fn declared(&self, ctx: CommandDeclarationView) -> CommandDeclarationView {
        search_declaration(ctx)
    }

    open spec fn accepts(&self, interaction: InteractionView) -> bool {
        search_request(interaction.options) != SearchRequestView::Unanswerable
    }

    open spec fn outcome(
        &self,
        rows: Seq<GuildEntryView>,
        interaction: InteractionView,
    ) -> OutcomeView {
        search_outcome(rows, interaction.options)
    }

    fn name(&self) -> (name: &'static str) {
        "search"
    }

    fn create_command(&self, ctx: CommandDeclaration) -> (declaration: CommandDeclaration) {
        ctx.kind(CommandKind::ChatInput).description("Search servers").add_option(
            "id",
            "Server Id",
            false,
        ).add_option("name", "Server Name", false)
    }

    fn handles(&self, interaction: &Interaction) -> (yes: bool) {
        match SearchServer::request(&interaction.options) {
            SearchRequest::Unanswerable => false,
            _ => true,
        }
    }

    fn execute(&self, database: &mut Database, interaction: &Interaction) -> (outcome: Outcome) {
        match SearchServer::request(&interaction.options) {
            SearchRequest::Refused(title) => Outcome::answer(Embed::notice(Color::ERROR, title)),
            SearchRequest::ById(guild_id) => match database.get(guild_id) {
                Some(entry) => Outcome::answer(create_embed_from_entry(&entry)),
                None => Outcome::answer(Embed::notice(Color::WARN, "No Servers Found")),
            },
            SearchRequest::ByName(name) => {
                let entries = database.search(name.as_str());
                Outcome::answer(create_embed_from_entries(entries.as_slice()))
            },
            SearchRequest::Unanswerable => vstd::pervasive::unreached(),
        }
    }
}

} // verus!
