//! The handler: the table, and the commands registered to work on it.

use vstd::prelude::*;
use crate::commands::{changed, Command, GuildlyCommand, Outcome, OutcomeView};
use crate::database::{distinct_ids, entries_of_rows, upsert_all, Database};
use crate::entry::{GuildEntryView, Row};
use crate::interaction::{
    blank_declaration, CommandDeclaration, CommandDeclarationView, Interaction, InteractionView,
};
use crate::links::{find_guild_ids, guild_ids_in};
use crate::text::str_eq;

verus! {

/// No two commands are called the same.
pub open spec fn distinct_names(commands: Seq<Command>) -> bool {
    forall|i: int, j: int|
        0 <= i < j < commands.len() ==> (#[trigger] commands[i]).called() != (
        #[trigger] commands[j]).called()
}

/// Whether a command called `name` is registered.
pub open spec fn has_command(commands: Seq<Command>, name: Seq<char>) -> bool {
    exists|i: int| 0 <= i < commands.len() && (#[trigger] commands[i]).called() == name
}

/// The index of a command called `name`, where there is one.
pub open spec fn command_position(commands: Seq<Command>, name: Seq<char>) -> int {
    choose|i: int| 0 <= i < commands.len() && (#[trigger] commands[i]).called() == name
}

/// The command registered under `name`, if any.
pub open spec fn registered(commands: Seq<Command>, name: Seq<char>) -> Option<Command> {
    if has_command(commands, name) {
        Some(commands[command_position(commands, name)])
    } else {
        None
    }
}

/// The registry after `command` is registered: it takes the place of the
/// command of its name, or comes last where there is none. The last
/// registration under a name is the one that counts.
pub open spec fn register_in(commands: Seq<Command>, command: Command) -> Seq<Command> {
    if has_command(commands, command.called()) {
        commands.update(command_position(commands, command.called()), command)
    } else {
        commands.push(command)
    }
}

/// The declarations of `commands`, in order: what each makes of the blank
/// declaration of its name.
pub open spec fn declarations_of(commands: Seq<Command>) -> Seq<CommandDeclarationView> {
    Seq::new(
        commands.len(),
        |i: int| commands[i].declared(blank_declaration(commands[i].called())),
    )
}

/// The views of `declarations`, in order.
pub open spec fn declarations_view(declarations: Seq<CommandDeclaration>) -> Seq<
    CommandDeclarationView,
> {
    Seq::new(declarations.len(), |i: int| declarations[i]@)
}

/// What a handler makes of an invocation.
#[derive(Debug, PartialEq, Eq)]
pub enum Dispatch {
    /// No command is registered under the invocation's name: nothing is
    /// answered.
    NotFound,
    /// The command has no answer to the invocation.
    Unanswerable,
    /// The command ran.
    Answered(Outcome),
}

pub enum DispatchView {
    NotFound,
    Unanswerable,
    Answered(OutcomeView),
}

impl View for Dispatch {
    type V = DispatchView;

    open spec fn view(&self) -> DispatchView {
        match self {
            Dispatch::NotFound => DispatchView::NotFound,
            Dispatch::Unanswerable => DispatchView::Unanswerable,
            Dispatch::Answered(outcome) => DispatchView::Answered(outcome@),
        }
    }
}

/// What dispatching `interaction` comes to, with `commands` registered
/// over a table that holds `rows`.
pub open spec fn dispatched(
    commands: Seq<Command>,
    rows: Seq<GuildEntryView>,
    interaction: InteractionView,
) -> DispatchView {
    match registered(commands, interaction.name) {
        None => DispatchView::NotFound,
        Some(command) => if command.accepts(interaction) {
            DispatchView::Answered(command.outcome(rows, interaction))
        } else {
            DispatchView::Unanswerable
        },
    }
}

/// The table after an invocation was dispatched.
pub open spec fn table_after(rows: Seq<GuildEntryView>, dispatch: DispatchView) -> Seq<
    GuildEntryView,
> {
    match dispatch {
        DispatchView::Answered(outcome) => changed(rows, outcome.change),
        _ => rows,
    }
}

/// Where names are distinct, the command at an index is the one registered
/// under its name.
pub proof fn lemma_command_unique(commands: Seq<Command>, at: int)
    requires
        distinct_names(commands),
        0 <= at < commands.len(),
    ensures
        has_command(commands, commands[at].called()),
        command_position(commands, commands[at].called()) == at,
        registered(commands, commands[at].called()) == Some(commands[at]),
{
    let p = command_position(commands, commands[at].called());
    if p < at {
        assert(commands[p].called() != commands[at].called());
    } else if at < p {
        assert(commands[at].called() != commands[p].called());
    }
}

/// Registering keeps the names distinct, makes the command the one found
/// under its name, and leaves what is found under every other name.
pub proof fn lemma_register(commands: Seq<Command>, command: Command)
    requires
        distinct_names(commands),
    ensures
        distinct_names(register_in(commands, command)),
        registered(register_in(commands, command), command.called()) == Some(command),
        forall|other: Seq<char>|
            other != command.called() ==> registered(register_in(commands, command), other)
                == registered(commands, other),
{
    let after = register_in(commands, command);
    let at = if has_command(commands, command.called()) {
        command_position(commands, command.called())
    } else {
        commands.len() as int
    };
    assert(after.len() > at && after[at] == command);
    assert forall|i: int| 0 <= i < after.len() && i != at implies after[i] == commands[i]
        && commands[i].called() != command.called() by {
        if has_command(commands, command.called()) {
            lemma_command_unique(commands, i);
        }
    }
    assert forall|i: int, j: int| 0 <= i < j < after.len() implies (#[trigger] after[i]).called()
        != (#[trigger] after[j]).called() by {
        if i != at && j != at {
            assert(commands[i].called() != commands[j].called());
        }
    }
    lemma_command_unique(after, at);
    assert forall|other: Seq<char>| other != command.called() implies registered(after, other)
        == registered(commands, other) by {
        if has_command(commands, other) {
            let p = command_position(commands, other);
            assert(after[p] == commands[p]);
            lemma_command_unique(after, p);
        } else if has_command(after, other) {
            let p = command_position(after, other);
            assert(commands[p].called() == other);
        }
    }
}

/// The table of guilds and the commands that work on it.
pub struct GuildlyHandler {
    database: Database,
    commands: Vec<Command>,
}

impl GuildlyHandler {
    #[verifier::type_invariant]
    spec fn well_formed(&self) -> bool {
        distinct_names(self.commands@)
    }

    /// The commands registered, in the order in which their names were
    /// first registered.
    pub closed spec fn registry(&self) -> Seq<Command> {
        self.commands@
    }

    /// The rows of the table.
    pub closed spec fn rows(&self) -> Seq<GuildEntryView> {
        self.database@
    }

    /// A handler over `database`, with no command registered.
    pub fn new(database: Database) -> (handler: GuildlyHandler)
        ensures
            handler.rows() == database@,
            handler.registry() == Seq::<Command>::empty(),
    {
        GuildlyHandler { database, commands: Vec::new() }
    }

    fn find(&self, name: &str) -> (at: Option<usize>)
        ensures
            distinct_names(self.commands@),
            match at {
                Some(i) => i < self.commands@.len() && has_command(self.commands@, name@)
                    && command_position(self.commands@, name@) == i,
                None => !has_command(self.commands@, name@),
            },
    {
        proof {
            use_type_invariant(self);
        }
        let mut i: usize = 0;
        while i < self.commands.len()
            invariant
                i <= self.commands@.len(),
                distinct_names(self.commands@),
                forall|k: int| 0 <= k < i ==> (#[trigger] self.commands@[k]).called() != name@,
            decreases self.commands@.len() - i,
        {
            if str_eq(self.commands[i].name(), name) {
                proof {
                    lemma_command_unique(self.commands@, i as int);
                }
                return Some(i);
            }
            i += 1;
        }
        None
    }

    /// Registers `command` under its name, in place of any command that was
    /// registered under that name before.
    pub fn register(&mut self, command: Command)
        ensures
            final(self).registry() == register_in(old(self).registry(), command),
            final(self).rows() == old(self).rows(),
            distinct_names(final(self).registry()),
    {
        let found = self.find(command.name());
        proof {
            lemma_register(self.commands@, command);
        }
        let mut commands: Vec<Command> = Vec::new();
        core::mem::swap(&mut self.commands, &mut commands);
        match found {
            Some(i) => {
                commands.set(i, command);
            },
            None => {
                commands.push(command);
            },
        }
        assert(commands@ =~= register_in(old(self).commands@, command));
        self.commands = commands;
    }

    /// The guilds that `text` links to.
    pub fn guild_link_finder(&self, text: &str) -> (ids: Vec<u64>)
        ensures
            ids@ == guild_ids_in(text@),
    {
        find_guild_ids(text)
    }

    /// The table.
    pub fn database(&self) -> (database: &Database)
        ensures
            database@ == self.rows(),
    {
        &self.database
    }

    /// Reads the table anew from the rows that storage holds.
    pub fn refresh(&mut self, rows: &[Row])
        ensures
            final(self).rows() == upsert_all(Seq::empty(), entries_of_rows(rows@)),
            final(self).registry() == old(self).registry(),
    {
        proof {
            use_type_invariant(&*self);
        }
        self.database = Database::open(rows);
    }

    /// Runs the command registered under the invocation's name.
    pub fn dispatch(&mut self, interaction: &Interaction) -> (dispatch: Dispatch)
        ensures
            dispatch@ == dispatched(old(self).registry(), old(self).rows(), interaction@),
            final(self).rows() == table_after(old(self).rows(), dispatch@),
            final(self).registry() == old(self).registry(),
    {
        match self.find(interaction.name.as_str()) {
            None => Dispatch::NotFound,
            Some(i) => {
                let command = self.commands[i];
                if !command.handles(interaction) {
                    return Dispatch::Unanswerable;
                }
                let mut database = Database::open(&[]);
                core::mem::swap(&mut self.database, &mut database);
                let outcome = command.execute(&mut database, interaction);
                self.database = database;
                Dispatch::Answered(outcome)
            },
        }
    }

    /// The declarations to hand to the platform, one for each command
    /// registered.
    pub fn declarations(&self) -> (declarations: Vec<CommandDeclaration>)
        ensures
            declarations_view(declarations@) == declarations_of(self.registry()),
    {
        let mut declarations: Vec<CommandDeclaration> = Vec::new();
        let mut i: usize = 0;
        while i < self.commands.len()
            invariant
                i <= self.commands@.len(),
                declarations@.len() == i,
                forall|k: int|
                    0 <= k < i ==> (#[trigger] declarations@[k])@ == self.commands@[k].declared(
                        blank_declaration(self.commands@[k].called()),
                    ),
            decreases self.commands@.len() - i,
        {
            let command = self.commands[i];
            declarations.push(command.create_command(CommandDeclaration::new(command.name())));
            i += 1;
        }
        assert(declarations_view(declarations@) =~= declarations_of(self.commands@));
        declarations
    }
}

} // verus!
