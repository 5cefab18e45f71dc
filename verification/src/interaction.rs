//! What the chat platform hands to a command, and how a command is declared
//! to it.

use vstd::prelude::*;
use crate::links::strings_view;

verus! {

/// One argument of a command: its name and the text given for it.
#[derive(Debug, PartialEq, Eq)]
pub struct CommandOption {
    pub name: String,
    pub value: String,
}

pub struct OptionView {
    pub name: Seq<char>,
    pub value: Seq<char>,
}

impl View for CommandOption {
    type V = OptionView;

    open spec fn view(&self) -> OptionView {
        OptionView { name: self.name@, value: self.value@ }
    }
}

pub open spec fn options_view(options: Seq<CommandOption>) -> Seq<OptionView> {
    Seq::new(options.len(), |i: int| options[i]@)
}

/// One invocation of a command: the command's name, the arguments in the
/// order in which they came, and the bodies of the messages it was invoked
/// on.
#[derive(Debug, PartialEq, Eq)]
pub struct Interaction {
    pub name: String,
    pub options: Vec<CommandOption>,
    pub messages: Vec<String>,
}

pub struct InteractionView {
    pub name: Seq<char>,
    pub options: Seq<OptionView>,
    pub messages: Seq<Seq<char>>,
}

impl View for Interaction {
    type V = InteractionView;

    open spec fn view(&self) -> InteractionView {
        InteractionView {
            name: self.name@,
            options: options_view(self.options@),
            messages: strings_view(self.messages@),
        }
    }
}

/// The text given for the last option named `key`, if there is one.
pub open spec fn last_value(options: Seq<OptionView>, key: Seq<char>) -> Option<Seq<char>>
    decreases options.len(),
{
    if options.len() == 0 {
        None
    } else if options.last().name == key {
        Some(options.last().value)
    } else {
        last_value(options.drop_last(), key)
    }
}

/// Where a command is offered: among the chat commands, or in the menu of a
/// message.
#[derive(Clone, Copy, Debug, PartialEq, Eq, Structural)]
pub enum CommandKind {
    ChatInput,
    Message,
}

/// One text argument that a command declares.
#[derive(Debug, PartialEq, Eq)]
pub struct OptionDeclaration {
    pub name: String,
    pub description: String,
    pub required: bool,
}

pub struct OptionDeclarationView {
    pub name: Seq<char>,
    pub description: Seq<char>,
    pub required: bool,
}

impl View for OptionDeclaration {
    type V = OptionDeclarationView;

    open spec fn view(&self) -> OptionDeclarationView {
        OptionDeclarationView {
            name: self.name@,
            description: self.description@,
            required: self.required,
        }
    }
}

/// How a command presents itself to the platform.
#[derive(Debug, PartialEq, Eq)]
pub struct CommandDeclaration {
    pub name: String,
    pub kind: CommandKind,
    pub description: Option<String>,
    pub options: Vec<OptionDeclaration>,
}

pub struct CommandDeclarationView {
    pub name: Seq<char>,
    pub kind: CommandKind,
    pub description: Option<Seq<char>>,
    pub options: Seq<OptionDeclarationView>,
}

pub open spec fn option_declarations_view(options: Seq<OptionDeclaration>) -> Seq<
    OptionDeclarationView,
> {
    Seq::new(options.len(), |i: int| options[i]@)
}

impl View for CommandDeclaration {
    type V = CommandDeclarationView;

    open spec fn view(&self) -> CommandDeclarationView {
        CommandDeclarationView {
            name: self.name@,
            kind: self.kind,
            description: crate::address::text_view(self.description),
            options: option_declarations_view(self.options@),
        }
    }
}

/// The declaration of a chat command called `name`, before anything else is
/// said of it.
pub open spec fn blank_declaration(name: Seq<char>) -> CommandDeclarationView {
    CommandDeclarationView {
        name,
        kind: CommandKind::ChatInput,
        description: None,
        options: Seq::empty(),
    }
}

/// A text argument of a declaration.
pub open spec fn text_option(
    name: Seq<char>,
    description: Seq<char>,
    required: bool,
) -> OptionDeclarationView {
    OptionDeclarationView { name, description, required }
}

impl CommandDeclaration {
    /// The declaration of a chat command called `name`.
    pub fn new(name: &str) -> (declaration: CommandDeclaration)
        ensures
            declaration@ == blank_declaration(name@),
    {
        let declaration = CommandDeclaration {
            name: name.to_owned(),
            kind: CommandKind::ChatInput,
            description: None,
            options: Vec::new(),
        };
        assert(declaration@.options =~= Seq::empty());
        declaration
    }

    /// This declaration, offered as `kind`.
    pub fn kind(self, kind: CommandKind) -> (declaration: CommandDeclaration)
        ensures
            declaration@ == (CommandDeclarationView { kind, ..self@ }),
    {
        CommandDeclaration {
            name: self.name,
            kind,
            description: self.description,
            options: self.options,
        }
    }

    /// This declaration, described as `description`.
    pub fn description(self, description: &str) -> (declaration: CommandDeclaration)
        ensures
            declaration@ == (CommandDeclarationView { description: Some(description@), ..self@ }),
    {
        CommandDeclaration {
            name: self.name,
            kind: self.kind,
            description: Some(description.to_owned()),
            options: self.options,
        }
    }

    /// This declaration with one more text argument, after those it has.
    pub fn add_option(self, name: &str, description: &str, required: bool) -> (declaration:
        CommandDeclaration)
        ensures
            declaration@ == (CommandDeclarationView {
                options: self@.options.push(text_option(name@, description@, required)),
                ..self@
            }),
    {
        let mut options = self.options;
        let ghost before = option_declarations_view(options@);
        options.push(
            OptionDeclaration {
                name: name.to_owned(),
                description: description.to_owned(),
                required,
            },
        );
        assert(option_declarations_view(options@) =~= before.push(
            text_option(name@, description@, required),
        ));
        CommandDeclaration {
            name: self.name,
            kind: self.kind,
            description: self.description,
            options,
        }
    }
}

} // verus!
