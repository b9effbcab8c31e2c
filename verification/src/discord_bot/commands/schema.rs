//! How a command describes itself to the platform: its name, what it is for,
//! the options it takes and who may use it.

use vstd::prelude::*;

verus! {

/// The kind of value an option takes.
#[derive(Debug, Clone, Copy, PartialEq, Eq, Structural)]
pub enum CommandOptionType {
    /// A text.
    String,
    /// A whole number.
    Integer,
    /// A switch.
    Boolean,
}

/// How a command is invoked.
#[derive(Debug, Clone, Copy, PartialEq, Eq, Structural)]
pub enum CommandType {
    /// By typing its name after a slash.
    ChatInput,
    /// From the menu of a user.
    User,
    /// From the menu of a message.
    Message,
}

/// Who may use a command unless a guild decides otherwise.
#[derive(Debug, Clone, Copy, PartialEq, Eq, Structural)]
pub enum Permissions {
    /// Every member.
    Everyone,
    /// Administrators of the guild only.
    Administrator,
}

/// One of the values a text option offers, under the name the user sees.
#[derive(Debug, Clone, PartialEq, Eq)]
pub struct StringChoice {
    /// What the user sees.
    pub name: String,
    /// What the command receives.
    pub value: String,
}

/// A [`StringChoice`] with its texts as sequences of characters.
pub struct StringChoiceView {
    pub name: Seq<char>,
    pub value: Seq<char>,
}

impl View for StringChoice {
    type V = StringChoiceView;

    open spec fn view(&self) -> StringChoiceView {
        StringChoiceView { name: self.name@, value: self.value@ }
    }
}

/// The description of one option of a command.
#[derive(Debug, Clone, PartialEq, Eq)]
pub struct CreateCommandOption {
    /// The kind of value the option takes.
    pub kind: CommandOptionType,
    /// The option's name.
    pub name: String,
    /// What the option is for.
    pub description: String,
    /// Whether a request must give the option.
    pub required: bool,
    /// The greatest length of a text value, where there is one.
    pub max_length: Option<u16>,
    /// The values a text option offers; none when it takes any text.
    pub choices: Vec<StringChoice>,
}

/// A [`CreateCommandOption`] with its texts as sequences of characters.
pub struct CreateCommandOptionView {
    pub kind: CommandOptionType,
    pub name: Seq<char>,
    pub description: Seq<char>,
    pub required: bool,
    pub max_length: Option<u16>,
    pub choices: Seq<StringChoiceView>,
}

impl View for CreateCommandOption {
    type V = CreateCommandOptionView;

    open spec fn view(&self) -> CreateCommandOptionView {
        CreateCommandOptionView {
            kind: self.kind,
            name: self.name@,
            description: self.description@,
            required: self.required,
            max_length: self.max_length,
            choices: self.choices@.map_values(|choice: StringChoice| choice@),
        }
    }
}

impl CreateCommandOption {
    /// An option of the given kind, name and purpose that a request may leave
    /// out and that takes any value of its kind.
    pub fn new(kind: CommandOptionType, name: &str, description: &str) -> (option: Self)
        ensures
            option@ == (CreateCommandOptionView {
                kind,
                name: name@,
                description: description@,
                required: false,
                max_length: None,
                choices: Seq::empty(),
            }),
    {
        let option = CreateCommandOption {
            kind,
            name: name.to_owned(),
            description: description.to_owned(),
            required: false,
            max_length: None,
            choices: Vec::new(),
        };
        assert(option@.choices =~= Seq::empty());
        option
    }

    /// The same option, required or not.
    pub fn required(self, required: bool) -> (option: Self)
        ensures
            option@ == (CreateCommandOptionView { required, ..self@ }),
    {
        CreateCommandOption { required, ..self }
    }

    /// The same option with a greatest length for its text.
    pub fn max_length(self, length: u16) -> (option: Self)
        ensures
            option@ == (CreateCommandOptionView { max_length: Some(length), ..self@ }),
    {
        CreateCommandOption { max_length: Some(length), ..self }
    }

    /// The same option with one more value on offer, after those it has.
    pub fn add_string_choice(self, name: &str, value: &str) -> (option: Self)
        ensures
            option@ == (CreateCommandOptionView {
                choices: self@.choices.push(StringChoiceView { name: name@, value: value@ }),
                ..self@
            }),
    {
        let mut option = self;
        option.choices.push(StringChoice { name: name.to_owned(), value: value.to_owned() });
        assert(option@.choices =~= self@.choices.push(
            StringChoiceView { name: name@, value: value@ },
        ));
        option
    }
}

/// The description of a command, as it is registered with the platform.
#[derive(Debug, Clone, PartialEq, Eq)]
pub struct CreateCommand {
    /// The name by which the command is invoked.
    pub name: String,
    /// What the command is for.
    pub description: String,
    /// The options the command takes, in the order in which they are asked.
    pub options: Vec<CreateCommandOption>,
    /// Who may use the command, where that has been settled.
    pub default_member_permissions: Option<Permissions>,
    /// Whether the command may be used in direct messages, where that has
    /// been settled.
    pub dm_permission: Option<bool>,
    /// How the command is invoked, where that has been settled.
    pub kind: Option<CommandType>,
}

/// A [`CreateCommand`] with its texts as sequences of characters.
pub struct CreateCommandView {
    pub name: Seq<char>,
    pub description: Seq<char>,
    pub options: Seq<CreateCommandOptionView>,
    pub default_member_permissions: Option<Permissions>,
    pub dm_permission: Option<bool>,
    pub kind: Option<CommandType>,
}

impl View for CreateCommand {
    type V = CreateCommandView;

    open spec fn view(&self) -> CreateCommandView {
        CreateCommandView {
            name: self.name@,
            description: self.description@,
            options: self.options@.map_values(|option: CreateCommandOption| option@),
            default_member_permissions: self.default_member_permissions,
            dm_permission: self.dm_permission,
            kind: self.kind,
        }
    }
}

impl CreateCommand {
    /// The description of a command of that name about which nothing else
    /// has been settled.
    pub fn new(name: &str) -> (command: Self)
        ensures
            command@ == (CreateCommandView {
                name: name@,
                description: Seq::empty(),
                options: Seq::empty(),
                default_member_permissions: None,
                dm_permission: None,
                kind: None,
            }),
    {
        let command = CreateCommand {
            name: name.to_owned(),
            description: String::new(),
            options: Vec::new(),
            default_member_permissions: None,
            dm_permission: None,
            kind: None,
        };
        assert(command@.options =~= Seq::empty());
        assert(command@.description =~= Seq::empty());
        command
    }

    /// The same description under another name.
    pub fn name(self, name: &str) -> (command: Self)
        ensures
            command@ == (CreateCommandView { name: name@, ..self@ }),
    {
        CreateCommand { name: name.to_owned(), ..self }
    }

    /// The same description with the purpose of the command filled in.
    pub fn description(self, description: &str) -> (command: Self)
        ensures
            command@ == (CreateCommandView { description: description@, ..self@ }),
    {
        CreateCommand { description: description.to_owned(), ..self }
    }

    /// The same description with one more option, after those it has.
    pub fn add_option(self, option: CreateCommandOption) -> (command: Self)
        ensures
            command@ == (CreateCommandView { options: self@.options.push(option@), ..self@ }),
    {
        let mut command = self;
        command.options.push(option);
        assert(command@.options =~= self@.options.push(option@));
        command
    }

    /// The same description, open to the given members.
    pub fn default_member_permissions(self, permissions: Permissions) -> (command: Self)
        ensures
            command@ == (CreateCommandView {
                default_member_permissions: Some(permissions),
                ..self@
            }),
    {
        CreateCommand { default_member_permissions: Some(permissions), ..self }
    }

    /// The same description, usable in direct messages or not.
    pub fn dm_permission(self, enabled: bool) -> (command: Self)
        ensures
            command@ == (CreateCommandView { dm_permission: Some(enabled), ..self@ }),
    {
        CreateCommand { dm_permission: Some(enabled), ..self }
    }

    /// The same description, invoked in the given way.
    pub fn kind(self, kind: CommandType) -> (command: Self)
        ensures
            command@ == (CreateCommandView { kind: Some(kind), ..self@ }),
    {
        CreateCommand { kind: Some(kind), ..self }
    }
}

} // verus!
