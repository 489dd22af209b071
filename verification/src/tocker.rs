//! The keybinding registry and the command authorization table.
//!
//! A [`Tocker`] is built once and only read afterwards. It binds keys to
//! actions in four contexts (kinds, commands, the selection list, and the
//! global keys that override the other three), says which commands each
//! kind of resource admits, and what each command needs as its target.

use vstd::prelude::*;
use vstd::string::*;

use crate::error::TockerError;
use crate::keys::{ctrl, plain, Event, KeyCode, KeyEvent, KeyModifiers};
use crate::table::{Table, TableKey};

verus! {

/// The step of the interaction that the next key belongs to.
#[derive(Clone, Copy, Debug, PartialEq, Eq, Structural)]
pub enum Moment {
    /// A resource kind is awaited.
    KIND,
    /// A command for the chosen kind is awaited.
    COMMAND,
    /// Targets are being chosen in the list.
    TARGET,
}

/// The kinds of resource.
#[derive(Clone, Copy, Debug, PartialEq, Eq, Hash, Structural)]
pub enum DockerKind {
    Image,
    Container,
    Volume,
}

impl DockerKind {
    /// The word for the kind on the tool's command line.
    pub open spec fn token(self) -> &'static str {
        match self {
            DockerKind::Image => "image",
            DockerKind::Container => "container",
            DockerKind::Volume => "volume",
        }
    }

    /// The word for the kind on the tool's command line.
    pub fn as_token(&self) -> (word: &'static str)
        ensures
            word@ == self.token()@,
    {
        match self {
            DockerKind::Image => "image",
            DockerKind::Container => "container",
            DockerKind::Volume => "volume",
        }
    }
}

impl TableKey for DockerKind {
    fn same(&self, other: &DockerKind) -> (b: bool) {
        *self == *other
    }
}

/// The commands.
#[derive(Clone, Copy, Debug, PartialEq, Eq, Hash, Structural)]
pub enum DockerCommand {
    LS,
    RM,
    TAG,
    STOP,
}

impl DockerCommand {
    /// The word for the command on the tool's command line.
    pub open spec fn token(self) -> &'static str {
        match self {
            DockerCommand::LS => "ls",
            DockerCommand::RM => "rm",
            DockerCommand::TAG => "tag",
            DockerCommand::STOP => "stop",
        }
    }

    /// The word for the command on the tool's command line.
    pub fn as_token(&self) -> (word: &'static str)
        ensures
            word@ == self.token()@,
    {
        match self {
            DockerCommand::LS => "ls",
            DockerCommand::RM => "rm",
            DockerCommand::TAG => "tag",
            DockerCommand::STOP => "stop",
        }
    }
}

impl TableKey for DockerCommand {
    fn same(&self, other: &DockerCommand) -> (b: bool) {
        *self == *other
    }
}

/// What a command takes as its target.
#[derive(Clone, Copy, Debug, PartialEq, Eq, Structural)]
pub enum TargetType {
    /// A text of the user's own.
    INPUT,
    /// The rows that the user marks in the list.
    SELECT,
    /// Nothing.
    EMPTY,
}

/// The actions of the global keys.
#[derive(Clone, Copy, Debug, PartialEq, Eq, Structural)]
pub enum GeneralCommand {
    QUIT,
    CANCEL,
    HELP,
    CLEAN,
}

/// What the registry says of a key where a kind or a command is awaited.
#[derive(Clone, Copy, Debug, PartialEq, Eq, Structural)]
pub enum Message {
    /// The key is bound in the context of the moment.
    OK,
    /// The key is bound to nothing.
    WRONG,
    QUIT,
    CANCEL,
    HELP,
    CLEAN,
}

/// The actions of the selection list.
#[derive(Clone, Copy, Debug, PartialEq, Eq, Structural)]
pub enum Select {
    UP,
    DOWN,
    SELECT,
    CONFIRM,
    CANCEL,
}

/// What a key stands for at a given moment.
#[derive(Clone, Copy, Debug, PartialEq, Eq, Structural)]
pub enum Action {
    General(GeneralCommand),
    Kind(DockerKind),
    Command(DockerCommand),
    Select(Select),
    /// The key is bound to nothing, neither globally nor at that moment.
    Unbound,
}

/// The tables of a [`Tocker`], as maps.
#[verifier::ext_equal]
pub struct Bindings {
    pub kinds: Map<KeyEvent, DockerKind>,
    pub commands: Map<KeyEvent, DockerCommand>,
    pub general: Map<KeyEvent, GeneralCommand>,
    pub select: Map<KeyEvent, Select>,
    pub targets: Map<DockerCommand, TargetType>,
    pub allowed: Map<DockerKind, Seq<DockerCommand>>,
    pub legends: Map<DockerKind, Seq<char>>,
    pub help: Seq<char>,
}

/// The message for a global command.
pub open spec fn message_of(command: GeneralCommand) -> Message {
    match command {
        GeneralCommand::QUIT => Message::QUIT,
        GeneralCommand::CANCEL => Message::CANCEL,
        GeneralCommand::HELP => Message::HELP,
        GeneralCommand::CLEAN => Message::CLEAN,
    }
}

impl Bindings {
    /// What `key` stands for at `moment`: its global action if it has one,
    /// else what the table of the moment binds it to.
    pub open spec fn resolve(self, key: KeyEvent, moment: Moment) -> Action {
        if self.general.contains_key(key) {
            Action::General(self.general[key])
        } else {
            match moment {
                Moment::KIND => if self.kinds.contains_key(key) {
                    Action::Kind(self.kinds[key])
                } else {
                    Action::Unbound
                },
                Moment::COMMAND => if self.commands.contains_key(key) {
                    Action::Command(self.commands[key])
                } else {
                    Action::Unbound
                },
                Moment::TARGET => if self.select.contains_key(key) {
                    Action::Select(self.select[key])
                } else {
                    Action::Unbound
                },
            }
        }
    }

    /// What the registry says of `key` as a kind or a command. While
    /// targets are chosen, only the global keys are commands.
    pub open spec fn message(self, key: KeyEvent, moment: Moment) -> Result<Message, TockerError> {
        match self.resolve(key, moment) {
            Action::General(command) => Ok(message_of(command)),
            Action::Kind(_) | Action::Command(_) => Ok(Message::OK),
            Action::Select(_) => Err(TockerError::InvalidEventSource),
            Action::Unbound => if moment is TARGET {
                Err(TockerError::InvalidEventSource)
            } else {
                Ok(Message::WRONG)
            },
        }
    }

    /// What the registry says of `key` as an action of the list. The global
    /// keys come first here too: the one for giving up is the list's own
    /// action of giving up, and the other three are commands, not actions of
    /// the list. A key that is bound to nothing is told apart from those.
    pub open spec fn selection(self, key: KeyEvent) -> Result<Select, TockerError> {
        match self.resolve(key, Moment::TARGET) {
            Action::General(GeneralCommand::CANCEL) => Ok(Select::CANCEL),
            Action::General(_) => Err(TockerError::InvalidEventSource),
            Action::Select(select) => Ok(select),
            _ => Err(TockerError::UnboundKey(Moment::TARGET)),
        }
    }

    /// Whether `command` is one of the commands of `kind`.
    pub open spec fn allows(self, kind: DockerKind, command: DockerCommand) -> bool {
        self.allowed.contains_key(kind) && self.allowed[kind].contains(command)
    }

    /// The target type of `command` for a resource of `kind`, where the
    /// kind admits the command.
    pub open spec fn authorize(self, kind: DockerKind, command: DockerCommand) -> Result<
        TargetType,
        TockerError,
    > {
        if self.allows(kind, command) && self.targets.contains_key(command) {
            Ok(self.targets[command])
        } else {
            Err(TockerError::NotAuthorized)
        }
    }

    /// The target type of the command that `second` is bound to, for the
    /// kind that `first` is bound to.
    pub open spec fn target_of_keys(self, first: KeyEvent, second: KeyEvent) -> Result<
        TargetType,
        TockerError,
    > {
        if !self.kinds.contains_key(first) {
            Err(TockerError::UnboundKey(Moment::KIND))
        } else if !self.commands.contains_key(second) {
            Err(TockerError::UnboundKey(Moment::COMMAND))
        } else {
            self.authorize(self.kinds[first], self.commands[second])
        }
    }

    /// Every command that some kind admits has a target type.
    pub open spec fn wf(self) -> bool {
        forall|kind: DockerKind, command: DockerCommand| #[trigger]
            self.allows(kind, command) ==> self.targets.contains_key(command)
    }

    /// The tables that [`Tocker::new`] builds.
    pub open spec fn standard() -> Bindings {
        Bindings {
            kinds: map![
                plain(KeyCode::Char('i')) => DockerKind::Image,
                plain(KeyCode::Char('c')) => DockerKind::Container,
                plain(KeyCode::Char('v')) => DockerKind::Volume,
            ],
            commands: map![
                plain(KeyCode::Char('l')) => DockerCommand::LS,
                plain(KeyCode::Char('r')) => DockerCommand::RM,
                plain(KeyCode::Char('s')) => DockerCommand::STOP,
                plain(KeyCode::Char('t')) => DockerCommand::TAG,
            ],
            general: map![
                ctrl(KeyCode::Char('c')) => GeneralCommand::CANCEL,
                plain(KeyCode::Esc) => GeneralCommand::CANCEL,
                ctrl(KeyCode::Char('q')) => GeneralCommand::QUIT,
                ctrl(KeyCode::Char('h')) => GeneralCommand::HELP,
                ctrl(KeyCode::Char('l')) => GeneralCommand::CLEAN,
            ],
            select: map![
                plain(KeyCode::Up) => Select::UP,
                plain(KeyCode::Char('j')) => Select::UP,
                plain(KeyCode::Down) => Select::DOWN,
                plain(KeyCode::Char('k')) => Select::DOWN,
                plain(KeyCode::Char(' ')) => Select::SELECT,
                plain(KeyCode::Enter) => Select::CONFIRM,
                ctrl(KeyCode::Char('c')) => Select::CANCEL,
            ],
            targets: map![
                DockerCommand::RM => TargetType::SELECT,
                DockerCommand::STOP => TargetType::SELECT,
                DockerCommand::LS => TargetType::EMPTY,
                DockerCommand::TAG => TargetType::INPUT,
            ],
            allowed: map![
                DockerKind::Image => seq![DockerCommand::LS, DockerCommand::RM, DockerCommand::TAG],
                DockerKind::Container => seq![DockerCommand::LS, DockerCommand::RM, DockerCommand::STOP],
                DockerKind::Volume => seq![DockerCommand::LS, DockerCommand::RM],
            ],
            legends: map![
                DockerKind::Image => "Available commands for image: \n l = ls, r = rm, t = tag"@,
                DockerKind::Container => "Available commands for container: \n l = ls, r = rm, s = stop"@,
                DockerKind::Volume => "Available commands for volume: \n l = ls, r = rm"@,
            ],
            help: "[c/i/v] = container/image/volume; \n [ctrl+q] = quit; [ctrl+c] = cancel action; [ctrl+l] = clear content; [ctrl+b] build image from path"@,
        }
    }
}

/// With well-formed tables a pair of kind and command is refused exactly
/// when the kind does not admit the command.
pub proof fn lemma_refused_iff_not_allowed(t: Bindings, kind: DockerKind, command: DockerCommand)
    requires
        t.wf(),
    ensures
        t.authorize(kind, command) is Ok <==> t.allows(kind, command),
        !t.allows(kind, command) ==> t.authorize(kind, command) == Err::<
            TargetType,
            TockerError,
        >(TockerError::NotAuthorized),
{
}

/// A command that is ready to run: a kind, a command that the kind admits,
/// and the target. It is made by [`Tocker::prompt`] alone, and there is no
/// second copy of it: who holds it runs it.
#[derive(Debug, PartialEq, Eq)]
pub struct DockerPrompt {
    kind: DockerKind,
    command: DockerCommand,
    target: String,
}

/// A [`DockerPrompt`], as plain values.
pub struct PromptView {
    pub kind: DockerKind,
    pub command: DockerCommand,
    pub target: Seq<char>,
}

impl View for DockerPrompt {
    type V = PromptView;

    closed spec fn view(&self) -> PromptView {
        PromptView { kind: self.kind, command: self.command, target: self.target@ }
    }
}

impl DockerPrompt {
    pub fn kind(&self) -> (kind: DockerKind)
        ensures
            kind == self@.kind,
    {
        self.kind
    }

    pub fn command(&self) -> (command: DockerCommand)
        ensures
            command == self@.command,
    {
        self.command
    }

    pub fn target(&self) -> (target: &String)
        ensures
            target@ == self@.target,
    {
        &self.target
    }

    /// The three arguments that the tool is run with: the words for the
    /// kind and for the command, then the target.
    pub fn arguments(&self) -> (words: Vec<String>)
        ensures
            words@.len() == 3,
            words@[0]@ == self@.kind.token()@,
            words@[1]@ == self@.command.token()@,
            words@[2]@ == self@.target,
    {
        let mut words: Vec<String> = Vec::new();
        words.push(String::from_str(self.kind.as_token()));
        words.push(String::from_str(self.command.as_token()));
        words.push(self.target.clone());
        words
    }
}

struct AllowedCommands {
    mapping: Table<DockerKind, Vec<DockerCommand>>,
    legenda: Table<DockerKind, String>,
}

/// The registry of keys and the table of what is allowed.
pub struct Tocker {
    kind_keybindings: Table<KeyEvent, DockerKind>,
    command_keybindings: Table<KeyEvent, DockerCommand>,
    general_keybindings: Table<KeyEvent, GeneralCommand>,
    select_keybindings: Table<KeyEvent, Select>,
    target_mapping: Table<DockerCommand, TargetType>,
    allowed_commands: AllowedCommands,
    help_string: String,
}

impl View for Tocker {
    type V = Bindings;

    closed spec fn view(&self) -> Bindings {
        Bindings {
            kinds: self.kind_keybindings@,
            commands: self.command_keybindings@,
            general: self.general_keybindings@,
            select: self.select_keybindings@,
            targets: self.target_mapping@,
            allowed: self.allowed_commands.mapping@.map_values(|v: Vec<DockerCommand>| v@),
            legends: self.allowed_commands.legenda@.map_values(|s: String| s@),
            help: self.help_string@,
        }
    }
}

impl Tocker {
    /// The registry with the standard tables.
    pub fn new() -> (tocker: Tocker)
        ensures
            tocker@ == Bindings::standard(),
            tocker@.wf(),
    {
        let none = KeyModifiers::none();
        let control = KeyModifiers::control();

        let mut kind_keybindings: Table<KeyEvent, DockerKind> = Table::new();
        kind_keybindings.insert(KeyEvent::new(KeyCode::Char('i'), none), DockerKind::Image);
        kind_keybindings.insert(KeyEvent::new(KeyCode::Char('c'), none), DockerKind::Container);
        kind_keybindings.insert(KeyEvent::new(KeyCode::Char('v'), none), DockerKind::Volume);

        let mut command_keybindings: Table<KeyEvent, DockerCommand> = Table::new();
        command_keybindings.insert(KeyEvent::new(KeyCode::Char('l'), none), DockerCommand::LS);
        command_keybindings.insert(KeyEvent::new(KeyCode::Char('r'), none), DockerCommand::RM);
        command_keybindings.insert(KeyEvent::new(KeyCode::Char('s'), none), DockerCommand::STOP);
        command_keybindings.insert(KeyEvent::new(KeyCode::Char('t'), none), DockerCommand::TAG);

        let mut general_keybindings: Table<KeyEvent, GeneralCommand> = Table::new();
        general_keybindings.insert(
            KeyEvent::new(KeyCode::Char('c'), control),
            GeneralCommand::CANCEL,
        );
        general_keybindings.insert(KeyEvent::new(KeyCode::Esc, none), GeneralCommand::CANCEL);
        general_keybindings.insert(KeyEvent::new(KeyCode::Char('q'), control), GeneralCommand::QUIT);
        general_keybindings.insert(KeyEvent::new(KeyCode::Char('h'), control), GeneralCommand::HELP);
        general_keybindings.insert(
            KeyEvent::new(KeyCode::Char('l'), control),
            GeneralCommand::CLEAN,
        );

        let help_string = String::from_str(
            "[c/i/v] = container/image/volume; \n [ctrl+q] = quit; [ctrl+c] = cancel action; [ctrl+l] = clear content; [ctrl+b] build image from path",
        );

        let mut image_commands: Vec<DockerCommand> = Vec::new();
        image_commands.push(DockerCommand::LS);
        image_commands.push(DockerCommand::RM);
        image_commands.push(DockerCommand::TAG);
        let mut container_commands: Vec<DockerCommand> = Vec::new();
        container_commands.push(DockerCommand::LS);
        container_commands.push(DockerCommand::RM);
        container_commands.push(DockerCommand::STOP);
        let mut volume_commands: Vec<DockerCommand> = Vec::new();
        volume_commands.push(DockerCommand::LS);
        volume_commands.push(DockerCommand::RM);

        let mut mapping: Table<DockerKind, Vec<DockerCommand>> = Table::new();
        mapping.insert(DockerKind::Image, image_commands);
        mapping.insert(DockerKind::Container, container_commands);
        mapping.insert(DockerKind::Volume, volume_commands);

        let mut legenda: Table<DockerKind, String> = Table::new();
        legenda.insert(
            DockerKind::Image,
            String::from_str("Available commands for image: \n l = ls, r = rm, t = tag"),
        );
        legenda.insert(
            DockerKind::Container,
            String::from_str("Available commands for container: \n l = ls, r = rm, s = stop"),
        );
        legenda.insert(
            DockerKind::Volume,
            String::from_str("Available commands for volume: \n l = ls, r = rm"),
        );

        let allowed_commands = AllowedCommands { mapping, legenda };

        let mut target_mapping: Table<DockerCommand, TargetType> = Table::new();
        target_mapping.insert(DockerCommand::RM, TargetType::SELECT);
        target_mapping.insert(DockerCommand::STOP, TargetType::SELECT);
        target_mapping.insert(DockerCommand::LS, TargetType::EMPTY);
        target_mapping.insert(DockerCommand::TAG, TargetType::INPUT);

        let mut select_keybindings: Table<KeyEvent, Select> = Table::new();
        select_keybindings.insert(KeyEvent::new(KeyCode::Up, none), Select::UP);
        select_keybindings.insert(KeyEvent::new(KeyCode::Char('j'), none), Select::UP);
        select_keybindings.insert(KeyEvent::new(KeyCode::Down, none), Select::DOWN);
        select_keybindings.insert(KeyEvent::new(KeyCode::Char('k'), none), Select::DOWN);
        select_keybindings.insert(KeyEvent::new(KeyCode::Char(' '), none), Select::SELECT);
        select_keybindings.insert(KeyEvent::new(KeyCode::Enter, none), Select::CONFIRM);
        select_keybindings.insert(KeyEvent::new(KeyCode::Char('c'), control), Select::CANCEL);

        let tocker = Tocker {
            kind_keybindings,
            command_keybindings,
            general_keybindings,
            select_keybindings,
            target_mapping,
            allowed_commands,
            help_string,
        };
        proof {
            assert(tocker@.allowed =~~= Bindings::standard().allowed);
        }
        tocker
    }

    /// The key of an event that is a key press.
    pub fn extract_key_event(&self, e: Event) -> (found: Result<KeyEvent, TockerError>)
        ensures
            found == match e {
                Event::Key(key) => Ok::<KeyEvent, TockerError>(key),
                Event::Other => Err::<KeyEvent, TockerError>(TockerError::InvalidEventSource),
            },
    {
        match e {
            Event::Key(key_event) => Ok(key_event),
            _ => Err(TockerError::InvalidEventSource),
        }
    }

    /// The action of the list that `event` stands for. A global key is
    /// looked at first: the one for giving up gives up in the list as
    /// anywhere, and any other is a command and no action of the list.
    pub fn check_select(&self, event: KeyEvent) -> (found: Result<&Select, TockerError>)
        ensures
            found is Ok == self@.selection(event) is Ok,
            found is Ok ==> *found->Ok_0 == self@.selection(event)->Ok_0,
            found is Err ==> found->Err_0 == self@.selection(event)->Err_0,
    {
        match self.general_keybindings.get(&event) {
            Some(GeneralCommand::CANCEL) => Ok(&Select::CANCEL),
            Some(_) => Err(TockerError::InvalidEventSource),
            None => match self.select_keybindings.get(&event) {
                Some(select) => Ok(select),
                None => Err(TockerError::UnboundKey(Moment::TARGET)),
            },
        }
    }

    /// What `event` stands for at `moment`.
    pub fn resolve(&self, event: &KeyEvent, moment: &Moment) -> (action: Action)
        ensures
            action == self@.resolve(*event, *moment),
    {
        match self.general_keybindings.get(event) {
            Some(command) => Action::General(*command),
            None => match moment {
                Moment::KIND => match self.kind_keybindings.get(event) {
                    Some(kind) => Action::Kind(*kind),
                    None => Action::Unbound,
                },
                Moment::COMMAND => match self.command_keybindings.get(event) {
                    Some(command) => Action::Command(*command),
                    None => Action::Unbound,
                },
                Moment::TARGET => match self.select_keybindings.get(event) {
                    Some(select) => Action::Select(*select),
                    None => Action::Unbound,
                },
            },
        }
    }

    /// What the registry says of `event` where a kind or a command is
    /// awaited. A global key gives its own message at any moment; another
    /// key is no command while a target is chosen.
    pub fn check_keybinding(&self, event: &KeyEvent, moment: &Moment) -> (found: Result<
        Message,
        TockerError,
    >)
        ensures
            found == self@.message(*event, *moment),
    {
        match self.general_keybindings.get(event) {
            Some(cmd) => match cmd {
                GeneralCommand::QUIT => Ok(Message::QUIT),
                GeneralCommand::CANCEL => Ok(Message::CANCEL),
                GeneralCommand::HELP => Ok(Message::HELP),
                GeneralCommand::CLEAN => Ok(Message::CLEAN),
            },
            None => match moment {
                Moment::KIND => match self.kind_keybindings.get(event) {
                    Some(_) => Ok(Message::OK),
                    None => Ok(Message::WRONG),
                },
                Moment::COMMAND => match self.command_keybindings.get(event) {
                    Some(_) => Ok(Message::OK),
                    None => Ok(Message::WRONG),
                },
                Moment::TARGET => Err(TockerError::InvalidEventSource),
            },
        }
    }

    /// The text that explains the global keys.
    pub fn get_help_commands(&self) -> (help: &String)
        ensures
            help@ == self@.help,
    {
        &self.help_string
    }

    /// The legend of `kind`: the commands that it admits, for the user to
    /// read.
    pub fn legend(&self, kind: &DockerKind) -> (found: Option<&String>)
        ensures
            self@.legends.contains_key(*kind) ==> found is Some && found->0@
                == self@.legends[*kind],
            !self@.legends.contains_key(*kind) ==> found is None,
    {
        self.allowed_commands.legenda.get(kind)
    }

    /// The legend of the kind that `key_event` is bound to.
    pub fn get_available_commands(&self, key_event: &KeyEvent) -> (found: Result<
        &String,
        TockerError,
    >)
        ensures
            self@.kinds.contains_key(*key_event) && self@.legends.contains_key(
                self@.kinds[*key_event],
            ) ==> found is Ok && found->Ok_0@ == self@.legends[self@.kinds[*key_event]],
            !(self@.kinds.contains_key(*key_event) && self@.legends.contains_key(
                self@.kinds[*key_event],
            )) ==> found == Err::<&String, TockerError>(TockerError::UnboundKey(Moment::KIND)),
    {
        let Some(kind) = self.kind_keybindings.get(key_event) else {
            return Err(TockerError::UnboundKey(Moment::KIND));
        };
        let Some(command_string) = self.legend(kind) else {
            return Err(TockerError::UnboundKey(Moment::KIND));
        };
        Ok(command_string)
    }

    /// Whether `command` is one of the commands of `kind`.
    pub fn is_allowed(&self, kind: &DockerKind, command: &DockerCommand) -> (b: bool)
        ensures
            b == self@.allows(*kind, *command),
    {
        match self.allowed_commands.mapping.get(kind) {
            Some(commands) => {
                let mut i: usize = 0;
                while i < commands.len()
                    invariant
                        i <= commands@.len(),
                        self@.allowed.contains_key(*kind),
                        self@.allowed[*kind] == commands@,
                        forall|j: int| 0 <= j < i ==> commands@[j] != *command,
                    decreases commands@.len() - i,
                {
                    if commands[i].same(command) {
                        return true;
                    }
                    i = i + 1;
                }
                false
            },
            None => false,
        }
    }

    /// What `command` takes as its target.
    pub fn target_type(&self, command: &DockerCommand) -> (found: Option<&TargetType>)
        ensures
            self@.targets.contains_key(*command) ==> found == Some(&self@.targets[*command]),
            !self@.targets.contains_key(*command) ==> found is None,
    {
        self.target_mapping.get(command)
    }

    /// The target type of `command` for a resource of `kind`. The pair is
    /// refused where the kind does not admit the command.
    pub fn authorize(&self, kind: &DockerKind, command: &DockerCommand) -> (found: Result<
        &TargetType,
        TockerError,
    >)
        ensures
            found is Ok == self@.authorize(*kind, *command) is Ok,
            found is Ok ==> *found->Ok_0 == self@.authorize(*kind, *command)->Ok_0,
            found is Err ==> found->Err_0 == TockerError::NotAuthorized,
    {
        if self.is_allowed(kind, command) {
            match self.target_type(command) {
                Some(target) => Ok(target),
                None => Err(TockerError::NotAuthorized),
            }
        } else {
            Err(TockerError::NotAuthorized)
        }
    }

    /// The target type of the command that `second` is bound to, for the
    /// kind that `first` is bound to. A key that is not bound is told apart
    /// from a pair that is not allowed.
    pub fn check_for_target(&self, first: &KeyEvent, second: &KeyEvent) -> (found: Result<
        &TargetType,
        TockerError,
    >)
        ensures
            found is Ok == self@.target_of_keys(*first, *second) is Ok,
            found is Ok ==> *found->Ok_0 == self@.target_of_keys(*first, *second)->Ok_0,
            found is Err ==> found->Err_0 == self@.target_of_keys(*first, *second)->Err_0,
    {
        let Some(kind) = self.kind_keybindings.get(first) else {
            return Err(TockerError::UnboundKey(Moment::KIND));
        };
        let Some(cmd) = self.command_keybindings.get(second) else {
            return Err(TockerError::UnboundKey(Moment::COMMAND));
        };
        self.authorize(kind, cmd)
    }

    /// The prompt for `command` on a resource of `kind` with `target`. None
    /// is made where the kind does not admit the command.
    pub fn prompt(&self, kind: DockerKind, command: DockerCommand, target: String) -> (made: Result<
        DockerPrompt,
        TockerError,
    >)
        ensures
            made is Ok == self@.authorize(kind, command) is Ok,
            made is Ok ==> made->Ok_0@ == (PromptView { kind, command, target: target@ }),
            made is Err ==> made->Err_0 == TockerError::NotAuthorized,
    {
        match self.authorize(&kind, &command) {
            Ok(_) => Ok(DockerPrompt { kind, command, target }),
            Err(e) => Err(e),
        }
    }
}

} // verus!
