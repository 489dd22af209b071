//! The interaction, one event at a time.
//!
//! A cycle resolves a kind, then a command; where the command takes its
//! target from the list, the list then takes the keys until the choice is
//! confirmed or given up. [`AppState::step`] takes the state and one event
//! to the next state and says what the caller has to do: wait for the next
//! event, run a command, or leave. The caller draws the state, runs the
//! command and hands its output, or its failure, back.

use vstd::prelude::*;
use vstd::string::*;

use crate::error::TockerError;
use crate::keys::{Event, KeyEvent};
use crate::rows::{lemma_no_mark_no_target, rows_of, target_of, ListView, RowList};
use crate::text::lines;
use crate::tocker::{
    Action, Bindings, DockerCommand, DockerKind, DockerPrompt, GeneralCommand, Moment, PromptView,
    Select, TargetType, Tocker,
};

verus! {

/// The hint that is shown while a kind is awaited.
pub const INITIAL_COMMANDS: &'static str =
    "Available commands: \n press 'i' = image, 'c' = container, 'v' = volume.";

/// The hint that is shown while targets are chosen.
pub const TARGET_COMMANDS: &'static str =
    "Available commands: \n press 'space' = select, 'enter' = confirm";

/// How far the cycle has come, with what it has resolved so far.
#[derive(Clone, Copy, Debug, PartialEq, Eq, Structural)]
pub enum Stage {
    /// Nothing is resolved.
    Kind,
    /// The kind is resolved.
    Command { kind: DockerKind },
    /// The kind and the command are resolved, and the command takes its
    /// target from the list.
    Target { kind: DockerKind, command: DockerCommand },
}

impl Stage {
    /// The moment that the next key belongs to.
    pub open spec fn moment(self) -> Moment {
        match self {
            Stage::Kind => Moment::KIND,
            Stage::Command { .. } => Moment::COMMAND,
            Stage::Target { .. } => Moment::TARGET,
        }
    }
}

/// What the caller has to do after a step.
#[derive(Debug, PartialEq, Eq)]
pub enum Effect {
    /// Show the state and hand over the next event.
    Wait,
    /// Leave the session.
    Quit,
    /// Run the command, then hand over its output with [`AppState::show`],
    /// or its failure with [`AppState::fail`].
    Execute(DockerPrompt),
}

/// An [`Effect`], as plain values.
pub enum EffectView {
    Wait,
    Quit,
    Execute(PromptView),
}

impl View for Effect {
    type V = EffectView;

    open spec fn view(&self) -> EffectView {
        match self {
            Effect::Wait => EffectView::Wait,
            Effect::Quit => EffectView::Quit,
            Effect::Execute(prompt) => EffectView::Execute(prompt@),
        }
    }
}

/// The state of a session.
pub struct AppState {
    list: RowList,
    commands: String,
    stage: Stage,
}

/// An [`AppState`], as plain values.
#[verifier::ext_equal]
pub struct StateView {
    pub list: ListView,
    pub commands: Seq<char>,
    pub stage: Stage,
}

impl View for AppState {
    type V = StateView;

    closed spec fn view(&self) -> StateView {
        StateView { list: self.list@, commands: self.commands@, stage: self.stage }
    }
}

impl StateView {
    /// The list is well formed, rows are marked only while targets are
    /// chosen, and the hint of that time is the one for the list.
    pub open spec fn wf(self) -> bool {
        &&& self.list.wf()
        &&& self.stage is Target ==> self.commands == TARGET_COMMANDS@
        &&& !(self.stage is Target) ==> self.list.unmarked()
    }

    /// The state in which a session starts.
    pub open spec fn initial() -> StateView {
        StateView {
            list: ListView { rows: Seq::empty(), cursor: 0 },
            commands: INITIAL_COMMANDS@,
            stage: Stage::Kind,
        }
    }

    /// The state at the start of a new cycle: nothing is resolved, no row is
    /// marked, the cursor is at the top and the first hint is shown.
    pub open spec fn first(self) -> StateView {
        StateView { list: self.list.rewound(), commands: INITIAL_COMMANDS@, stage: Stage::Kind }
    }

    /// The state after a failure: a new cycle starts, and the user is told
    /// of the failure in a row of its own, unless it was the user who gave
    /// the cycle up.
    pub open spec fn failed(self, error: TockerError) -> StateView {
        if error is UserCancelled {
            self.first()
        } else {
            StateView { list: self.list.rewound().with_status(error.text()@), ..self.first() }
        }
    }

    /// The state after the output of a command has come: its lines are the
    /// rows, and a new cycle starts.
    pub open spec fn shown(self, output: Seq<char>) -> StateView {
        StateView { list: ListView { rows: rows_of(lines(output)), cursor: 0 }, ..self.first() }
    }

    /// The state after a key that is bound to nothing was pressed while a
    /// kind or a command was awaited: the user is told so, and the same key
    /// is awaited again.
    pub open spec fn wrong(self) -> StateView {
        StateView {
            list: self.list.with_status(TockerError::UnboundKey(self.stage.moment()).text()@),
            ..self
        }
    }

    /// The state and the effect of a global command. To give up starts a new
    /// cycle; the help is shown only while a kind is awaited; to clean takes
    /// the rows away and leaves the rest.
    pub open spec fn after_general(self, t: Bindings, command: GeneralCommand) -> (
        StateView,
        EffectView,
    ) {
        match command {
            GeneralCommand::QUIT => (self, EffectView::Quit),
            GeneralCommand::CANCEL => (self.first(), EffectView::Wait),
            GeneralCommand::HELP => (
                if self.stage is Kind {
                    StateView { commands: t.help, ..self }
                } else {
                    self
                },
                EffectView::Wait,
            ),
            GeneralCommand::CLEAN => (
                StateView { list: ListView { rows: Seq::empty(), cursor: 0 }, ..self },
                EffectView::Wait,
            ),
        }
    }

    /// The state after `kind` was chosen: its legend is the hint, and a
    /// command is awaited.
    pub open spec fn after_kind(self, t: Bindings, kind: DockerKind) -> StateView {
        if !(self.stage is Kind) {
            self
        } else if t.legends.contains_key(kind) {
            StateView { commands: t.legends[kind], stage: Stage::Command { kind }, ..self }
        } else {
            self.failed(TockerError::UnboundKey(Moment::KIND))
        }
    }

    /// The state and the effect after `command` was chosen for the kind
    /// that was chosen before it. A command that the kind does not admit is
    /// refused and a new cycle starts. One that takes its target from the
    /// list hands the keys to the list. Any other is run at once and
    /// without a target, whatever the rows are: no text is asked for, so a
    /// command that would take one runs without it.
    pub open spec fn after_command(self, t: Bindings, command: DockerCommand) -> (
        StateView,
        EffectView,
    ) {
        match self.stage {
            Stage::Command { kind } => match t.authorize(kind, command) {
                Err(error) => (self.failed(error), EffectView::Wait),
                Ok(TargetType::SELECT) => (
                    StateView {
                        commands: TARGET_COMMANDS@,
                        stage: Stage::Target { kind, command },
                        ..self
                    },
                    EffectView::Wait,
                ),
                Ok(_) => (
                    self.first(),
                    EffectView::Execute(PromptView { kind, command, target: Seq::empty() }),
                ),
            },
            _ => (self, EffectView::Wait),
        }
    }

    /// The state and the effect of an action of the list while targets are
    /// chosen. To confirm runs the command on the marked rows, also where
    /// none is marked; to give up starts a new cycle and runs nothing.
    pub open spec fn after_select(self, t: Bindings, select: Select) -> (StateView, EffectView) {
        match self.stage {
            Stage::Target { kind, command } => match select {
                Select::UP => (StateView { list: self.list.up(), ..self }, EffectView::Wait),
                Select::DOWN => (StateView { list: self.list.down(), ..self }, EffectView::Wait),
                Select::SELECT => (
                    StateView { list: self.list.toggle(), ..self },
                    EffectView::Wait,
                ),
                Select::CANCEL => (self.first(), EffectView::Wait),
                Select::CONFIRM => match t.authorize(kind, command) {
                    Err(error) => (self.failed(error), EffectView::Wait),
                    Ok(_) => (
                        self.first(),
                        EffectView::Execute(
                            PromptView { kind, command, target: target_of(self.list.rows) },
                        ),
                    ),
                },
            },
            _ => (self, EffectView::Wait),
        }
    }

    /// The state after a key that is bound to nothing. While targets are
    /// chosen it ends the cycle as a failure; before that, the same key is
    /// awaited again.
    pub open spec fn after_unbound(self) -> StateView {
        if self.stage is Target {
            self.failed(TockerError::UnboundKey(Moment::TARGET))
        } else {
            self.wrong()
        }
    }

    /// The state and the effect of one event.
    pub open spec fn next(self, t: Bindings, event: Event) -> (StateView, EffectView) {
        match event {
            Event::Other => (self.failed(TockerError::InvalidEventSource), EffectView::Wait),
            Event::Key(key) => match t.resolve(key, self.stage.moment()) {
                Action::General(command) => self.after_general(t, command),
                Action::Kind(kind) => (self.after_kind(t, kind), EffectView::Wait),
                Action::Command(command) => self.after_command(t, command),
                Action::Select(select) => self.after_select(t, select),
                Action::Unbound => (self.after_unbound(), EffectView::Wait),
            },
        }
    }
}

impl AppState {
    /// The state in which a session starts.
    pub fn new() -> (state: AppState)
        ensures
            state@ == StateView::initial(),
            state@.wf(),
    {
        AppState {
            list: RowList::new(),
            commands: String::from_str(INITIAL_COMMANDS),
            stage: Stage::Kind,
        }
    }

    /// The moment that the next key belongs to.
    pub fn moment(&self) -> (moment: Moment)
        ensures
            moment == self@.stage.moment(),
    {
        match self.stage {
            Stage::Kind => Moment::KIND,
            Stage::Command { .. } => Moment::COMMAND,
            Stage::Target { .. } => Moment::TARGET,
        }
    }

    /// How far the cycle has come.
    pub fn stage(&self) -> (stage: Stage)
        ensures
            stage == self@.stage,
    {
        self.stage
    }

    /// The hint to show.
    pub fn commands(&self) -> (hint: &String)
        ensures
            hint@ == self@.commands,
    {
        &self.commands
    }

    /// The rows to show.
    pub fn list(&self) -> (list: &RowList)
        ensures
            list@ == self@.list,
    {
        &self.list
    }

    /// Starts a new cycle.
    pub fn go_to_first(&mut self)
        ensures
            final(self)@ == old(self)@.first(),
            final(self)@.wf(),
    {
        self.commands = String::from_str(INITIAL_COMMANDS);
        self.list.rewind();
        self.stage = Stage::Kind;
    }

    /// Ends the cycle as a failure and tells the user of it.
    pub fn fail(&mut self, error: TockerError)
        ensures
            final(self)@ == old(self)@.failed(error),
            final(self)@.wf(),
    {
        self.go_to_first();
        match error {
            TockerError::UserCancelled => {},
            _ => {
                self.list.push_status(error.message());
            },
        }
    }

    /// Takes the output of the command that was run, and starts a new cycle.
    pub fn show(&mut self, output: &str)
        ensures
            final(self)@ == old(self)@.shown(output@),
            final(self)@.wf(),
    {
        self.list.load(output);
        self.commands = String::from_str(INITIAL_COMMANDS);
        self.stage = Stage::Kind;
    }

    /// Tells the user that the key is bound to nothing.
    fn wrong(&mut self)
        ensures
            final(self)@ == old(self)@.wrong(),
    {
        self.list.push_status(TockerError::UnboundKey(self.moment()).message());
    }

    /// Shows the help, while a kind is awaited.
    fn help(&mut self, tocker: &Tocker)
        ensures
            final(self)@ == old(self)@.after_general(tocker@, GeneralCommand::HELP).0,
    {
        match self.stage {
            Stage::Kind => {
                self.commands = tocker.get_help_commands().clone();
            },
            _ => {},
        }
    }

    /// Takes the rows away.
    fn clean(&mut self)
        ensures
            final(self)@ == (StateView {
                list: ListView { rows: Seq::empty(), cursor: 0 },
                ..old(self)@
            }),
    {
        self.list.clear();
    }

    /// Does what a global command asks for.
    fn next_action(&mut self, tocker: &Tocker, command: GeneralCommand) -> (effect: Effect)
        ensures
            (final(self)@, effect@) == old(self)@.after_general(tocker@, command),
    {
        match command {
            GeneralCommand::HELP => {
                self.help(tocker);
                Effect::Wait
            },
            GeneralCommand::CLEAN => {
                self.clean();
                Effect::Wait
            },
            GeneralCommand::CANCEL => {
                self.go_to_first();
                Effect::Wait
            },
            GeneralCommand::QUIT => Effect::Quit,
        }
    }

    /// Shows the legend of `kind` and awaits a command.
    fn go_to_second(&mut self, tocker: &Tocker, kind: DockerKind) -> (done: Result<
        (),
        TockerError,
    >)
        ensures
            done is Ok == tocker@.legends.contains_key(kind),
            done is Ok ==> final(self)@ == (StateView {
                commands: tocker@.legends[kind],
                stage: Stage::Command { kind },
                ..old(self)@
            }),
            done is Err ==> final(self)@ == old(self)@ && done->Err_0 == TockerError::UnboundKey(
                Moment::KIND,
            ),
    {
        match tocker.legend(&kind) {
            Some(legend) => {
                self.commands = legend.clone();
                self.stage = Stage::Command { kind };
                Ok(())
            },
            None => Err(TockerError::UnboundKey(Moment::KIND)),
        }
    }

    /// Takes the kind that was chosen.
    fn get_first(&mut self, tocker: &Tocker, kind: DockerKind)
        ensures
            final(self)@ == old(self)@.after_kind(tocker@, kind),
    {
        match self.stage {
            Stage::Kind => {
                match self.go_to_second(tocker, kind) {
                    Ok(()) => {},
                    Err(error) => {
                        self.fail(error);
                    },
                }
            },
            _ => {},
        }
    }

    /// Ends the cycle with the command to run on `target`.
    fn finish(
        &mut self,
        tocker: &Tocker,
        kind: DockerKind,
        command: DockerCommand,
        target: String,
    ) -> (effect: Effect)
        ensures
            tocker@.authorize(kind, command) is Ok ==> final(self)@ == old(self)@.first()
                && effect@ == EffectView::Execute(PromptView { kind, command, target: target@ }),
            tocker@.authorize(kind, command) is Err ==> final(self)@ == old(self)@.failed(
                TockerError::NotAuthorized,
            ) && effect@ == EffectView::Wait,
    {
        match tocker.prompt(kind, command, target) {
            Ok(prompt) => {
                self.go_to_first();
                Effect::Execute(prompt)
            },
            Err(error) => {
                self.fail(error);
                Effect::Wait
            },
        }
    }

    /// Takes the command that was chosen.
    fn get_second(&mut self, tocker: &Tocker, command: DockerCommand) -> (effect: Effect)
        ensures
            (final(self)@, effect@) == old(self)@.after_command(tocker@, command),
    {
        match self.stage {
            Stage::Command { kind } => {
                match tocker.authorize(&kind, &command) {
                    Ok(TargetType::SELECT) => {
                        self.commands = String::from_str(TARGET_COMMANDS);
                        self.stage = Stage::Target { kind, command };
                        Effect::Wait
                    },
                    Ok(_) => self.finish(tocker, kind, command, String::new()),
                    Err(error) => {
                        self.fail(error);
                        Effect::Wait
                    },
                }
            },
            _ => Effect::Wait,
        }
    }

    /// Does what an action of the list asks for.
    fn select(&mut self, tocker: &Tocker, select: Select) -> (effect: Effect)
        ensures
            (final(self)@, effect@) == old(self)@.after_select(tocker@, select),
    {
        match self.stage {
            Stage::Target { kind, command } => {
                match select {
                    Select::UP => {
                        self.list.add_cursor();
                        Effect::Wait
                    },
                    Select::DOWN => {
                        self.list.sub_cursor();
                        Effect::Wait
                    },
                    Select::SELECT => {
                        self.list.toggle();
                        Effect::Wait
                    },
                    Select::CANCEL => {
                        self.go_to_first();
                        Effect::Wait
                    },
                    Select::CONFIRM => {
                        let target = self.list.extract_target_string();
                        self.finish(tocker, kind, command, target)
                    },
                }
            },
            _ => Effect::Wait,
        }
    }

    /// Takes one event: the state changes as [`StateView::next`] says, and
    /// the result is what the caller has to do.
    pub fn step(&mut self, tocker: &Tocker, event: Event) -> (effect: Effect)
        ensures
            (final(self)@, effect@) == old(self)@.next(tocker@, event),
            old(self)@.wf() ==> final(self)@.wf(),
    {
        let key = match tocker.extract_key_event(event) {
            Ok(key) => key,
            Err(error) => {
                self.fail(error);
                return Effect::Wait;
            },
        };
        let moment = self.moment();
        match tocker.resolve(&key, &moment) {
            Action::General(command) => self.next_action(tocker, command),
            Action::Kind(kind) => {
                self.get_first(tocker, kind);
                Effect::Wait
            },
            Action::Command(command) => self.get_second(tocker, command),
            Action::Select(select) => self.select(tocker, select),
            Action::Unbound => {
                match self.stage {
                    Stage::Target { .. } => {
                        self.fail(TockerError::UnboundKey(Moment::TARGET));
                    },
                    _ => {
                        self.wrong();
                    },
                }
                Effect::Wait
            },
        }
    }
}

/// A command is run only for a kind that admits it, and only if it has a
/// target type.
pub proof fn lemma_runs_only_allowed(state: StateView, t: Bindings, event: Event)
    ensures
        state.next(t, event).1 matches EffectView::Execute(prompt) ==> t.allows(
            prompt.kind,
            prompt.command,
        ) && t.targets.contains_key(prompt.command),
{
}

/// When a command is run, a new cycle has started.
pub proof fn lemma_run_ends_cycle(state: StateView, t: Bindings, event: Event)
    ensures
        state.next(t, event).1 is Execute ==> state.next(t, event).0 == state.first(),
{
}

/// The global key for giving up starts a new cycle at any moment: a kind is
/// awaited again, what was resolved is forgotten, the cursor is at the top,
/// and nothing is run.
pub proof fn lemma_cancel_restarts(state: StateView, t: Bindings, key: KeyEvent)
    requires
        t.general.contains_key(key),
        t.general[key] == GeneralCommand::CANCEL,
    ensures
        state.next(t, Event::Key(key)).0 == state.first(),
        state.next(t, Event::Key(key)).0.stage == Stage::Kind,
        state.next(t, Event::Key(key)).0.list.cursor == 0,
        state.next(t, Event::Key(key)).1 == EffectView::Wait,
{
}

/// A new cycle starts from a well-formed state, whatever came before.
pub proof fn lemma_first_is_wf(state: StateView)
    ensures
        state.first().wf(),
        state.first().list.unmarked(),
{
}

/// After a failure the state is well formed.
pub proof fn lemma_failed_is_wf(state: StateView, error: TockerError)
    ensures
        state.failed(error).wf(),
{
}

/// After the output of a command the state is well formed.
pub proof fn lemma_shown_is_wf(state: StateView, output: Seq<char>)
    ensures
        state.shown(output).wf(),
{
}

/// A step takes a well-formed state to a well-formed state.
pub proof fn lemma_next_keeps_wf(state: StateView, t: Bindings, event: Event)
    requires
        state.wf(),
    ensures
        state.next(t, event).0.wf(),
{
}

/// A command that does not take its target from the list is run as soon as
/// it is chosen, with no target, whatever the rows and their marks are, and
/// the list never takes the keys.
pub proof fn lemma_direct_command_runs_at_once(
    state: StateView,
    t: Bindings,
    kind: DockerKind,
    command: DockerCommand,
)
    requires
        state.stage == (Stage::Command { kind }),
        t.authorize(kind, command) is Ok,
        t.authorize(kind, command) != Ok::<TargetType, TockerError>(TargetType::SELECT),
    ensures
        state.after_command(t, command) == (
            state.first(),
            EffectView::Execute(PromptView { kind, command, target: Seq::empty() }),
        ),
{
}

/// While targets are chosen, a key does in a step what the registry says of
/// it as an action of the list.
pub proof fn lemma_step_follows_selection(state: StateView, t: Bindings, key: KeyEvent)
    requires
        state.stage is Target,
        t.selection(key) is Ok,
    ensures
        state.next(t, Event::Key(key)) == state.after_select(t, t.selection(key)->Ok_0),
{
}

/// To confirm with no row marked runs the command with no target.
pub proof fn lemma_confirm_without_marks(
    state: StateView,
    t: Bindings,
    kind: DockerKind,
    command: DockerCommand,
)
    requires
        state.stage == (Stage::Target { kind, command }),
        state.list.unmarked(),
        t.authorize(kind, command) is Ok,
    ensures
        state.after_select(t, Select::CONFIRM) == (
            state.first(),
            EffectView::Execute(PromptView { kind, command, target: Seq::empty() }),
        ),
{
    lemma_no_mark_no_target(state.list.rows);
}

} // verus!
