use tocker::error::TockerError;
use tocker::keys::{Event, KeyCode, KeyEvent, KeyModifiers};
use tocker::tocker::DockerCommand::{LS, RM, STOP, TAG};
use tocker::tocker::DockerKind::{Container, Image, Volume};
use tocker::tocker::{DockerCommand, DockerKind, Moment, Tocker};
use tocker::tui::{AppState, Effect, Stage, INITIAL_COMMANDS, TARGET_COMMANDS};

const IMAGES: &str = "REPOSITORY  TAG  IMAGE ID  SIZE\nmyimg latest abc123 10MB\nother 1.0 def456 20MB\n";

fn plain(c: char) -> Event {
    Event::Key(KeyEvent::new(KeyCode::Char(c), KeyModifiers::none()))
}

fn ctrl(c: char) -> Event {
    Event::Key(KeyEvent::new(KeyCode::Char(c), KeyModifiers::control()))
}

fn code(code: KeyCode) -> Event {
    Event::Key(KeyEvent::new(code, KeyModifiers::none()))
}

fn texts(state: &AppState) -> Vec<String> {
    let list = state.list();
    (0..list.len()).map(|i| list.text(i).unwrap().clone()).collect()
}

fn marks(state: &AppState) -> Vec<bool> {
    let list = state.list();
    (0..list.len()).map(|i| list.is_selected(i)).collect()
}

fn run(state: &mut AppState, tocker: &Tocker, events: &[Event]) -> Vec<Effect> {
    events.iter().map(|event| state.step(tocker, *event)).collect()
}

fn waits(count: usize) -> Vec<Effect> {
    (0..count).map(|_| Effect::Wait).collect()
}

fn prompt_of(effect: &Effect) -> (DockerKind, DockerCommand, String) {
    match effect {
        Effect::Execute(prompt) => (prompt.kind(), prompt.command(), prompt.target().clone()),
        other => panic!("no command is run: {:?}", other),
    }
}

fn with_images() -> (Tocker, AppState) {
    let tocker = Tocker::new();
    let mut state = AppState::new();
    state.show(IMAGES);
    (tocker, state)
}

#[test]
fn session_starts_awaiting_a_kind() {
    let state = AppState::new();
    assert_eq!(state.moment(), Moment::KIND);
    assert_eq!(state.stage(), Stage::Kind);
    assert_eq!(state.commands(), INITIAL_COMMANDS);
    assert_eq!(state.list().len(), 0);
    assert_eq!(state.list().cursor(), 0);
    assert_eq!(
        INITIAL_COMMANDS,
        "Available commands: \n press 'i' = image, 'c' = container, 'v' = volume."
    );
}

#[test]
fn kind_key_shows_the_legend_and_awaits_a_command() {
    let tocker = Tocker::new();
    let mut state = AppState::new();
    assert_eq!(state.step(&tocker, plain('i')), Effect::Wait);
    assert_eq!(state.moment(), Moment::COMMAND);
    assert_eq!(state.stage(), Stage::Command { kind: Image });
    assert_eq!(state.commands(), "Available commands for image: \n l = ls, r = rm, t = tag");
    assert_eq!(state.list().len(), 0);
}

#[test]
fn container_list_runs_at_once() {
    let tocker = Tocker::new();
    let mut state = AppState::new();
    assert_eq!(state.step(&tocker, plain('c')), Effect::Wait);
    assert_eq!(state.moment(), Moment::COMMAND);
    let effect = state.step(&tocker, plain('l'));
    assert_eq!(prompt_of(&effect), (Container, LS, String::new()));
    assert_eq!(state.moment(), Moment::KIND);
    assert_eq!(state.commands(), INITIAL_COMMANDS);
}

#[test]
fn list_runs_at_once_with_rows_on_the_screen() {
    let (tocker, mut state) = with_images();
    let effects = run(&mut state, &tocker, &[plain('v'), plain('l')]);
    assert_eq!(effects[0], Effect::Wait);
    assert_eq!(prompt_of(&effects[1]), (Volume, LS, String::new()));
    assert_eq!(state.stage(), Stage::Kind);
    assert_eq!(state.list().len(), 3);
}

#[test]
fn tag_runs_at_once_without_a_target() {
    let (tocker, mut state) = with_images();
    let effects = run(&mut state, &tocker, &[plain('i'), plain('t')]);
    assert_eq!(prompt_of(&effects[1]), (Image, TAG, String::new()));
    assert_eq!(state.moment(), Moment::KIND);
}

#[test]
fn image_remove_enters_the_list() {
    let (tocker, mut state) = with_images();
    let effects = run(&mut state, &tocker, &[plain('i'), plain('r')]);
    assert_eq!(effects, waits(2));
    assert_eq!(state.moment(), Moment::TARGET);
    assert_eq!(state.stage(), Stage::Target { kind: Image, command: RM });
    assert_eq!(state.commands(), TARGET_COMMANDS);
    assert_eq!(
        TARGET_COMMANDS,
        "Available commands: \n press 'space' = select, 'enter' = confirm"
    );
}

#[test]
fn confirm_without_marks_runs_with_an_empty_target() {
    let (tocker, mut state) = with_images();
    let effects = run(&mut state, &tocker, &[plain('i'), plain('r'), code(KeyCode::Enter)]);
    assert_eq!(effects[0], Effect::Wait);
    assert_eq!(effects[1], Effect::Wait);
    assert_eq!(prompt_of(&effects[2]), (Image, RM, String::new()));
    assert_eq!(state.moment(), Moment::KIND);
}

#[test]
fn confirm_on_an_empty_list_runs_with_an_empty_target() {
    let tocker = Tocker::new();
    let mut state = AppState::new();
    let effects = run(
        &mut state,
        &tocker,
        &[plain('c'), plain('s'), code(KeyCode::Up), plain(' '), code(KeyCode::Down), code(KeyCode::Enter)],
    );
    assert_eq!(prompt_of(&effects[5]), (Container, STOP, String::new()));
    assert_eq!(state.list().len(), 0);
    assert_eq!(state.list().cursor(), 0);
}

#[test]
fn marked_rows_become_the_target() {
    let (tocker, mut state) = with_images();
    let effects = run(
        &mut state,
        &tocker,
        &[
            plain('i'),
            plain('r'),
            code(KeyCode::Up),
            plain(' '),
            plain('j'),
            plain(' '),
            code(KeyCode::Enter),
        ],
    );
    assert_eq!(prompt_of(&effects[6]), (Image, RM, String::from("abc123 def456")));
    assert_eq!(state.moment(), Moment::KIND);
    assert_eq!(marks(&state), vec![false, false, false]);
    assert_eq!(state.list().cursor(), 0);
    assert_eq!(state.commands(), INITIAL_COMMANDS);
}

#[test]
fn list_keys_move_and_mark() {
    let (tocker, mut state) = with_images();
    run(&mut state, &tocker, &[plain('i'), plain('r'), code(KeyCode::Down)]);
    assert_eq!(state.list().cursor(), 2);
    run(&mut state, &tocker, &[plain(' '), plain('k')]);
    assert_eq!(state.list().cursor(), 1);
    assert_eq!(marks(&state), vec![false, false, true]);
    run(&mut state, &tocker, &[plain('k'), plain(' ')]);
    assert_eq!(state.list().cursor(), 2);
    assert_eq!(marks(&state), vec![false, false, false]);
    assert_eq!(state.moment(), Moment::TARGET);
    assert_eq!(state.commands(), TARGET_COMMANDS);
}

#[test]
fn cancel_while_a_command_is_awaited_starts_again() {
    let (tocker, mut state) = with_images();
    assert_eq!(state.step(&tocker, plain('c')), Effect::Wait);
    assert_eq!(state.stage(), Stage::Command { kind: Container });
    assert_eq!(state.step(&tocker, ctrl('c')), Effect::Wait);
    assert_eq!(state.moment(), Moment::KIND);
    assert_eq!(state.stage(), Stage::Kind);
    assert_eq!(state.list().cursor(), 0);
    assert_eq!(state.commands(), INITIAL_COMMANDS);
    assert_eq!(texts(&state).len(), 3);
    let effects = run(&mut state, &tocker, &[plain('i'), plain('t')]);
    assert_eq!(prompt_of(&effects[1]), (Image, TAG, String::new()));
}

#[test]
fn escape_cancels_too() {
    let (tocker, mut state) = with_images();
    run(&mut state, &tocker, &[plain('v'), code(KeyCode::Esc)]);
    assert_eq!(state.stage(), Stage::Kind);
    assert_eq!(state.list().len(), 3);
}

#[test]
fn escape_in_the_list_gives_up_as_the_registry_says() {
    let (tocker, mut state) = with_images();
    let escape = KeyEvent::new(KeyCode::Esc, KeyModifiers::none());
    let effects = run(
        &mut state,
        &tocker,
        &[plain('c'), plain('s'), plain('j'), plain(' '), Event::Key(escape)],
    );
    assert_eq!(tocker.check_select(escape), Ok(&tocker::tocker::Select::CANCEL));
    assert_eq!(effects, waits(5));
    assert_eq!(state.moment(), Moment::KIND);
    assert_eq!(marks(&state), vec![false, false, false]);
    assert_eq!(state.list().len(), 3);
}

#[test]
fn cancel_in_the_list_forgets_the_marks_and_runs_nothing() {
    let (tocker, mut state) = with_images();
    let effects = run(
        &mut state,
        &tocker,
        &[plain('i'), plain('r'), code(KeyCode::Up), plain(' '), ctrl('c')],
    );
    assert_eq!(effects, waits(5));
    assert_eq!(state.moment(), Moment::KIND);
    assert_eq!(marks(&state), vec![false, false, false]);
    assert_eq!(state.list().cursor(), 0);
    assert_eq!(texts(&state).len(), 3);
}

#[test]
fn quit_asks_the_caller_to_leave() {
    let (tocker, mut state) = with_images();
    assert_eq!(state.step(&tocker, ctrl('q')), Effect::Quit);
    assert_eq!(state.moment(), Moment::KIND);
    run(&mut state, &tocker, &[plain('i')]);
    assert_eq!(state.step(&tocker, ctrl('q')), Effect::Quit);
    assert_eq!(state.moment(), Moment::COMMAND);
    run(&mut state, &tocker, &[plain('r')]);
    assert_eq!(state.step(&tocker, ctrl('q')), Effect::Quit);
    assert_eq!(state.moment(), Moment::TARGET);
    assert_eq!(state.list().len(), 3);
}

#[test]
fn help_is_shown_while_a_kind_is_awaited() {
    let (tocker, mut state) = with_images();
    assert_eq!(state.step(&tocker, ctrl('h')), Effect::Wait);
    assert_eq!(state.commands(), tocker.get_help_commands());
    assert_eq!(state.moment(), Moment::KIND);
    assert_eq!(state.list().len(), 3);
}

#[test]
fn help_does_nothing_later() {
    let (tocker, mut state) = with_images();
    run(&mut state, &tocker, &[plain('c'), ctrl('h')]);
    assert_eq!(state.commands(), "Available commands for container: \n l = ls, r = rm, s = stop");
    assert_eq!(state.stage(), Stage::Command { kind: Container });
    run(&mut state, &tocker, &[plain('s'), ctrl('h')]);
    assert_eq!(state.commands(), TARGET_COMMANDS);
    assert_eq!(state.stage(), Stage::Target { kind: Container, command: STOP });
    assert_eq!(state.list().len(), 3);
}

#[test]
fn clean_empties_the_list_and_keeps_the_moment() {
    let (tocker, mut state) = with_images();
    run(&mut state, &tocker, &[plain('i'), ctrl('l')]);
    assert_eq!(state.list().len(), 0);
    assert_eq!(state.list().cursor(), 0);
    assert_eq!(state.stage(), Stage::Command { kind: Image });
    assert_eq!(state.commands(), "Available commands for image: \n l = ls, r = rm, t = tag");
}

#[test]
fn clean_in_the_list_keeps_choosing() {
    let (tocker, mut state) = with_images();
    run(&mut state, &tocker, &[plain('i'), plain('r'), plain('j'), plain(' '), ctrl('l')]);
    assert_eq!(state.list().len(), 0);
    assert_eq!(state.list().cursor(), 0);
    assert_eq!(state.moment(), Moment::TARGET);
    let effect = state.step(&tocker, code(KeyCode::Enter));
    assert_eq!(prompt_of(&effect), (Image, RM, String::new()));
}

#[test]
fn wrong_key_while_a_kind_is_awaited_is_reported() {
    let (tocker, mut state) = with_images();
    assert_eq!(state.step(&tocker, plain('x')), Effect::Wait);
    assert_eq!(state.moment(), Moment::KIND);
    assert_eq!(texts(&state).last().unwrap(), "Press only the available keys");
    assert_eq!(state.list().len(), 4);
    assert_eq!(state.step(&tocker, plain('i')), Effect::Wait);
    assert_eq!(state.moment(), Moment::COMMAND);
}

#[test]
fn wrong_key_while_a_command_is_awaited_keeps_the_kind() {
    let (tocker, mut state) = with_images();
    run(&mut state, &tocker, &[plain('c'), plain('x')]);
    assert_eq!(state.stage(), Stage::Command { kind: Container });
    assert_eq!(state.commands(), "Available commands for container: \n l = ls, r = rm, s = stop");
    assert_eq!(texts(&state).last().unwrap(), "Press only the available keys");
    run(&mut state, &tocker, &[plain('i')]);
    assert_eq!(state.stage(), Stage::Command { kind: Container });
    assert_eq!(state.list().len(), 5);
    let effect = state.step(&tocker, plain('l'));
    assert_eq!(prompt_of(&effect), (Container, LS, String::new()));
}

#[test]
fn wrong_key_in_the_list_ends_the_cycle() {
    let (tocker, mut state) = with_images();
    let effects = run(
        &mut state,
        &tocker,
        &[plain('i'), plain('r'), plain('j'), plain(' '), plain('x')],
    );
    assert_eq!(effects, waits(5));
    assert_eq!(state.moment(), Moment::KIND);
    assert_eq!(state.list().cursor(), 0);
    assert_eq!(marks(&state), vec![false, false, false, false]);
    assert_eq!(texts(&state).last().unwrap(), "Invalid key input for selection");
    assert_eq!(state.commands(), INITIAL_COMMANDS);
}

#[test]
fn command_that_the_kind_does_not_admit_is_refused() {
    let (tocker, mut state) = with_images();
    let effects = run(&mut state, &tocker, &[plain('c'), plain('t')]);
    assert_eq!(effects, waits(2));
    assert_eq!(state.moment(), Moment::KIND);
    assert_eq!(state.commands(), INITIAL_COMMANDS);
    assert_eq!(texts(&state).last().unwrap(), "Not valid inputs");
    assert_eq!(state.list().len(), 4);
}

#[test]
fn no_pair_outside_the_table_is_ever_run() {
    let tocker = Tocker::new();
    for kind_key in ['i', 'c', 'v'] {
        for command_key in ['l', 'r', 's', 't'] {
            let mut state = AppState::new();
            state.show(IMAGES);
            let mut effects = run(&mut state, &tocker, &[plain(kind_key), plain(command_key)]);
            if state.moment() == Moment::TARGET {
                effects.push(state.step(&tocker, code(KeyCode::Enter)));
            }
            for effect in effects {
                if let Effect::Execute(prompt) = effect {
                    assert!(tocker.is_allowed(&prompt.kind(), &prompt.command()));
                }
            }
            assert_eq!(state.moment(), Moment::KIND);
        }
    }
    let mut state = AppState::new();
    assert_eq!(run(&mut state, &tocker, &[plain('v'), plain('s')]), waits(2));
    assert_eq!(run(&mut state, &tocker, &[plain('v'), plain('t')]), waits(2));
    assert_eq!(run(&mut state, &tocker, &[plain('i'), plain('s')]), waits(2));
}

#[test]
fn event_that_is_no_key_is_reported() {
    let (tocker, mut state) = with_images();
    run(&mut state, &tocker, &[plain('i')]);
    assert_eq!(state.step(&tocker, Event::Other), Effect::Wait);
    assert_eq!(state.moment(), Moment::KIND);
    assert_eq!(texts(&state).last().unwrap(), "Press a valid key");
    assert_eq!(state.commands(), INITIAL_COMMANDS);
}

#[test]
fn show_replaces_the_rows_and_starts_again() {
    let (tocker, mut state) = with_images();
    run(&mut state, &tocker, &[plain('i'), plain('r'), plain('j'), plain(' '), plain('j')]);
    state.show("NAME\nx\ny\nz\n");
    assert_eq!(texts(&state), vec!["NAME", "x", "y", "z"]);
    assert_eq!(marks(&state), vec![false; 4]);
    assert_eq!(state.list().cursor(), 0);
    assert_eq!(state.moment(), Moment::KIND);
    assert_eq!(state.commands(), INITIAL_COMMANDS);
}

#[test]
fn fail_adds_a_row_and_starts_again() {
    let (tocker, mut state) = with_images();
    run(&mut state, &tocker, &[plain('i'), plain('r'), plain('j'), plain(' ')]);
    state.fail(TockerError::SubprocessFailure);
    assert_eq!(state.moment(), Moment::KIND);
    assert_eq!(texts(&state).last().unwrap(), "Command failed");
    assert_eq!(marks(&state), vec![false; 4]);
    assert_eq!(state.list().cursor(), 0);
}

#[test]
fn fail_is_silent_when_the_user_cancelled() {
    let (tocker, mut state) = with_images();
    run(&mut state, &tocker, &[plain('i')]);
    state.fail(TockerError::UserCancelled);
    assert_eq!(state.moment(), Moment::KIND);
    assert_eq!(state.list().len(), 3);
}

#[test]
fn go_to_first_starts_a_new_cycle() {
    let (tocker, mut state) = with_images();
    run(&mut state, &tocker, &[plain('c'), plain('s'), plain('j'), plain(' ')]);
    state.go_to_first();
    assert_eq!(state.stage(), Stage::Kind);
    assert_eq!(state.commands(), INITIAL_COMMANDS);
    assert_eq!(state.list().cursor(), 0);
    assert_eq!(marks(&state), vec![false; 3]);
    assert_eq!(texts(&state).len(), 3);
}
