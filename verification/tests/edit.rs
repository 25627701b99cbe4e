use nova_config::edit::{advance, begin, pending, EditAction, EditEvent, EditReport, EditStage, EditState};
use nova_config::error::{ConfigError, Key};
use nova_config::record::Config;
use nova_config::store::Store;

fn text(value: &str) -> String {
    value.to_string()
}

fn record(filename: &str, shorthand: &str, content: &str) -> Config {
    Config::new(text(filename), text(shorthand), text(content))
}

fn sample() -> Store {
    let mut store = Store::new();
    store.insert(record("a.conf", "a", "alpha")).unwrap();
    store.insert(record("b.conf", "b", "beta")).unwrap();
    store
}

fn exited(code: Option<i32>, status: &str) -> EditEvent {
    EditEvent::Exited { code, status: text(status) }
}

fn aborted(stage: EditStage, filename: &str, error: ConfigError) -> (EditState, EditAction) {
    (
        EditState::Idle,
        EditAction::Report(EditReport::Aborted { stage, filename: text(filename), error }),
    )
}

/// Runs a session on `filename` in which every stage succeeds and the
/// editor leaves `edited`, applying the update to the store when asked.
fn edit_session(store: &mut Store, filename: &str, edited: &str) -> (Vec<EditAction>, EditState) {
    session_with_exit(store, filename, edited, Some(0))
}

/// Runs a session on `filename` in which the editor leaves `edited` and
/// exits with `code`; every other stage succeeds.
fn session_with_exit(
    store: &mut Store,
    filename: &str,
    edited: &str,
    code: Option<i32>,
) -> (Vec<EditAction>, EditState) {
    let (mut state, mut action) = begin(store, &text(filename));
    let mut actions = Vec::new();
    loop {
        let event = match &action {
            EditAction::Nothing | EditAction::Report(_) => {
                actions.push(action);
                return (actions, state);
            }
            EditAction::ReadFile { .. } => EditEvent::Read(text(edited)),
            EditAction::Wait => exited(code, "the editor has exited"),
            EditAction::UpdateContent { filename, content } => {
                match store.update_content(filename, content.clone()) {
                    Ok(()) => EditEvent::Done,
                    Err(_) => EditEvent::Failed(text("no such record")),
                }
            }
            _ => EditEvent::Done,
        };
        actions.push(action);
        let next = advance(state, event);
        state = next.0;
        action = next.1;
    }
}

#[test]
fn begin_on_unknown_filename_aborts_at_lookup() {
    let store = sample();
    assert_eq!(
        begin(&store, &text("z.conf")),
        aborted(EditStage::Lookup, "z.conf", ConfigError::NotFound(Key::Filename))
    );
}

#[test]
fn begin_looks_up_by_filename_not_by_shorthand() {
    let store = sample();
    assert_eq!(
        begin(&store, &text("a")),
        aborted(EditStage::Lookup, "a", ConfigError::NotFound(Key::Filename))
    );
}

#[test]
fn begin_stages_the_content_beside_the_file() {
    let store = sample();
    assert_eq!(
        begin(&store, &text("a.conf")),
        (
            EditState::WriteTemp { record: record("a.conf", "a", "alpha") },
            EditAction::WriteFile { path: text("a.conf.temp"), content: text("alpha") },
        )
    );
}

#[test]
fn stages_follow_each_other_on_success() {
    let rec = record("a.conf", "a", "alpha");
    assert_eq!(
        advance(EditState::WriteTemp { record: rec.clone() }, EditEvent::Done),
        (
            EditState::SpawnEditor { record: rec.clone() },
            EditAction::Spawn { path: text("a.conf.temp") },
        )
    );
    assert_eq!(
        advance(EditState::SpawnEditor { record: rec.clone() }, EditEvent::Done),
        (EditState::WaitEditor { record: rec.clone() }, EditAction::Wait)
    );
    assert_eq!(
        advance(EditState::WaitEditor { record: rec.clone() }, exited(Some(0), "exit status: 0")),
        (
            EditState::ReadTemp { record: rec.clone() },
            EditAction::ReadFile { path: text("a.conf.temp") },
        )
    );
    assert_eq!(
        advance(EditState::ReadTemp { record: rec.clone() }, EditEvent::Read(text("new"))),
        (
            EditState::RemoveTemp { record: rec.clone(), edited: text("new") },
            EditAction::RemoveFile { path: text("a.conf.temp") },
        )
    );
    assert_eq!(
        advance(
            EditState::RemoveTemp { record: rec.clone(), edited: text("new") },
            EditEvent::Done
        ),
        (
            EditState::Persist { record: rec.clone(), edited: text("new") },
            EditAction::UpdateContent { filename: text("a.conf"), content: text("new") },
        )
    );
    assert_eq!(
        advance(EditState::Persist { record: rec, edited: text("new") }, EditEvent::Done),
        (
            EditState::Idle,
            EditAction::Report(EditReport::Updated { filename: text("a.conf") }),
        )
    );
}

#[test]
fn identical_content_ends_with_no_changes() {
    let rec = record("a.conf", "a", "alpha");
    assert_eq!(
        advance(EditState::RemoveTemp { record: rec, edited: text("alpha") }, EditEvent::Done),
        (
            EditState::Idle,
            EditAction::Report(EditReport::NoChanges { filename: text("a.conf") }),
        )
    );
}

#[test]
fn write_temp_failure_aborts_with_io_error() {
    let rec = record("a.conf", "a", "alpha");
    assert_eq!(
        advance(EditState::WriteTemp { record: rec }, EditEvent::Failed(text("read-only"))),
        aborted(EditStage::WriteTemp, "a.conf", ConfigError::Io(text("read-only")))
    );
}

#[test]
fn spawn_failure_aborts_with_process_error() {
    let rec = record("a.conf", "a", "alpha");
    assert_eq!(
        advance(EditState::SpawnEditor { record: rec }, EditEvent::Failed(text("not found"))),
        aborted(EditStage::SpawnEditor, "a.conf", ConfigError::Process(text("not found")))
    );
}

#[test]
fn wait_failure_aborts_with_process_error() {
    let rec = record("a.conf", "a", "alpha");
    assert_eq!(
        advance(EditState::WaitEditor { record: rec }, EditEvent::Failed(text("interrupted"))),
        aborted(EditStage::WaitEditor, "a.conf", ConfigError::Process(text("interrupted")))
    );
}

#[test]
fn editor_exit_with_nonzero_code_aborts_with_process_error() {
    let rec = record("a.conf", "a", "alpha");
    assert_eq!(
        advance(EditState::WaitEditor { record: rec.clone() }, exited(Some(1), "exit status: 1")),
        aborted(EditStage::WaitEditor, "a.conf", ConfigError::Process(text("exit status: 1")))
    );
    assert_eq!(
        advance(EditState::WaitEditor { record: rec }, exited(Some(-1), "exit status: -1")),
        aborted(EditStage::WaitEditor, "a.conf", ConfigError::Process(text("exit status: -1")))
    );
}

#[test]
fn editor_exit_without_code_aborts_with_process_error() {
    let rec = record("a.conf", "a", "alpha");
    assert_eq!(
        advance(EditState::WaitEditor { record: rec }, exited(None, "signal: 9 (SIGKILL)")),
        aborted(
            EditStage::WaitEditor,
            "a.conf",
            ConfigError::Process(text("signal: 9 (SIGKILL)"))
        )
    );
}

#[test]
fn abnormal_editor_exit_leaves_the_store_unchanged() {
    let mut store = sample();
    let before = store.list();
    let (actions, state) = session_with_exit(&mut store, "a.conf", "alpha, edited", Some(2));
    assert_eq!(state, EditState::Idle);
    assert_eq!(
        actions,
        vec![
            EditAction::WriteFile { path: text("a.conf.temp"), content: text("alpha") },
            EditAction::Spawn { path: text("a.conf.temp") },
            EditAction::Wait,
            EditAction::Report(EditReport::Aborted {
                stage: EditStage::WaitEditor,
                filename: text("a.conf"),
                error: ConfigError::Process(text("the editor has exited")),
            }),
        ]
    );
    assert_eq!(store.list(), before);
}

#[test]
fn exit_is_awaited_only_while_the_editor_runs() {
    let rec = record("a.conf", "a", "alpha");
    assert_eq!(
        advance(EditState::WaitEditor { record: rec.clone() }, EditEvent::Done),
        (EditState::WaitEditor { record: rec.clone() }, EditAction::Wait)
    );
    assert_eq!(
        advance(EditState::SpawnEditor { record: rec.clone() }, exited(Some(0), "exit status: 0")),
        (
            EditState::SpawnEditor { record: rec.clone() },
            EditAction::Spawn { path: text("a.conf.temp") },
        )
    );
    assert_eq!(
        advance(
            EditState::Persist { record: rec.clone(), edited: text("new") },
            exited(Some(1), "exit status: 1")
        ),
        (
            EditState::Persist { record: rec, edited: text("new") },
            EditAction::UpdateContent { filename: text("a.conf"), content: text("new") },
        )
    );
    assert_eq!(
        advance(EditState::Idle, exited(Some(1), "exit status: 1")),
        (EditState::Idle, EditAction::Nothing)
    );
}

#[test]
fn read_temp_failure_aborts_without_asking_for_removal() {
    let rec = record("a.conf", "a", "alpha");
    let (state, action) =
        advance(EditState::ReadTemp { record: rec }, EditEvent::Failed(text("bad utf-8")));
    assert_eq!(
        (state, action),
        aborted(EditStage::ReadTemp, "a.conf", ConfigError::Io(text("bad utf-8")))
    );
    assert_eq!(advance(EditState::Idle, EditEvent::Done), (EditState::Idle, EditAction::Nothing));
}

#[test]
fn remove_temp_failure_aborts_before_comparing() {
    let rec = record("a.conf", "a", "alpha");
    assert_eq!(
        advance(
            EditState::RemoveTemp { record: rec, edited: text("new") },
            EditEvent::Failed(text("busy"))
        ),
        aborted(EditStage::RemoveTemp, "a.conf", ConfigError::Io(text("busy")))
    );
}

#[test]
fn persist_failure_aborts_with_persistence_error() {
    let rec = record("a.conf", "a", "alpha");
    assert_eq!(
        advance(
            EditState::Persist { record: rec, edited: text("new") },
            EditEvent::Failed(text("locked"))
        ),
        aborted(EditStage::Persist, "a.conf", ConfigError::Persistence(text("locked")))
    );
}

#[test]
fn unexpected_event_keeps_the_state_and_repeats_the_action() {
    let rec = record("a.conf", "a", "alpha");
    assert_eq!(
        advance(EditState::WriteTemp { record: rec.clone() }, EditEvent::Read(text("x"))),
        (
            EditState::WriteTemp { record: rec.clone() },
            EditAction::WriteFile { path: text("a.conf.temp"), content: text("alpha") },
        )
    );
    assert_eq!(
        advance(EditState::ReadTemp { record: rec.clone() }, EditEvent::Done),
        (
            EditState::ReadTemp { record: rec.clone() },
            EditAction::ReadFile { path: text("a.conf.temp") },
        )
    );
    assert_eq!(
        advance(EditState::WaitEditor { record: rec.clone() }, EditEvent::Read(text("x"))),
        (EditState::WaitEditor { record: rec }, EditAction::Wait)
    );
}

#[test]
fn idle_ignores_every_event() {
    assert_eq!(advance(EditState::Idle, EditEvent::Done), (EditState::Idle, EditAction::Nothing));
    assert_eq!(
        advance(EditState::Idle, EditEvent::Read(text("x"))),
        (EditState::Idle, EditAction::Nothing)
    );
    assert_eq!(
        advance(EditState::Idle, EditEvent::Failed(text("x"))),
        (EditState::Idle, EditAction::Nothing)
    );
}

#[test]
fn pending_names_the_action_of_each_state() {
    let rec = record("dir/a.conf", "a", "alpha");
    assert_eq!(pending(&EditState::Idle), EditAction::Nothing);
    assert_eq!(
        pending(&EditState::WriteTemp { record: rec.clone() }),
        EditAction::WriteFile { path: text("dir/a.conf.temp"), content: text("alpha") }
    );
    assert_eq!(
        pending(&EditState::SpawnEditor { record: rec.clone() }),
        EditAction::Spawn { path: text("dir/a.conf.temp") }
    );
    assert_eq!(pending(&EditState::WaitEditor { record: rec.clone() }), EditAction::Wait);
    assert_eq!(
        pending(&EditState::ReadTemp { record: rec.clone() }),
        EditAction::ReadFile { path: text("dir/a.conf.temp") }
    );
    assert_eq!(
        pending(&EditState::RemoveTemp { record: rec.clone(), edited: text("new") }),
        EditAction::RemoveFile { path: text("dir/a.conf.temp") }
    );
    assert_eq!(
        pending(&EditState::Persist { record: rec, edited: text("new") }),
        EditAction::UpdateContent { filename: text("dir/a.conf"), content: text("new") }
    );
}

#[test]
fn noop_edit_leaves_the_store_unchanged() {
    let mut store = sample();
    let before = store.list();
    let (actions, state) = edit_session(&mut store, "a.conf", "alpha");
    assert_eq!(state, EditState::Idle);
    assert_eq!(
        actions,
        vec![
            EditAction::WriteFile { path: text("a.conf.temp"), content: text("alpha") },
            EditAction::Spawn { path: text("a.conf.temp") },
            EditAction::Wait,
            EditAction::ReadFile { path: text("a.conf.temp") },
            EditAction::RemoveFile { path: text("a.conf.temp") },
            EditAction::Report(EditReport::NoChanges { filename: text("a.conf") }),
        ]
    );
    assert_eq!(store.list(), before);
}

#[test]
fn changed_edit_updates_the_record_and_reports_once() {
    let mut store = sample();
    let (actions, state) = edit_session(&mut store, "a.conf", "alpha, edited");
    assert_eq!(state, EditState::Idle);
    assert_eq!(
        actions,
        vec![
            EditAction::WriteFile { path: text("a.conf.temp"), content: text("alpha") },
            EditAction::Spawn { path: text("a.conf.temp") },
            EditAction::Wait,
            EditAction::ReadFile { path: text("a.conf.temp") },
            EditAction::RemoveFile { path: text("a.conf.temp") },
            EditAction::UpdateContent { filename: text("a.conf"), content: text("alpha, edited") },
            EditAction::Report(EditReport::Updated { filename: text("a.conf") }),
        ]
    );
    assert_eq!(
        store.list(),
        vec![record("a.conf", "a", "alpha, edited"), record("b.conf", "b", "beta")]
    );
}

#[test]
fn edit_to_empty_content_counts_as_a_change() {
    let mut store = sample();
    let (actions, _) = edit_session(&mut store, "b.conf", "");
    assert_eq!(
        actions.last(),
        Some(&EditAction::Report(EditReport::Updated { filename: text("b.conf") }))
    );
    assert_eq!(store.find_by_filename(&text("b.conf")), Ok(&record("b.conf", "b", "")));
}

#[test]
fn edit_of_unknown_filename_reports_and_touches_nothing() {
    let mut store = sample();
    let before = store.list();
    let (actions, state) = edit_session(&mut store, "z.conf", "anything");
    assert_eq!(state, EditState::Idle);
    assert_eq!(
        actions,
        vec![EditAction::Report(EditReport::Aborted {
            stage: EditStage::Lookup,
            filename: text("z.conf"),
            error: ConfigError::NotFound(Key::Filename),
        })]
    );
    assert_eq!(store.list(), before);
}
