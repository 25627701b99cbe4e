//! Editing a record in place through an external editor.
//!
//! The content of the record is staged in a file beside it, the editor runs
//! on that file, the file is read back and removed, and the registry is
//! written only if the text has changed. The work on files and processes is
//! done by the caller; this module decides. [`begin`] looks the record up and
//! hands out the first action, and [`advance`] takes the outcome of each
//! action and hands out the next, until a report ends the session.

use vstd::prelude::*;
use vstd::string::StringExecFns;
use crate::error::{ConfigError, ErrorView, Key};
use crate::record::{Config, ConfigView};
use crate::store::{has_filename, named, Store};

verus! {

/// The stages of an editing session, in the order in which they are passed.
#[derive(Debug, Clone, Copy, PartialEq, Eq, Structural)]
pub enum EditStage {
    Lookup,
    WriteTemp,
    SpawnEditor,
    WaitEditor,
    ReadTemp,
    RemoveTemp,
    Persist,
}

/// Where a session stands: the stage whose outcome is awaited, with what
/// was gathered so far.
#[derive(Debug, PartialEq, Eq)]
pub enum EditState {
    /// No session is running.
    Idle,
    /// The text of `record` is being written to the staging file.
    WriteTemp { record: Config },
    /// The editor is being started on the staging file.
    SpawnEditor { record: Config },
    /// The editor runs.
    WaitEditor { record: Config },
    /// The staging file is being read back.
    ReadTemp { record: Config },
    /// The staging file held `edited` and is being removed.
    RemoveTemp { record: Config, edited: String },
    /// `edited` differs from the text of `record` and is being written to
    /// the registry.
    Persist { record: Config, edited: String },
}

/// The outcome of an action, as the caller reports it.
#[derive(Debug, PartialEq, Eq)]
pub enum EditEvent {
    /// The action succeeded and yields nothing.
    Done,
    /// The editor has exited. `code` is its exit code, `None` where it was
    /// ended without one (by a signal); `status` words the exit.
    Exited { code: Option<i32>, status: String },
    /// The staging file was read and held this text.
    Read(String),
    /// The action failed, for the cause given.
    Failed(String),
}

/// How a session ended.
#[derive(Debug, PartialEq, Eq)]
pub enum EditReport {
    /// The text came back as it was; the registry was not written.
    NoChanges { filename: String },
    /// The text had changed and the registry holds the new text.
    Updated { filename: String },
    /// The session stopped at `stage`; nothing after that stage was done.
    Aborted { stage: EditStage, filename: String, error: ConfigError },
}

/// What the caller is asked to do next.
#[derive(Debug, PartialEq, Eq)]
pub enum EditAction {
    /// Nothing: no session is running.
    Nothing,
    /// Write `content` to the file at `path`.
    WriteFile { path: String, content: String },
    /// Start the editor on the file at `path`.
    Spawn { path: String },
    /// Wait until the editor has exited, and say how it did.
    Wait,
    /// Read the file at `path` as text.
    ReadFile { path: String },
    /// Remove the file at `path`.
    RemoveFile { path: String },
    /// Replace the payload of the record named `filename` in the registry.
    UpdateContent { filename: String, content: String },
    /// Tell the user how the session ended. The session is over.
    Report(EditReport),
}

/// The model of an [`EditState`].
pub enum StateView {
    Idle,
    WriteTemp { record: ConfigView },
    SpawnEditor { record: ConfigView },
    WaitEditor { record: ConfigView },
    ReadTemp { record: ConfigView },
    RemoveTemp { record: ConfigView, edited: Seq<char> },
    Persist { record: ConfigView, edited: Seq<char> },
}

/// The model of an [`EditEvent`].
pub enum EventView {
    Done,
    Exited { code: Option<i32>, status: Seq<char> },
    Read(Seq<char>),
    Failed(Seq<char>),
}

/// The model of an [`EditReport`].
pub enum ReportView {
    NoChanges { filename: Seq<char> },
    Updated { filename: Seq<char> },
    Aborted { stage: EditStage, filename: Seq<char>, error: ErrorView },
}

/// The model of an [`EditAction`].
pub enum ActionView {
    Nothing,
    WriteFile { path: Seq<char>, content: Seq<char> },
    Spawn { path: Seq<char> },
    Wait,
    ReadFile { path: Seq<char> },
    RemoveFile { path: Seq<char> },
    UpdateContent { filename: Seq<char>, content: Seq<char> },
    Report(ReportView),
}

impl View for EditState {
    type V = StateView;

    open spec fn view(&self) -> StateView {
        match *self {
            EditState::Idle => StateView::Idle,
            EditState::WriteTemp { record } => StateView::WriteTemp { record: record@ },
            EditState::SpawnEditor { record } => StateView::SpawnEditor { record: record@ },
            EditState::WaitEditor { record } => StateView::WaitEditor { record: record@ },
            EditState::ReadTemp { record } => StateView::ReadTemp { record: record@ },
            EditState::RemoveTemp { record, edited } => StateView::RemoveTemp {
                record: record@,
                edited: edited@,
            },
            EditState::Persist { record, edited } => StateView::Persist {
                record: record@,
                edited: edited@,
            },
        }
    }
}

impl View for EditEvent {
    type V = EventView;

    open spec fn view(&self) -> EventView {
        match *self {
            EditEvent::Done => EventView::Done,
            EditEvent::Exited { code, status } => EventView::Exited { code, status: status@ },
            EditEvent::Read(text) => EventView::Read(text@),
            EditEvent::Failed(cause) => EventView::Failed(cause@),
        }
    }
}

impl View for EditReport {
    type V = ReportView;

    open spec fn view(&self) -> ReportView {
        match *self {
            EditReport::NoChanges { filename } => ReportView::NoChanges { filename: filename@ },
            EditReport::Updated { filename } => ReportView::Updated { filename: filename@ },
            EditReport::Aborted { stage, filename, error } => ReportView::Aborted {
                stage,
                filename: filename@,
                error: error@,
            },
        }
    }
}

impl View for EditAction {
    type V = ActionView;

    open spec fn view(&self) -> ActionView {
        match *self {
            EditAction::Nothing => ActionView::Nothing,
            EditAction::WriteFile { path, content } => ActionView::WriteFile {
                path: path@,
                content: content@,
            },
            EditAction::Spawn { path } => ActionView::Spawn { path: path@ },
            EditAction::Wait => ActionView::Wait,
            EditAction::ReadFile { path } => ActionView::ReadFile { path: path@ },
            EditAction::RemoveFile { path } => ActionView::RemoveFile { path: path@ },
            EditAction::UpdateContent { filename, content } => ActionView::UpdateContent {
                filename: filename@,
                content: content@,
            },
            EditAction::Report(report) => ActionView::Report(report@),
        }
    }
}

/// The path of the staging file of the record named `filename`: the name
/// with `.temp` behind it.
pub open spec fn temp_path(filename: Seq<char>) -> Seq<char> {
    filename + ".temp"@
}

/// The action whose outcome `state` awaits.
pub open spec fn awaited(state: StateView) -> ActionView {
    match state {
        StateView::Idle => ActionView::Nothing,
        StateView::WriteTemp { record } => ActionView::WriteFile {
            path: temp_path(record.filename),
            content: record.content,
        },
        StateView::SpawnEditor { record } => ActionView::Spawn { path: temp_path(record.filename) },
        StateView::WaitEditor { record } => ActionView::Wait,
        StateView::ReadTemp { record } => ActionView::ReadFile { path: temp_path(record.filename) },
        StateView::RemoveTemp { record, edited } => ActionView::RemoveFile {
            path: temp_path(record.filename),
        },
        StateView::Persist { record, edited } => ActionView::UpdateContent {
            filename: record.filename,
            content: edited,
        },
    }
}

/// Going on to `state`: its action is handed out.
pub open spec fn proceed(state: StateView) -> (StateView, ActionView) {
    (state, awaited(state))
}

/// Ending the session with `report`.
pub open spec fn finish(report: ReportView) -> (StateView, ActionView) {
    (StateView::Idle, ActionView::Report(report))
}

/// Ending the session because `stage` failed with `error`.
pub open spec fn abort(stage: EditStage, filename: Seq<char>, error: ErrorView) -> (
    StateView,
    ActionView,
) {
    finish(ReportView::Aborted { stage, filename, error })
}

/// The first step of a session on the record named `filename`: without such
/// a record the session ends at once, with it the record's text is staged.
pub open spec fn start(records: Seq<ConfigView>, filename: Seq<char>) -> (StateView, ActionView) {
    if has_filename(records, filename) {
        proceed(StateView::WriteTemp { record: named(records, filename) })
    } else {
        abort(EditStage::Lookup, filename, ErrorView::NotFound(Key::Filename))
    }
}

/// One step of a session: the state and action that follow when `event`
/// arrives in `state`.
///
/// A success leads to the next stage; a failure ends the session with a
/// report that names the stage and the cause. The editor has succeeded
/// only if it exited with the code 0: any other code, or an exit without a
/// code, ends the session as a failed process, and the staging file is not
/// read. When the staging file cannot be read it is left behind: no removal
/// is asked for. Once the file is
/// removed, the text read is held against the record's: equal texts end the
/// session without a write, different ones ask for the update. An event
/// that the state does not await changes nothing, and the awaited action is
/// handed out again.
pub open spec fn step(state: StateView, event: EventView) -> (StateView, ActionView) {
    match (state, event) {
        (StateView::WriteTemp { record }, EventView::Done) => proceed(
            StateView::SpawnEditor { record },
        ),
        (StateView::WriteTemp { record }, EventView::Failed(cause)) => abort(
            EditStage::WriteTemp,
            record.filename,
            ErrorView::Io(cause),
        ),
        (StateView::SpawnEditor { record }, EventView::Done) => proceed(
            StateView::WaitEditor { record },
        ),
        (StateView::SpawnEditor { record }, EventView::Failed(cause)) => abort(
            EditStage::SpawnEditor,
            record.filename,
            ErrorView::Process(cause),
        ),
        (StateView::WaitEditor { record }, EventView::Exited { code, status }) => if code
            == Some(0i32) {
            proceed(StateView::ReadTemp { record })
        } else {
            abort(EditStage::WaitEditor, record.filename, ErrorView::Process(status))
        },
        (StateView::WaitEditor { record }, EventView::Failed(cause)) => abort(
            EditStage::WaitEditor,
            record.filename,
            ErrorView::Process(cause),
        ),
        (StateView::ReadTemp { record }, EventView::Read(text)) => proceed(
            StateView::RemoveTemp { record, edited: text },
        ),
        (StateView::ReadTemp { record }, EventView::Failed(cause)) => abort(
            EditStage::ReadTemp,
            record.filename,
            ErrorView::Io(cause),
        ),
        (StateView::RemoveTemp { record, edited }, EventView::Done) => if edited
            == record.content {
            finish(ReportView::NoChanges { filename: record.filename })
        } else {
            proceed(StateView::Persist { record, edited })
        },
        (StateView::RemoveTemp { record, edited }, EventView::Failed(cause)) => abort(
            EditStage::RemoveTemp,
            record.filename,
            ErrorView::Io(cause),
        ),
        (StateView::Persist { record, edited }, EventView::Done) => finish(
            ReportView::Updated { filename: record.filename },
        ),
        (StateView::Persist { record, edited }, EventView::Failed(cause)) => abort(
            EditStage::Persist,
            record.filename,
            ErrorView::Persistence(cause),
        ),
        _ => proceed(state),
    }
}

/// A whole session: the state reached from `state` when `events` arrive one
/// after the other, and the actions handed out on the way, in their order.
pub open spec fn run(state: StateView, events: Seq<EventView>) -> (StateView, Seq<ActionView>)
    decreases events.len(),
{
    if events.len() == 0 {
        (state, Seq::<ActionView>::empty())
    } else {
        let next = step(state, events.first());
        let rest = run(next.0, events.drop_first());
        (rest.0, seq![next.1] + rest.1)
    }
}

/// The outcomes of a session in which no stage fails, up to the removal of
/// the staging file: the file is written, the editor starts and exits with
/// the code 0, worded as `status`, the file holds `edited` and is removed.
pub open spec fn smooth(edited: Seq<char>, status: Seq<char>) -> Seq<EventView> {
    seq![
        EventView::Done,
        EventView::Done,
        EventView::Exited { code: Some(0i32), status },
        EventView::Read(edited),
        EventView::Done,
    ]
}

/// The outcomes of a session in which the editor starts on the staged text
/// and then exits as `code` and `status` say.
pub open spec fn until_exit(code: Option<i32>, status: Seq<char>) -> Seq<EventView> {
    seq![EventView::Done, EventView::Done, EventView::Exited { code, status }]
}

/// The path of the staging file of `record`.
fn staging_path(record: &Config) -> (path: String)
    ensures
        path@ == temp_path(record@.filename),
{
    let mut path = record.filename.clone();
    path.append(".temp");
    path
}

/// The action that `state` awaits the outcome of.
pub fn pending(state: &EditState) -> (action: EditAction)
    ensures
        action@ == awaited(state@),
{
    match state {
        EditState::Idle => EditAction::Nothing,
        EditState::WriteTemp { record } => EditAction::WriteFile {
            path: staging_path(record),
            content: record.content.clone(),
        },
        EditState::SpawnEditor { record } => EditAction::Spawn { path: staging_path(record) },
        EditState::WaitEditor { record } => EditAction::Wait,
        EditState::ReadTemp { record } => EditAction::ReadFile { path: staging_path(record) },
        EditState::RemoveTemp { record, edited } => EditAction::RemoveFile {
            path: staging_path(record),
        },
        EditState::Persist { record, edited } => EditAction::UpdateContent {
            filename: record.filename.clone(),
            content: edited.clone(),
        },
    }
}

/// Goes on to `state` and hands out its action.
fn go_on(state: EditState) -> (next: (EditState, EditAction))
    ensures
        (next.0@, next.1@) == proceed(state@),
        next.0 == state,
{
    let action = pending(&state);
    (state, action)
}

/// Ends the session because `stage` failed with `error`.
fn stop(stage: EditStage, filename: String, error: ConfigError) -> (next: (EditState, EditAction))
    ensures
        (next.0@, next.1@) == abort(stage, filename@, error@),
{
    (EditState::Idle, EditAction::Report(EditReport::Aborted { stage, filename, error }))
}

/// Opens a session on the record named `filename`.
///
/// Without such a record the session is over at once, with a report that
/// the lookup found nothing. With it, the session awaits the staging of the
/// record's text in the file `filename` with `.temp` behind it.
pub fn begin(store: &Store, filename: &String) -> (next: (EditState, EditAction))
    ensures
        (next.0@, next.1@) == start(store@, filename@),
{
    match store.find_by_filename(filename) {
        Ok(record) => go_on(EditState::WriteTemp { record: record.clone() }),
        Err(error) => stop(EditStage::Lookup, filename.clone(), error),
    }
}

/// Takes the outcome of the action that `state` awaited and hands out the
/// state and the action that follow, as [`step`] defines them.
pub fn advance(state: EditState, event: EditEvent) -> (next: (EditState, EditAction))
    ensures
        (next.0@, next.1@) == step(state@, event@),
{
    match state {
        EditState::Idle => go_on(EditState::Idle),
        EditState::WriteTemp { record } => match event {
            EditEvent::Done => go_on(EditState::SpawnEditor { record }),
            EditEvent::Failed(cause) => stop(
                EditStage::WriteTemp,
                record.filename,
                ConfigError::Io(cause),
            ),
            _ => go_on(EditState::WriteTemp { record }),
        },
        EditState::SpawnEditor { record } => match event {
            EditEvent::Done => go_on(EditState::WaitEditor { record }),
            EditEvent::Failed(cause) => stop(
                EditStage::SpawnEditor,
                record.filename,
                ConfigError::Process(cause),
            ),
            _ => go_on(EditState::SpawnEditor { record }),
        },
        EditState::WaitEditor { record } => match event {
            EditEvent::Exited { code, status } => {
                let succeeded = match code {
                    Some(value) => value == 0,
                    None => false,
                };
                if succeeded {
                    go_on(EditState::ReadTemp { record })
                } else {
                    stop(EditStage::WaitEditor, record.filename, ConfigError::Process(status))
                }
            },
            EditEvent::Failed(cause) => stop(
                EditStage::WaitEditor,
                record.filename,
                ConfigError::Process(cause),
            ),
            _ => go_on(EditState::WaitEditor { record }),
        },
        EditState::ReadTemp { record } => match event {
            EditEvent::Read(text) => go_on(EditState::RemoveTemp { record, edited: text }),
            EditEvent::Failed(cause) => stop(
                EditStage::ReadTemp,
                record.filename,
                ConfigError::Io(cause),
            ),
            _ => go_on(EditState::ReadTemp { record }),
        },
        EditState::RemoveTemp { record, edited } => match event {
            EditEvent::Done => {
                if edited == record.content {
                    (
                        EditState::Idle,
                        EditAction::Report(EditReport::NoChanges { filename: record.filename }),
                    )
                } else {
                    go_on(EditState::Persist { record, edited })
                }
            },
            EditEvent::Failed(cause) => stop(
                EditStage::RemoveTemp,
                record.filename,
                ConfigError::Io(cause),
            ),
            _ => go_on(EditState::RemoveTemp { record, edited }),
        },
        EditState::Persist { record, edited } => match event {
            EditEvent::Done => (
                EditState::Idle,
                EditAction::Report(EditReport::Updated { filename: record.filename }),
            ),
            EditEvent::Failed(cause) => stop(
                EditStage::Persist,
                record.filename,
                ConfigError::Persistence(cause),
            ),
            _ => go_on(EditState::Persist { record, edited }),
        },
    }
}

} // verus!
