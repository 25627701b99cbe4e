//! What holds of the registry and its workflows taken together.

use vstd::prelude::*;
use crate::edit::{
    abort, awaited, finish, proceed, run, smooth, start, step, temp_path, until_exit, ActionView,
    EditStage, EventView, ReportView, StateView,
};
use crate::error::ErrorView;
use crate::export::{export_step, ExportStepView};
use crate::record::ConfigView;
use crate::removal::{removal_report, RemoveReportView};
use crate::store::{
    aliased, conflict_of, has_filename, has_shorthand, keys_unique, lemma_filter_keeps_all, named,
    with_content, without_filename,
};

verus! {

/// A record one of whose keys is taken is always refused, and a record
/// whose keys are both free never is.
pub proof fn law_conflict_iff_key_taken(records: Seq<ConfigView>, record: ConfigView)
    ensures
        conflict_of(records, record) is Some <==> has_filename(records, record.filename)
            || has_shorthand(records, record.shorthand),
{
}

/// Adding a record whose keys are free keeps the keys unique.
pub proof fn law_insert_keeps_keys_unique(records: Seq<ConfigView>, record: ConfigView)
    requires
        keys_unique(records),
        conflict_of(records, record) is None,
    ensures
        keys_unique(records.push(record)),
{
}

/// Removing a name that is not in the registry deletes nothing: the
/// registry stays as it is, and the report is that the name is unknown.
pub proof fn law_removing_unknown_is_noop(records: Seq<ConfigView>, filename: Seq<char>)
    requires
        !has_filename(records, filename),
    ensures
        without_filename(records, filename) == records,
        removal_report(filename, 0) == (RemoveReportView::Unknown { filename }),
{
    let pred = |record: ConfigView| record.filename != filename;
    lemma_filter_keeps_all(records, pred);
}

/// After a removal the name is gone, so removing it once more changes
/// nothing.
pub proof fn law_removal_idempotent(records: Seq<ConfigView>, filename: Seq<char>)
    ensures
        !has_filename(without_filename(records, filename), filename),
        without_filename(without_filename(records, filename), filename) == without_filename(
            records,
            filename,
        ),
{
    let pred = |record: ConfigView| record.filename != filename;
    let once = records.filter(pred);
    assert forall|i: int| 0 <= i < once.len() implies pred(#[trigger] once[i]) by {
        records.lemma_filter_pred(pred, i);
    }
    lemma_filter_keeps_all(once, pred);
}

/// A record that was taken in comes out again under its alias: the export
/// writes its payload to the file of its name.
pub proof fn law_round_trip(records: Seq<ConfigView>, record: ConfigView)
    requires
        keys_unique(records),
        conflict_of(records, record) is None,
    ensures
        export_step(records.push(record), record.shorthand) == (ExportStepView::Write {
            filename: record.filename,
            content: record.content,
        }),
{
    let after = records.push(record);
    assert(after[records.len() as int] == record);
    assert(has_shorthand(after, record.shorthand));
    let found = choose|i: int|
        0 <= i < after.len() && (#[trigger] after[i]).shorthand == record.shorthand;
    if found < records.len() {
        assert(after[found] == records[found]);
    }
    assert(aliased(after, record.shorthand) == record);
}

/// The actions of a session in which no stage fails, after the staging
/// file was asked for and up to its removal.
pub open spec fn staging_actions(filename: Seq<char>) -> Seq<ActionView> {
    seq![
        ActionView::Spawn { path: temp_path(filename) },
        ActionView::Wait,
        ActionView::ReadFile { path: temp_path(filename) },
        ActionView::RemoveFile { path: temp_path(filename) },
    ]
}

/// How a session on `record` runs when no stage fails and the staging file
/// holds `edited` in the end: it ends with the report that nothing changed
/// if the text is the record's, and asks for the update otherwise.
proof fn lemma_smooth_run(record: ConfigView, edited: Seq<char>, status: Seq<char>)
    ensures
        run(StateView::WriteTemp { record }, smooth(edited, status)) == (if edited
            == record.content {
            (
                StateView::Idle,
                staging_actions(record.filename).push(
                    ActionView::Report(ReportView::NoChanges { filename: record.filename }),
                ),
            )
        } else {
            (
                StateView::Persist { record, edited },
                staging_actions(record.filename).push(
                    ActionView::UpdateContent { filename: record.filename, content: edited },
                ),
            )
        }),
{
    let e0 = smooth(edited, status);
    let e1 = e0.drop_first();
    let e2 = e1.drop_first();
    let e3 = e2.drop_first();
    let e4 = e3.drop_first();
    let e5 = e4.drop_first();
    let s0 = StateView::WriteTemp { record };
    let s1 = StateView::SpawnEditor { record };
    let s2 = StateView::WaitEditor { record };
    let s3 = StateView::ReadTemp { record };
    let s4 = StateView::RemoveTemp { record, edited };
    assert(e0.first() == EventView::Done && e1.first() == EventView::Done);
    assert(e2.first() == (EventView::Exited { code: Some(0i32), status }));
    assert(e3.first() == EventView::Read(edited));
    assert(e4.first() == EventView::Done && e5.len() == 0);
    assert(step(s0, e0.first()) == proceed(s1));
    assert(step(s1, e1.first()) == proceed(s2));
    assert(step(s2, e2.first()) == proceed(s3));
    assert(step(s3, e3.first()) == proceed(s4));
    let last = step(s4, e4.first());
    assert(run(last.0, e5) == (last.0, Seq::<ActionView>::empty()));
    assert(run(s4, e4) == (last.0, seq![last.1] + Seq::<ActionView>::empty()));
    assert(run(s3, e3) == (last.0, seq![awaited(s4)] + run(s4, e4).1));
    assert(run(s2, e2) == (last.0, seq![awaited(s3)] + run(s3, e3).1));
    assert(run(s1, e1) == (last.0, seq![awaited(s2)] + run(s2, e2).1));
    assert(run(s0, e0) == (last.0, seq![awaited(s1)] + run(s1, e1).1));
    assert(run(s0, e0).1 =~= staging_actions(record.filename).push(last.1));
}

/// An edit that gives back the text as it was changes nothing: the session
/// never asks for a write to the registry and ends with the report that
/// nothing changed.
pub proof fn law_unchanged_edit(
    records: Seq<ConfigView>,
    filename: Seq<char>,
    status: Seq<char>,
)
    requires
        has_filename(records, filename),
    ensures
        start(records, filename) == proceed(
            StateView::WriteTemp { record: named(records, filename) },
        ),
        run(start(records, filename).0, smooth(named(records, filename).content, status)) == (
            StateView::Idle,
            staging_actions(filename).push(
                ActionView::Report(ReportView::NoChanges { filename }),
            ),
        ),
{
    lemma_smooth_run(named(records, filename), named(records, filename).content, status);
}

/// An edit that gives back another text asks for exactly one write to the
/// registry, which puts exactly that text in the record and touches no
/// other record; once the write is done the session reports the update and
/// is over, so that nothing is reported twice.
pub proof fn law_changed_edit(
    records: Seq<ConfigView>,
    filename: Seq<char>,
    edited: Seq<char>,
    status: Seq<char>,
)
    requires
        keys_unique(records),
        has_filename(records, filename),
        edited != named(records, filename).content,
    ensures
        run(start(records, filename).0, smooth(edited, status)) == (
            StateView::Persist { record: named(records, filename), edited },
            staging_actions(filename).push(
                ActionView::UpdateContent { filename, content: edited },
            ),
        ),
        step(
            StateView::Persist { record: named(records, filename), edited },
            EventView::Done,
        ) == finish(ReportView::Updated { filename }),
        forall|event: EventView| #[trigger]
            step(StateView::Idle, event) == (StateView::Idle, ActionView::Nothing),
        keys_unique(with_content(records, filename, edited)),
        named(with_content(records, filename, edited), filename).content == edited,
        forall|i: int|
            0 <= i < records.len() && records[i].filename != filename ==> #[trigger] with_content(
                records,
                filename,
                edited,
            )[i] == records[i],
{
    lemma_smooth_run(named(records, filename), edited, status);
    let after = with_content(records, filename, edited);
    let at = choose|i: int| 0 <= i < records.len() && (#[trigger] records[i]).filename == filename;
    assert(after[at].filename == filename);
    assert(has_filename(after, filename));
    let found = choose|i: int| 0 <= i < after.len() && (#[trigger] after[i]).filename == filename;
    assert(after[found].content == edited);
}

/// An editor that does not exit with the code 0 ends the session: the
/// failure is reported as a failed process with the wording of the exit,
/// the staging file is not read, and no write to the registry is asked
/// for, so that the record keeps its text whatever the editor left behind.
pub proof fn law_abnormal_exit_aborts(
    records: Seq<ConfigView>,
    filename: Seq<char>,
    code: Option<i32>,
    status: Seq<char>,
)
    requires
        has_filename(records, filename),
        code != Some(0i32),
    ensures
        run(start(records, filename).0, until_exit(code, status)) == (
            StateView::Idle,
            seq![
                ActionView::Spawn { path: temp_path(filename) },
                ActionView::Wait,
                ActionView::Report(
                    ReportView::Aborted {
                        stage: EditStage::WaitEditor,
                        filename,
                        error: ErrorView::Process(status),
                    },
                ),
            ],
        ),
{
    let record = named(records, filename);
    let e0 = until_exit(code, status);
    let e1 = e0.drop_first();
    let e2 = e1.drop_first();
    let e3 = e2.drop_first();
    let s0 = StateView::WriteTemp { record };
    let s1 = StateView::SpawnEditor { record };
    let s2 = StateView::WaitEditor { record };
    assert(e0.first() == EventView::Done && e1.first() == EventView::Done);
    assert(e2.first() == (EventView::Exited { code, status }) && e3.len() == 0);
    assert(step(s0, e0.first()) == proceed(s1));
    assert(step(s1, e1.first()) == proceed(s2));
    let last = step(s2, e2.first());
    assert(last == abort(EditStage::WaitEditor, filename, ErrorView::Process(status)));
    assert(run(last.0, e3) == (last.0, Seq::<ActionView>::empty()));
    assert(run(s2, e2) == (last.0, seq![last.1] + Seq::<ActionView>::empty()));
    assert(run(s1, e1) == (last.0, seq![awaited(s2)] + run(s2, e2).1));
    assert(run(s0, e0) == (last.0, seq![awaited(s1)] + run(s1, e1).1));
    assert(run(s0, e0).1 =~= seq![awaited(s1), awaited(s2), last.1]);
}

} // verus!
