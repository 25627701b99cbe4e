//! Taking a record out of the registry.

use vstd::prelude::*;
use crate::store::{has_filename, without_filename, Store};

verus! {

/// What became of a removal.
#[derive(Debug, PartialEq, Eq)]
pub enum RemoveReport {
    /// The record was there and is gone.
    Removed { filename: String },
    /// No record bore that name; nothing was deleted.
    Unknown { filename: String },
}

/// The model of a [`RemoveReport`].
pub enum RemoveReportView {
    Removed { filename: Seq<char> },
    Unknown { filename: Seq<char> },
}

impl View for RemoveReport {
    type V = RemoveReportView;

    open spec fn view(&self) -> RemoveReportView {
        match *self {
            RemoveReport::Removed { filename } => RemoveReportView::Removed {
                filename: filename@,
            },
            RemoveReport::Unknown { filename } => RemoveReportView::Unknown {
                filename: filename@,
            },
        }
    }
}

/// The report on a removal that deleted `deleted` records.
pub open spec fn removal_report(filename: Seq<char>, deleted: nat) -> RemoveReportView {
    if deleted == 0 {
        RemoveReportView::Unknown { filename }
    } else {
        RemoveReportView::Removed { filename }
    }
}

/// Words the outcome of a removal that deleted `deleted` records: none
/// deleted means that the name was unknown, which is no error.
pub fn report_removal(filename: &String, deleted: usize) -> (report: RemoveReport)
    ensures
        report@ == removal_report(filename@, deleted as nat),
{
    if deleted == 0 {
        RemoveReport::Unknown { filename: filename.clone() }
    } else {
        RemoveReport::Removed { filename: filename.clone() }
    }
}

/// Deletes the record named `filename` and reports whether it was there.
/// Removing a name that is not in the registry changes nothing and is
/// reported, never failed.
pub fn remove(store: &mut Store, filename: &String) -> (report: RemoveReport)
    ensures
        final(store)@ == without_filename(old(store)@, filename@),
        !has_filename(final(store)@, filename@),
        !has_filename(old(store)@, filename@) ==> final(store)@ == old(store)@,
        report@ == (if has_filename(old(store)@, filename@) {
            RemoveReportView::Removed { filename: filename@ }
        } else {
            RemoveReportView::Unknown { filename: filename@ }
        }),
{
    let deleted = store.delete(filename);
    report_removal(filename, deleted)
}

} // verus!
