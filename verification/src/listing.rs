//! The table of contents of the registry.

use vstd::prelude::*;
use vstd::utf8::encode_utf8;
use crate::record::{views, Config, ConfigView};
use crate::store::Store;

verus! {

/// One line of the listing: both keys of a record and the size of its
/// payload in bytes.
#[derive(Debug, PartialEq, Eq)]
pub struct Row {
    pub shorthand: String,
    pub filename: String,
    pub content_length: usize,
}

/// The model of a [`Row`].
pub struct RowView {
    pub shorthand: Seq<char>,
    pub filename: Seq<char>,
    pub content_length: usize,
}

impl View for Row {
    type V = RowView;

    open spec fn view(&self) -> RowView {
        RowView {
            shorthand: self.shorthand@,
            filename: self.filename@,
            content_length: self.content_length,
        }
    }
}

/// The line that lists `record`; the length is that of the payload encoded
/// as UTF-8.
pub open spec fn row_of(record: ConfigView) -> RowView {
    RowView {
        shorthand: record.shorthand,
        filename: record.filename,
        content_length: encode_utf8(record.content).len() as usize,
    }
}

/// The lines that list `records`, one for each and in the same order.
pub open spec fn rows_of(records: Seq<ConfigView>) -> Seq<RowView> {
    Seq::new(records.len(), |i: int| row_of(records[i]))
}

/// The models of a sequence of lines.
pub open spec fn row_views(rows: Seq<Row>) -> Seq<RowView> {
    Seq::new(rows.len(), |i: int| rows[i]@)
}

/// The line that lists `record`.
pub fn row(record: &Config) -> (line: Row)
    ensures
        line@ == row_of(record@),
{
    Row {
        shorthand: record.shorthand.clone(),
        filename: record.filename.clone(),
        content_length: record.content.as_str().len(),
    }
}

/// The listing of the whole registry: one line for each record, in the
/// order of the registry.
pub fn listing(store: &Store) -> (rows: Vec<Row>)
    ensures
        row_views(rows@) == rows_of(store@),
{
    let records = store.list();
    let mut rows: Vec<Row> = Vec::new();
    let mut at: usize = 0;
    while at < records.len()
        invariant
            at <= records.len(),
            rows@.len() == at,
            views(records@) == store@,
            forall|i: int| 0 <= i < at ==> (#[trigger] rows@[i])@ == row_of(store@[i]),
        decreases records.len() - at,
    {
        assert(views(records@)[at as int] == records@[at as int]@);
        rows.push(row(&records[at]));
        at += 1;
    }
    assert(row_views(rows@) =~= rows_of(store@));
    rows
}

} // verus!
