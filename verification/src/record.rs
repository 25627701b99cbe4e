//! The configuration record and its mathematical model.

use vstd::prelude::*;

verus! {

/// What a record is, as plain sequences of characters.
pub struct ConfigView {
    pub filename: Seq<char>,
    pub shorthand: Seq<char>,
    pub content: Seq<char>,
}

/// One configuration file held by the registry.
///
/// `filename` is the primary key and the default path of the file on disk,
/// `shorthand` is the alias by which the record is exported, and `content` is
/// the text payload, which may be empty.
#[derive(Debug, PartialEq, Eq)]
pub struct Config {
    pub filename: String,
    pub shorthand: String,
    pub content: String,
}

impl View for Config {
    type V = ConfigView;

    open spec fn view(&self) -> ConfigView {
        ConfigView {
            filename: self.filename@,
            shorthand: self.shorthand@,
            content: self.content@,
        }
    }
}

impl Clone for Config {
    fn clone(&self) -> (copy: Self)
        ensures
            copy == *self,
    {
        Config {
            filename: self.filename.clone(),
            shorthand: self.shorthand.clone(),
            content: self.content.clone(),
        }
    }
}

impl Config {
    /// Builds a record from its three fields.
    pub fn new(filename: String, shorthand: String, content: String) -> (record: Config)
        ensures
            record.filename == filename,
            record.shorthand == shorthand,
            record.content == content,
    {
        Config { filename, shorthand, content }
    }

    /// The same record with another payload; both keys are kept.
    pub fn with_content(&self, content: String) -> (record: Config)
        ensures
            record.filename == self.filename,
            record.shorthand == self.shorthand,
            record.content == content,
    {
        Config { filename: self.filename.clone(), shorthand: self.shorthand.clone(), content }
    }
}

/// The models of a sequence of records, in the same order.
pub open spec fn views(records: Seq<Config>) -> Seq<ConfigView> {
    Seq::new(records.len(), |i: int| records[i]@)
}

/// The model of `record` after its payload was replaced by `content`.
pub open spec fn replaced(record: ConfigView, content: Seq<char>) -> ConfigView {
    ConfigView { filename: record.filename, shorthand: record.shorthand, content }
}

} // verus!
