//! Taking a file into the registry.

use vstd::prelude::*;
use crate::error::ConfigError;
use crate::record::{Config, ConfigView};
use crate::store::{conflict_of, Store};

verus! {

/// The payload of a new record: the text of the file where it could be
/// read, the empty text where it could not.
pub open spec fn payload(source: Option<String>) -> Seq<char> {
    match source {
        Some(text) => text@,
        None => Seq::<char>::empty(),
    }
}

/// The record that ingestion makes of its inputs.
pub open spec fn candidate(filename: Seq<char>, shorthand: Seq<char>, source: Option<String>)
    -> ConfigView {
    ConfigView { filename, shorthand, content: payload(source) }
}

/// Creates the record `filename` with the alias `shorthand`.
///
/// `source` is the text of the file of that name, or `None` where the file
/// could not be read: the record is then created with an empty payload, for
/// the file need not exist. The filename is checked before the alias, both
/// before anything is written, and a key that is taken fails the call with
/// `Conflict` and leaves the registry as it was. On success the new record
/// is returned.
pub fn add(
    store: &mut Store,
    filename: &String,
    shorthand: &String,
    source: Option<String>,
) -> (created: Result<Config, ConfigError>)
    ensures
        match conflict_of(old(store)@, candidate(filename@, shorthand@, source)) {
            Some(key) => created == Err::<Config, ConfigError>(ConfigError::Conflict(key))
                && final(store)@ == old(store)@,
            None => created matches Ok(record) && record@ == candidate(
                filename@,
                shorthand@,
                source,
            ) && final(store)@ == old(store)@.push(record@),
        },
{
    let content = match source {
        Some(text) => text,
        None => String::new(),
    };
    let record = Config::new(filename.clone(), shorthand.clone(), content);
    match store.insert(record.clone()) {
        Ok(()) => Ok(record),
        Err(error) => Err(error),
    }
}

} // verus!
