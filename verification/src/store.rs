//! The record store: a keyed collection that keeps both keys unique.

use vstd::prelude::*;
use crate::error::{ConfigError, ErrorView, Key};
use crate::record::{replaced, views, Config, ConfigView};

verus! {

/// Some record of `records` has the filename `filename`.
pub open spec fn has_filename(records: Seq<ConfigView>, filename: Seq<char>) -> bool {
    exists|i: int| 0 <= i < records.len() && (#[trigger] records[i]).filename == filename
}

/// Some record of `records` has the alias `shorthand`.
pub open spec fn has_shorthand(records: Seq<ConfigView>, shorthand: Seq<char>) -> bool {
    exists|i: int| 0 <= i < records.len() && (#[trigger] records[i]).shorthand == shorthand
}

/// No two records share a filename, and no two share an alias.
pub open spec fn keys_unique(records: Seq<ConfigView>) -> bool {
    forall|i: int, j: int|
        0 <= i < records.len() && 0 <= j < records.len() && i != j ==> {
            &&& (#[trigger] records[i]).filename != (#[trigger] records[j]).filename
            &&& records[i].shorthand != records[j].shorthand
        }
}

/// `records` with the payload of every record named `filename` replaced by
/// `content`.
pub open spec fn with_content(
    records: Seq<ConfigView>,
    filename: Seq<char>,
    content: Seq<char>,
) -> Seq<ConfigView> {
    Seq::new(
        records.len(),
        |i: int|
            if records[i].filename == filename {
                replaced(records[i], content)
            } else {
                records[i]
            },
    )
}

/// `records` without the records named `filename`; the others keep their
/// order.
pub open spec fn without_filename(records: Seq<ConfigView>, filename: Seq<char>) -> Seq<
    ConfigView,
> {
    records.filter(|record: ConfigView| record.filename != filename)
}

/// The record named `filename`, where there is one.
pub open spec fn named(records: Seq<ConfigView>, filename: Seq<char>) -> ConfigView {
    records[choose|i: int| 0 <= i < records.len() && (#[trigger] records[i]).filename == filename]
}

/// The record with the alias `shorthand`, where there is one.
pub open spec fn aliased(records: Seq<ConfigView>, shorthand: Seq<char>) -> ConfigView {
    records[choose|i: int|
        0 <= i < records.len() && (#[trigger] records[i]).shorthand == shorthand]
}

/// Which key of `record` is already taken in `records`: the filename is
/// looked at first, the alias only when the filename is free.
pub open spec fn conflict_of(records: Seq<ConfigView>, record: ConfigView) -> Option<Key> {
    if has_filename(records, record.filename) {
        Some(Key::Filename)
    } else if has_shorthand(records, record.shorthand) {
        Some(Key::Shorthand)
    } else {
        None
    }
}

/// The first record of `records` that shares a key with one before it does
/// so on `key`, the filename counting before the alias.
pub open spec fn first_clash_on(records: Seq<ConfigView>, key: Key) -> bool {
    exists|k: int|
        0 <= k < records.len() && keys_unique(records.take(k)) && #[trigger] conflict_of(
            records.take(k),
            records[k],
        ) == Some(key)
}

/// A filter that every element passes changes nothing.
pub proof fn lemma_filter_keeps_all<A>(s: Seq<A>, pred: spec_fn(A) -> bool)
    requires
        forall|i: int| 0 <= i < s.len() ==> pred(#[trigger] s[i]),
    ensures
        s.filter(pred) == s,
    decreases s.len(),
{
    reveal(Seq::filter);
    if s.len() > 0 {
        lemma_filter_keeps_all(s.drop_last(), pred);
        assert(s.drop_last().push(s.last()) =~= s);
    }
}

/// With unique keys, dropping by filename removes exactly the one record
/// that bears it.
proof fn lemma_without_is_remove(records: Seq<ConfigView>, filename: Seq<char>, at: int)
    requires
        keys_unique(records),
        0 <= at < records.len(),
        records[at].filename == filename,
    ensures
        without_filename(records, filename) == records.remove(at),
{
    let pred = |record: ConfigView| record.filename != filename;
    let before = records.subrange(0, at);
    let hit = seq![records[at]];
    let after = records.subrange(at + 1, records.len() as int);
    assert(records =~= before + hit + after);
    assert forall|i: int| 0 <= i < before.len() implies pred(#[trigger] before[i]) by {
        assert(before[i] == records[i]);
    }
    assert forall|i: int| 0 <= i < after.len() implies pred(#[trigger] after[i]) by {
        assert(after[i] == records[at + 1 + i]);
    }
    lemma_filter_keeps_all(before, pred);
    lemma_filter_keeps_all(after, pred);
    assert(hit.filter(pred) =~= Seq::<ConfigView>::empty()) by {
        reveal_with_fuel(Seq::filter, 2);
    }
    Seq::filter_distributes_over_add(before, hit, pred);
    Seq::filter_distributes_over_add(before + hit, after, pred);
    assert(records.filter(pred) =~= before + after);
}

/// Without a record of that filename, dropping by filename changes nothing.
proof fn lemma_without_absent(records: Seq<ConfigView>, filename: Seq<char>)
    requires
        !has_filename(records, filename),
    ensures
        without_filename(records, filename) == records,
{
    let pred = |record: ConfigView| record.filename != filename;
    lemma_filter_keeps_all(records, pred);
}

/// The registry of configuration records.
pub struct Store {
    records: Vec<Config>,
}

impl View for Store {
    type V = Seq<ConfigView>;

    closed spec fn view(&self) -> Seq<ConfigView> {
        views(self.records@)
    }
}

impl Store {
    /// The invariant of the registry, which holds of every `Store` at all
    /// times: both keys are unique.
    #[verifier::type_invariant]
    spec fn keys_stay_unique(self) -> bool {
        keys_unique(views(self.records@))
    }

    /// A registry without records.
    pub fn new() -> (store: Store)
        ensures
            store@ == Seq::<ConfigView>::empty(),
            keys_unique(store@),
    {
        let store = Store { records: Vec::new() };
        assert(store@ =~= Seq::<ConfigView>::empty());
        store
    }

    /// Builds a registry of `records`, taken in their order.
    ///
    /// Succeeds exactly when no two of them share a key. Otherwise the error
    /// is the `Conflict` of the first record that clashes with one before
    /// it, naming the filename before the alias.
    pub fn from_records(records: &Vec<Config>) -> (built: Result<Store, ConfigError>)
        ensures
            built is Ok <==> keys_unique(views(records@)),
            built matches Ok(store) ==> store@ == views(records@),
            built matches Err(error) ==> (error matches ConfigError::Conflict(key)
                && first_clash_on(views(records@), key)),
    {
        let ghost all = views(records@);
        let mut store = Store::new();
        let mut at: usize = 0;
        while at < records.len()
            invariant
                all == views(records@),
                at <= records.len(),
                store@ == all.take(at as int),
            decreases records.len() - at,
        {
            let record = records[at].clone();
            assert(record@ == all[at as int]);
            proof {
                use_type_invariant(&store);
            }
            match store.insert(record) {
                Ok(()) => {
                    assert(store@ =~= all.take(at + 1));
                },
                Err(error) => {
                    proof {
                        let earlier = all.take(at as int);
                        let clash = choose|i: int|
                            0 <= i < earlier.len() && ((#[trigger] earlier[i]).filename
                                == all[at as int].filename || earlier[i].shorthand
                                == all[at as int].shorthand);
                        assert(earlier[clash] == all[clash]);
                        assert(!keys_unique(all));
                    }
                    return Err(error);
                },
            }
            at += 1;
        }
        proof {
            use_type_invariant(&store);
            assert(all.take(at as int) =~= all);
        }
        Ok(store)
    }

    /// Builds a registry of what was read from the persistent store.
    ///
    /// A read that failed is passed on as `Persistence` with its cause;
    /// records that were read are taken as [`Store::from_records`] takes
    /// them.
    pub fn load(read: Result<Vec<Config>, String>) -> (loaded: Result<Store, ConfigError>)
        ensures
            match read {
                Err(cause) => loaded matches Err(error) && error@ == ErrorView::Persistence(
                    cause@,
                ),
                Ok(records) => {
                    &&& loaded is Ok <==> keys_unique(views(records@))
                    &&& loaded matches Ok(store) ==> store@ == views(records@)
                    &&& loaded matches Err(error) ==> (error matches ConfigError::Conflict(key)
                        && first_clash_on(views(records@), key))
                },
            },
    {
        match read {
            Ok(records) => Store::from_records(&records),
            Err(cause) => Err(ConfigError::Persistence(cause)),
        }
    }

    /// How many records the registry holds.
    pub fn len(&self) -> (count: usize)
        ensures
            count == self@.len(),
            keys_unique(self@),
    {
        proof {
            use_type_invariant(self);
        }
        self.records.len()
    }

    /// The place of the record named `filename`, if there is one.
    fn position_by_filename(&self, filename: &String) -> (found: Option<usize>)
        ensures
            match found {
                Some(at) => at < self@.len() && self@[at as int].filename == filename@,
                None => !has_filename(self@, filename@),
            },
    {
        let mut at: usize = 0;
        while at < self.records.len()
            invariant
                at <= self.records.len(),
                forall|i: int| 0 <= i < at ==> (#[trigger] self@[i]).filename != filename@,
            decreases self.records.len() - at,
        {
            if self.records[at].filename == *filename {
                return Some(at);
            }
            at += 1;
        }
        None
    }

    /// The place of the record with the alias `shorthand`, if there is one.
    fn position_by_shorthand(&self, shorthand: &String) -> (found: Option<usize>)
        ensures
            match found {
                Some(at) => at < self@.len() && self@[at as int].shorthand == shorthand@,
                None => !has_shorthand(self@, shorthand@),
            },
    {
        let mut at: usize = 0;
        while at < self.records.len()
            invariant
                at <= self.records.len(),
                forall|i: int| 0 <= i < at ==> (#[trigger] self@[i]).shorthand != shorthand@,
            decreases self.records.len() - at,
        {
            if self.records[at].shorthand == *shorthand {
                return Some(at);
            }
            at += 1;
        }
        None
    }

    /// All records, in the order in which they were inserted.
    pub fn list(&self) -> (records: Vec<Config>)
        ensures
            views(records@) == self@,
            keys_unique(self@),
    {
        proof {
            use_type_invariant(self);
        }
        let mut records: Vec<Config> = Vec::new();
        let mut at: usize = 0;
        while at < self.records.len()
            invariant
                at <= self.records.len(),
                records@.len() == at,
                forall|i: int| 0 <= i < at ==> (#[trigger] records@[i])@ == self@[i],
            decreases self.records.len() - at,
        {
            records.push(self.records[at].clone());
            at += 1;
        }
        assert(views(records@) =~= self@);
        records
    }

    /// Whether a record is named `filename`.
    pub fn exists_by_filename(&self, filename: &String) -> (present: bool)
        ensures
            present == has_filename(self@, filename@),
    {
        self.position_by_filename(filename).is_some()
    }

    /// Whether a record has the alias `shorthand`.
    pub fn exists_by_shorthand(&self, shorthand: &String) -> (present: bool)
        ensures
            present == has_shorthand(self@, shorthand@),
    {
        self.position_by_shorthand(shorthand).is_some()
    }

    /// The record named `filename`.
    ///
    /// Fails with `NotFound(Key::Filename)` exactly when no record bears that
    /// name.
    pub fn find_by_filename(&self, filename: &String) -> (found: Result<&Config, ConfigError>)
        ensures
            found is Ok <==> has_filename(self@, filename@),
            found matches Ok(record) ==> record@ == named(self@, filename@) && record@.filename
                == filename@,
            found matches Err(error) ==> error == ConfigError::NotFound(Key::Filename),
    {
        proof {
            use_type_invariant(self);
        }
        match self.position_by_filename(filename) {
            Some(at) => {
                assert(self@[at as int] == self.records[at as int]@);
                Ok(&self.records[at])
            },
            None => Err(ConfigError::NotFound(Key::Filename)),
        }
    }

    /// The record with the alias `shorthand`.
    ///
    /// Fails with `NotFound(Key::Shorthand)` exactly when no record has that
    /// alias.
    pub fn find_by_shorthand(&self, shorthand: &String) -> (found: Result<&Config, ConfigError>)
        ensures
            found is Ok <==> has_shorthand(self@, shorthand@),
            found matches Ok(record) ==> record@ == aliased(self@, shorthand@) && record@.shorthand
                == shorthand@,
            found matches Err(error) ==> error == ConfigError::NotFound(Key::Shorthand),
    {
        proof {
            use_type_invariant(self);
        }
        match self.position_by_shorthand(shorthand) {
            Some(at) => {
                assert(self@[at as int] == self.records[at as int]@);
                Ok(&self.records[at])
            },
            None => Err(ConfigError::NotFound(Key::Shorthand)),
        }
    }

    /// Adds `record` at the end.
    ///
    /// Fails with `Conflict` exactly when one of its keys is taken, naming the
    /// filename before the alias, and then leaves the registry as it was.
    pub fn insert(&mut self, record: Config) -> (done: Result<(), ConfigError>)
        ensures
            keys_unique(old(self)@) && keys_unique(final(self)@),
            done is Err <==> has_filename(old(self)@, record@.filename) || has_shorthand(
                old(self)@,
                record@.shorthand,
            ),
            match conflict_of(old(self)@, record@) {
                Some(key) => done == Err::<(), ConfigError>(ConfigError::Conflict(key))
                    && final(self)@ == old(self)@,
                None => done is Ok && final(self)@ == old(self)@.push(record@),
            },
    {
        proof {
            use_type_invariant(&*self);
        }
        if self.exists_by_filename(&record.filename) {
            return Err(ConfigError::Conflict(Key::Filename));
        }
        if self.exists_by_shorthand(&record.shorthand) {
            return Err(ConfigError::Conflict(Key::Shorthand));
        }
        let mut records: Vec<Config> = Vec::new();
        std::mem::swap(&mut records, &mut self.records);
        records.push(record);
        assert(views(records@) =~= old(self)@.push(record@));
        self.records = records;
        Ok(())
    }

    /// Replaces the payload of the record named `filename`.
    ///
    /// Fails with `NotFound(Key::Filename)` exactly when no record bears that
    /// name, and then leaves the registry as it was.
    pub fn update_content(&mut self, filename: &String, content: String) -> (done: Result<
        (),
        ConfigError,
    >)
        ensures
            keys_unique(old(self)@) && keys_unique(final(self)@),
            final(self)@ == with_content(old(self)@, filename@, content@),
            done is Ok <==> has_filename(old(self)@, filename@),
            done matches Err(error) ==> error == ConfigError::NotFound(Key::Filename)
                && final(self)@ == old(self)@,
    {
        proof {
            use_type_invariant(&*self);
        }
        match self.position_by_filename(filename) {
            Some(at) => {
                let record = self.records[at].with_content(content);
                let mut records: Vec<Config> = Vec::new();
                std::mem::swap(&mut records, &mut self.records);
                records.set(at, record);
                assert(views(records@) =~= with_content(old(self)@, filename@, content@));
                self.records = records;
                Ok(())
            },
            None => {
                assert(self@ =~= with_content(old(self)@, filename@, content@));
                Err(ConfigError::NotFound(Key::Filename))
            },
        }
    }

    /// Removes the record named `filename` and says how many records left:
    /// one if it was there, none otherwise. Never fails.
    pub fn delete(&mut self, filename: &String) -> (deleted: usize)
        ensures
            keys_unique(old(self)@) && keys_unique(final(self)@),
            final(self)@ == without_filename(old(self)@, filename@),
            deleted == old(self)@.len() - final(self)@.len(),
            deleted == (if has_filename(old(self)@, filename@) { 1usize } else { 0usize }),
            !has_filename(old(self)@, filename@) ==> final(self)@ == old(self)@,
            !has_filename(final(self)@, filename@),
    {
        proof {
            use_type_invariant(&*self);
        }
        match self.position_by_filename(filename) {
            Some(at) => {
                proof {
                    lemma_without_is_remove(self@, filename@, at as int);
                }
                let mut records: Vec<Config> = Vec::new();
                std::mem::swap(&mut records, &mut self.records);
                records.remove(at);
                assert(views(records@) =~= old(self)@.remove(at as int));
                self.records = records;
                1
            },
            None => {
                proof {
                    lemma_without_absent(self@, filename@);
                }
                0
            },
        }
    }
}

} // verus!
