//! The metadata that an installed exercise carries in its directory, and the
//! record by which it is written to its file.

use crate::error::Error;
use crate::language::Language;
use crate::language::LanguageId;
use crate::text::first_texts;
use vstd::prelude::*;
use vstd::string::StringExecFns;

verus! {

/// The metadata of an installed exercise.
#[derive(Clone, Debug, PartialEq, Eq)]
pub struct Meta {
    pub name: String,
    pub language: Language,
    pub difficulty: i32,
    pub topics: Option<Vec<String>>,
    pub hints: Option<Vec<String>>,
    pub hints_seen: Option<usize>,
    pub submission_token: Option<String>,
}

/// The metadata as its file holds it: the language goes by its name, and
/// every other field is as in [`Meta`]. A field that is absent here is left
/// out of the file.
#[derive(Clone, Debug, PartialEq, Eq)]
pub struct MetaRecord {
    pub name: String,
    pub language: String,
    pub difficulty: i32,
    pub topics: Option<Vec<String>>,
    pub hints: Option<Vec<String>>,
    pub hints_seen: Option<usize>,
    pub submission_token: Option<String>,
}

/// The mathematical model of a [`MetaRecord`].
pub struct MetaRecordView {
    pub name: Seq<char>,
    pub language: Seq<char>,
    pub difficulty: int,
    pub topics: Option<Seq<Seq<char>>>,
    pub hints: Option<Seq<Seq<char>>>,
    pub hints_seen: Option<nat>,
    pub submission_token: Option<Seq<char>>,
}

/// The mathematical model of a [`Meta`].
pub struct MetaView {
    pub name: Seq<char>,
    pub language: LanguageId,
    pub difficulty: int,
    pub topics: Option<Seq<Seq<char>>>,
    pub hints: Option<Seq<Seq<char>>>,
    pub hints_seen: Option<nat>,
    pub submission_token: Option<Seq<char>>,
}

impl MetaView {
    /// How many hints have been shown so far.
    pub open spec fn seen(self) -> nat {
        match self.hints_seen {
            Some(seen) => seen,
            None => 0,
        }
    }

    /// How many hints the exercise has.
    pub open spec fn hint_count(self) -> nat {
        match self.hints {
            Some(hints) => hints.len(),
            None => 0,
        }
    }

    /// Whether no more hints count as shown than there are.
    pub open spec fn is_consistent(self) -> bool {
        self.seen() <= self.hint_count()
    }

    /// How many hints are shown when one more is asked for: one more than
    /// before, but never more than there are.
    pub open spec fn seen_after_hint(self) -> nat {
        if self.seen() < self.hint_count() {
            self.seen() + 1
        } else {
            self.hint_count()
        }
    }

    /// The metadata once one more hint has been asked for.
    pub open spec fn after_hint(self) -> MetaView {
        if self.hints is Some {
            MetaView { hints_seen: Some(self.seen_after_hint()), ..self }
        } else {
            self
        }
    }

    /// The metadata once the exercise is linked to a submission: no hint
    /// counts as shown any more.
    pub open spec fn linked_to(self, token: Seq<char>) -> MetaView {
        MetaView { submission_token: Some(token), hints_seen: Some(0), ..self }
    }

    /// The record by which the metadata is written.
    pub open spec fn written(self) -> MetaRecordView {
        MetaRecordView {
            name: self.name,
            language: self.language.name(),
            difficulty: self.difficulty,
            topics: self.topics,
            hints: self.hints,
            hints_seen: self.hints_seen,
            submission_token: self.submission_token,
        }
    }
}

impl MetaRecordView {
    /// The metadata that the record is read as.
    pub open spec fn read(self) -> MetaView {
        MetaView {
            name: self.name,
            language: LanguageId::of_name(self.language),
            difficulty: self.difficulty,
            topics: self.topics,
            hints: self.hints,
            hints_seen: self.hints_seen,
            submission_token: self.submission_token,
        }
    }
}

/// The model of a count that may be absent.
pub open spec fn count_view(count: Option<usize>) -> Option<nat> {
    match count {
        Some(n) => Some(n as nat),
        None => None,
    }
}

/// Metadata that is written to a record and read again is the same in every
/// field, and a field that was absent is absent still; unless its language
/// is an unknown one that goes by the name of a known one.
pub proof fn meta_survives_writing(meta: MetaView)
    requires
        !(meta.language matches LanguageId::Other(raw) && (raw == "python"@ || raw == "rust"@)),
    ensures
        meta.written().read() == meta,
{
    crate::language::language_survives_writing(meta.language);
}

/// A record that is read as metadata and written again is the same record.
pub proof fn record_survives_reading(record: MetaRecordView)
    ensures
        record.read().written() == record,
{
    crate::language::name_survives_reading(record.language);
}

impl View for Meta {
    type V = MetaView;

    open spec fn view(&self) -> MetaView {
        MetaView {
            name: self.name@,
            language: self.language@,
            difficulty: self.difficulty as int,
            topics: self.topics.deep_view(),
            hints: self.hints.deep_view(),
            hints_seen: count_view(self.hints_seen),
            submission_token: self.submission_token.deep_view(),
        }
    }
}

impl View for MetaRecord {
    type V = MetaRecordView;

    open spec fn view(&self) -> MetaRecordView {
        MetaRecordView {
            name: self.name@,
            language: self.language@,
            difficulty: self.difficulty as int,
            topics: self.topics.deep_view(),
            hints: self.hints.deep_view(),
            hints_seen: count_view(self.hints_seen),
            submission_token: self.submission_token.deep_view(),
        }
    }
}

/// Whether reading a place always gives metadata, and always the metadata
/// given here: what holds of a place to which that metadata was written,
/// where writing and reading keep every field.
pub open spec fn reads_back<P, F: Fn(&P) -> Option<Meta>>(
    load: F,
    place: P,
    stored: MetaView,
) -> bool {
    forall|read: Option<Meta>| #[trigger]
        call_ensures(load, (&place,), read) ==> (read matches Some(meta) && meta@ == stored)
}

/// The name of the file that holds an exercise's metadata.
pub fn meta_file_name() -> (name: &'static str)
    ensures
        name@ == ".meta.json"@,
{
    ".meta.json"
}

impl Meta {
    /// Finds the metadata of the exercise that the working directory belongs
    /// to. `candidates` are the places where a metadata file may lie, the
    /// nearest first: in the working directory, then in each directory above
    /// it. `load` reads one of them, and gives nothing where there is no file
    /// or where the file does not hold metadata.
    ///
    /// The first place that holds metadata wins, and is handed back with what
    /// it holds; places after it are not read. Where no place holds any, the
    /// metadata is missing. So metadata that was stored in the nearest place,
    /// and that `load` reads back from there as it was stored, is what is
    /// found, with that place.
    pub fn get<P, F: Fn(&P) -> Option<Meta>>(
        candidates: Vec<P>,
        load: F,
    ) -> (found: Result<(Meta, P), Error>)
        requires
            forall|i: int| 0 <= i < candidates.len() ==> call_requires(load, (&candidates[i],)),
        ensures
            match found {
                Ok((meta, path)) => exists|n: int|
                    0 <= n < candidates.len() && path == candidates[n] && call_ensures(
                        load,
                        (&candidates[n],),
                        Some(meta),
                    ) && forall|k: int|
                        0 <= k < n ==> call_ensures(load, (&#[trigger] candidates[k],), None::<Meta>),
                Err(error) => error == Error::MissingMeta && forall|k: int|
                    0 <= k < candidates.len() ==> call_ensures(
                        load,
                        (&#[trigger] candidates[k],),
                        None::<Meta>,
                    ),
            },
            forall|stored: MetaView|
                candidates.len() > 0 && #[trigger] reads_back(load, candidates[0], stored) ==> (
                found matches Ok((meta, path)) && meta@ == stored && path == candidates[0]),
    {
        let ghost places = candidates@;
        for candidate in iter: candidates
            invariant
                iter.seq() == places,
                forall|j: int| 0 <= j < places.len() ==> call_requires(load, (&places[j],)),
                forall|k: int|
                    0 <= k < iter.index() ==> call_ensures(
                        load,
                        (&#[trigger] places[k],),
                        None::<Meta>,
                    ),
        {
            match load(&candidate) {
                Some(meta) => {
                    return Ok((meta, candidate));
                },
                None => {},
            }
        }
        Err(Error::MissingMeta)
    }

    /// Asks for one more hint. Gives the hints that are now shown, from the
    /// first on, and counts them as seen; gives nothing, and changes nothing,
    /// where the exercise has no hints.
    pub fn reveal_hint(&mut self) -> (shown: Option<Vec<String>>)
        ensures
            final(self)@ == old(self)@.after_hint(),
            shown.deep_view() == match old(self)@.hints {
                Some(hints) => Some(hints.take(old(self)@.seen_after_hint() as int)),
                None => None,
            },
            old(self)@.is_consistent() ==> final(self)@.seen() >= old(self)@.seen(),
            final(self)@.hints is Some ==> final(self)@.is_consistent(),
    {
        let seen: usize = match self.hints_seen {
            Some(seen) => seen,
            None => 0,
        };
        match &self.hints {
            None => None,
            Some(hints) => {
                let count: usize = if seen < hints.len() {
                    seen + 1
                } else {
                    hints.len()
                };
                let shown = first_texts(hints, count);
                self.hints_seen = Some(count);
                Some(shown)
            },
        }
    }

    /// The record by which the metadata is written to its file.
    pub fn to_record(&self) -> (record: MetaRecord)
        ensures
            record@ == self@.written(),
    {
        let topics = match &self.topics {
            Some(texts) => {
                assert(texts.deep_view().take(texts.len() as int) =~= texts.deep_view());
                Some(first_texts(texts, texts.len()))
            },
            None => None,
        };
        let hints = match &self.hints {
            Some(texts) => {
                assert(texts.deep_view().take(texts.len() as int) =~= texts.deep_view());
                Some(first_texts(texts, texts.len()))
            },
            None => None,
        };
        let submission_token = match &self.submission_token {
            Some(token) => Some(token.clone()),
            None => None,
        };
        MetaRecord {
            name: self.name.clone(),
            language: String::from_str(self.language.as_str()),
            difficulty: self.difficulty,
            topics,
            hints,
            hints_seen: self.hints_seen,
            submission_token,
        }
    }

    /// The metadata that a record from a file is read as. A language whose
    /// name the client does not know is kept by that name.
    pub fn from_record(record: MetaRecord) -> (meta: Meta)
        ensures
            meta@ == record@.read(),
    {
        Meta {
            name: record.name,
            language: Language::from_name(record.language),
            difficulty: record.difficulty,
            topics: record.topics,
            hints: record.hints,
            hints_seen: record.hints_seen,
            submission_token: record.submission_token,
        }
    }

    /// Links the exercise to a submission: notes the submission's token, and
    /// counts no hint as shown.
    pub fn link(&mut self, token: String)
        ensures
            final(self)@ == old(self)@.linked_to(token@),
    {
        self.submission_token = Some(token);
        self.hints_seen = Some(0);
    }
}

} // verus!
