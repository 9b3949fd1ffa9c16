//! The word book: records of words with their translations, as the database
//! stores them and as the rest of the program sees them.

use vstd::prelude::*;
use vstd::string::*;
use crate::json::{json_document, json_of_texts, parse_json, texts_of, texts_to_json, JsonValue};
use crate::ranking::{replicate_optional_text, replicate_text};
use crate::text::{decimal, decimal_of, to_unsigned, unsigned_of};

verus! {

/// A word with what is known about it.
#[derive(Clone, Debug)]
pub struct WordRecord {
    pub id: String,
    pub word: String,
    pub translation: String,
    pub context: Option<String>,
    pub phonetic: Option<String>,
    pub example_sentence: Option<String>,
    pub tags: Vec<String>,
    pub ai_explanation: Option<String>,
    pub mastery_level: i32,
    pub review_count: i32,
    pub last_reviewed: Option<u64>,
    pub created_at: u64,
    pub updated_at: u64,
    pub is_favorite: bool,
    pub is_mastered: bool,
}

/// One row of the table of words, as the database hands it out.
#[derive(Debug)]
pub struct WordRow {
    pub id: String,
    pub word: String,
    pub translation: String,
    pub context: Option<String>,
    pub phonetic: Option<String>,
    pub example_sentence: Option<String>,
    /// The tags as a JSON array of strings.
    pub tags: Option<String>,
    pub ai_explanation: Option<String>,
    pub mastery_level: i32,
    pub review_count: i32,
    pub last_reviewed: Option<i64>,
    pub created_at: i64,
    pub updated_at: i64,
    pub is_favorite: i32,
    pub is_mastered: i32,
}

/// Each of `items` is a text.
pub open spec fn all_texts(items: Seq<JsonValue>) -> bool {
    forall|i: int| 0 <= i < items.len() ==> (#[trigger] items[i]) is Text
}

/// The tags that a stored text holds: the strings of a JSON array of strings,
/// and none for any other text.
pub open spec fn tags_of(stored: Seq<char>) -> Seq<Seq<char>> {
    match json_document(stored) {
        Some(JsonValue::Array(items)) => if all_texts(items@) {
            Seq::new(items@.len(), |i: int| items@[i]->Text_0@)
        } else {
            Seq::empty()
        },
        _ => Seq::empty(),
    }
}

/// The tags of a row: none where the row stores none.
pub open spec fn stored_tags_of(stored: Option<String>) -> Seq<Seq<char>> {
    match stored {
        Some(text) => tags_of(text@),
        None => Seq::empty(),
    }
}

/// Reads the tags that a stored text holds.
#[verifier::loop_isolation(false)]
pub fn parse_tags(stored: &str) -> (tags: Vec<String>)
    ensures
        texts_of(tags@) == tags_of(stored@),
{
    let mut tags: Vec<String> = Vec::new();
    match parse_json(stored) {
        Some(JsonValue::Array(items)) => {
            let mut i: usize = 0;
            while i < items.len()
                invariant
                    i <= items.len(),
                    tags@.len() == i,
                    forall|k: int| 0 <= k < i ==> (#[trigger] items@[k]) is Text,
                    forall|k: int| 0 <= k < i ==> (#[trigger] tags@[k])@ == items@[k]->Text_0@,
                decreases items.len() - i,
            {
                match &items[i] {
                    JsonValue::Text(tag) => {
                        tags.push(replicate_text(tag));
                    },
                    _ => {
                        assert(!all_texts(items@));
                        let none: Vec<String> = Vec::new();
                        assert(texts_of(none@) =~= tags_of(stored@));
                        return none;
                    },
                }
                i += 1;
            }
            assert(all_texts(items@));
            assert(texts_of(tags@) =~= tags_of(stored@));
            tags
        },
        _ => {
            assert(texts_of(tags@) =~= tags_of(stored@));
            tags
        },
    }
}

/// A stored time as an unsigned number, where there is one.
pub open spec fn optional_unsigned_of(raw: Option<i64>) -> Option<u64> {
    match raw {
        Some(v) => Some(unsigned_of(v)),
        None => None,
    }
}

/// `record` is what `row` holds: the texts as they are, the tags read from
/// their JSON, the times as unsigned numbers, and the two marks as true for
/// anything other than zero.
pub open spec fn is_record_of(record: WordRecord, row: WordRow) -> bool {
    &&& record.id == row.id
    &&& record.word == row.word
    &&& record.translation == row.translation
    &&& record.context == row.context
    &&& record.phonetic == row.phonetic
    &&& record.example_sentence == row.example_sentence
    &&& texts_of(record.tags@) == stored_tags_of(row.tags)
    &&& record.ai_explanation == row.ai_explanation
    &&& record.mastery_level == row.mastery_level
    &&& record.review_count == row.review_count
    &&& record.last_reviewed == optional_unsigned_of(row.last_reviewed)
    &&& record.created_at == unsigned_of(row.created_at)
    &&& record.updated_at == unsigned_of(row.updated_at)
    &&& record.is_favorite == (row.is_favorite != 0)
    &&& record.is_mastered == (row.is_mastered != 0)
}

/// Turns a row into a record.
pub fn record_of_row(row: &WordRow) -> (record: WordRecord)
    ensures
        is_record_of(record, *row),
{
    let tags = match &row.tags {
        Some(stored) => parse_tags(stored.as_str()),
        None => Vec::new(),
    };
    assert(texts_of(tags@) =~= stored_tags_of(row.tags));
    WordRecord {
        id: replicate_text(&row.id),
        word: replicate_text(&row.word),
        translation: replicate_text(&row.translation),
        context: replicate_optional_text(&row.context),
        phonetic: replicate_optional_text(&row.phonetic),
        example_sentence: replicate_optional_text(&row.example_sentence),
        tags,
        ai_explanation: replicate_optional_text(&row.ai_explanation),
        mastery_level: row.mastery_level,
        review_count: row.review_count,
        last_reviewed: match row.last_reviewed {
            Some(v) => Some(to_unsigned(v)),
            None => None,
        },
        created_at: to_unsigned(row.created_at),
        updated_at: to_unsigned(row.updated_at),
        is_favorite: row.is_favorite != 0,
        is_mastered: row.is_mastered != 0,
    }
}

/// Turns the rows of the word book, which the database hands out by mastery,
/// into records in the same order.
pub fn get_all_word_records(rows: &Vec<WordRow>) -> (records: Vec<WordRecord>)
    ensures
        records@.len() == rows@.len(),
        forall|i: int| 0 <= i < rows@.len() ==> is_record_of(#[trigger] records@[i], rows@[i]),
{
    let mut records: Vec<WordRecord> = Vec::new();
    let mut i: usize = 0;
    while i < rows.len()
        invariant
            i <= rows.len(),
            records@.len() == i,
            forall|k: int| 0 <= k < i ==> is_record_of(#[trigger] records@[k], rows@[k]),
        decreases rows.len() - i,
    {
        records.push(record_of_row(&rows[i]));
        i += 1;
    }
    records
}

/// The identifier of a record made at `now`.
pub open spec fn word_id_of(now: u64) -> Seq<char> {
    "word-"@ + decimal_of(now)
}

/// `record` is a new record of these values, made at `now`: it was neither
/// reviewed nor explained, and is neither mastered nor a favourite.
pub open spec fn is_new_record(
    record: WordRecord,
    word: String,
    translation: String,
    context: Option<String>,
    phonetic: Option<String>,
    example_sentence: Option<String>,
    tags: Vec<String>,
    now: u64,
) -> bool {
    &&& record.id@ == word_id_of(now)
    &&& record.word == word
    &&& record.translation == translation
    &&& record.context == context
    &&& record.phonetic == phonetic
    &&& record.example_sentence == example_sentence
    &&& record.tags == tags
    &&& record.ai_explanation is None
    &&& record.mastery_level == 0
    &&& record.review_count == 0
    &&& record.last_reviewed is None
    &&& record.created_at == now
    &&& record.updated_at == now
    &&& !record.is_favorite
    &&& !record.is_mastered
}

/// Makes the record of a new word at `now`, and the JSON of its tags for the
/// database. It always succeeds.
pub fn add_word_record(
    word: String,
    translation: String,
    context: Option<String>,
    phonetic: Option<String>,
    example_sentence: Option<String>,
    tags: Vec<String>,
    now: u64,
) -> (added: Result<(WordRecord, String), String>)
    ensures
        added is Ok,
        is_new_record(
            added->Ok_0.0,
            word,
            translation,
            context,
            phonetic,
            example_sentence,
            tags,
            now,
        ),
        added->Ok_0.1@ == json_of_texts(texts_of(tags@)),
{
    let tags_json = match texts_to_json(&tags) {
        Some(json) => json,
        None => {
            return Err(String::from_str("Failed to serialize tags"));
        },
    };
    let record = WordRecord {
        id: String::from_str("word-").concat(decimal(now).as_str()),
        word,
        translation,
        context,
        phonetic,
        example_sentence,
        tags,
        ai_explanation: None,
        mastery_level: 0,
        review_count: 0,
        last_reviewed: None,
        created_at: now,
        updated_at: now,
        is_favorite: false,
        is_mastered: false,
    };
    Ok((record, tags_json))
}

/// What is to change in a record: each value that is given replaces the old
/// one, each that is missing leaves the old one.
#[derive(Debug)]
pub struct WordChanges {
    pub word: Option<String>,
    pub translation: Option<String>,
    pub context: Option<String>,
    pub phonetic: Option<String>,
    pub example_sentence: Option<String>,
    pub tags: Option<Vec<String>>,
    pub ai_explanation: Option<String>,
    pub mastery_level: Option<i32>,
    pub is_favorite: Option<bool>,
    pub is_mastered: Option<bool>,
}

/// `new` where it is given, `old` otherwise.
pub open spec fn replaced<T>(old: T, new: Option<T>) -> T {
    match new {
        Some(value) => value,
        None => old,
    }
}

/// `new` where it is given, `old` otherwise.
pub open spec fn replaced_optional<T>(old: Option<T>, new: Option<T>) -> Option<T> {
    match new {
        Some(value) => Some(value),
        None => old,
    }
}

/// The record `old` with `changes` made at `now`.
pub open spec fn changed_record(old: WordRecord, changes: WordChanges, now: u64) -> WordRecord {
    WordRecord {
        id: old.id,
        word: replaced(old.word, changes.word),
        translation: replaced(old.translation, changes.translation),
        context: replaced_optional(old.context, changes.context),
        phonetic: replaced_optional(old.phonetic, changes.phonetic),
        example_sentence: replaced_optional(old.example_sentence, changes.example_sentence),
        tags: replaced(old.tags, changes.tags),
        ai_explanation: replaced_optional(old.ai_explanation, changes.ai_explanation),
        mastery_level: replaced(old.mastery_level, changes.mastery_level),
        review_count: old.review_count,
        last_reviewed: old.last_reviewed,
        created_at: old.created_at,
        updated_at: now,
        is_favorite: replaced(old.is_favorite, changes.is_favorite),
        is_mastered: replaced(old.is_mastered, changes.is_mastered),
    }
}

/// The message for a record that is not in the word book.
pub open spec fn record_not_found_message(id: Seq<char>) -> Seq<char> {
    "WordRecord "@ + id + " not found"@
}

/// Changes the record `id` at `now`. `existing` is the record as the database
/// holds it; without one there is nothing to change, and that is the one way
/// to fail. The record comes back with the JSON of its tags for the database.
pub fn update_word_record(id: String, changes: WordChanges, existing: Option<WordRecord>, now: u64) -> (updated:
    Result<(WordRecord, String), String>)
    ensures
        existing is None ==> updated is Err && updated->Err_0@ == record_not_found_message(id@),
        existing is Some ==> updated is Ok && updated->Ok_0.0 == changed_record(
            existing->0,
            changes,
            now,
        ) && updated->Ok_0.1@ == json_of_texts(texts_of(updated->Ok_0.0.tags@)),
{
    let old_record = match existing {
        Some(record) => record,
        None => {
            return Err(String::from_str("WordRecord ").concat(id.as_str()).concat(" not found"));
        },
    };
    let record = WordRecord {
        id: old_record.id,
        word: match changes.word {
            Some(v) => v,
            None => old_record.word,
        },
        translation: match changes.translation {
            Some(v) => v,
            None => old_record.translation,
        },
        context: match changes.context {
            Some(v) => Some(v),
            None => old_record.context,
        },
        phonetic: match changes.phonetic {
            Some(v) => Some(v),
            None => old_record.phonetic,
        },
        example_sentence: match changes.example_sentence {
            Some(v) => Some(v),
            None => old_record.example_sentence,
        },
        tags: match changes.tags {
            Some(v) => v,
            None => old_record.tags,
        },
        ai_explanation: match changes.ai_explanation {
            Some(v) => Some(v),
            None => old_record.ai_explanation,
        },
        mastery_level: match changes.mastery_level {
            Some(v) => v,
            None => old_record.mastery_level,
        },
        review_count: old_record.review_count,
        last_reviewed: old_record.last_reviewed,
        created_at: old_record.created_at,
        updated_at: now,
        is_favorite: match changes.is_favorite {
            Some(v) => v,
            None => old_record.is_favorite,
        },
        is_mastered: match changes.is_mastered {
            Some(v) => v,
            None => old_record.is_mastered,
        },
    };
    match texts_to_json(&record.tags) {
        Some(json) => Ok((record, json)),
        None => Err(String::from_str("Failed to serialize tags")),
    }
}

/// What the removal of a record came to: with no row removed there was no
/// such record.
pub fn delete_word_record(rows_removed: usize) -> (outcome: Result<(), String>)
    ensures
        rows_removed == 0 ==> outcome is Err && outcome->Err_0@ == "WordRecord not found"@,
        rows_removed != 0 ==> outcome is Ok,
{
    if rows_removed == 0 {
        Err(String::from_str("WordRecord not found"))
    } else {
        Ok(())
    }
}

} // verus!
