//! The files and folders that were opened before, and searching them.

use vstd::prelude::*;
use vstd::string::*;
use crate::ranking::{grade_inside, grade_match, grade_pinyin, graded_match, inside_match, key_of_score, pinyin_match, rank, ranking_of, replicate_text, score_key, select, selection, Replicate};
use crate::text::{contains_chinese, file_name_of, has_chinese, is_absolute_path, join_path, joined_path, lowercase_of, path_file_name, path_is_absolute, same_text, to_lowercase, trim, trim_trailing_separators, trimmed_of, without_trailing_separators};

verus! {

/// One path that was opened, with when and how often.
#[derive(Clone, Debug)]
pub struct FileHistoryItem {
    pub path: String,
    pub name: String,
    /// Seconds since the Unix epoch.
    pub last_used: u64,
    pub use_count: u64,
}

impl Replicate for FileHistoryItem {
    fn replicate(&self) -> (copy: Self) {
        FileHistoryItem {
            path: replicate_text(&self.path),
            name: replicate_text(&self.name),
            last_used: self.last_used,
            use_count: self.use_count,
        }
    }
}

/// No two of `items` have the same path.
pub open spec fn paths_distinct(items: Seq<FileHistoryItem>) -> bool {
    forall|i: int, j: int|
        0 <= i < j < items.len() ==> (#[trigger] items[i]).path@ != (#[trigger] items[j]).path@
}

/// The history: one item for each path, in the order in which the paths were
/// first opened.
pub struct FileHistory {
    pub items: Vec<FileHistoryItem>,
}

impl FileHistory {
    /// Each path has one item.
    pub open spec fn wf(&self) -> bool {
        paths_distinct(self.items@)
    }

    /// An empty history.
    pub fn new() -> (history: Self)
        ensures
            history.wf(),
            history.items@.len() == 0,
    {
        FileHistory { items: Vec::new() }
    }

    /// Whether each path has one item.
    pub fn is_well_formed(&self) -> (ok: bool)
        ensures
            ok == self.wf(),
    {
        let mut j: usize = 0;
        while j < self.items.len()
            invariant
                j <= self.items.len(),
                forall|a: int, b: int|
                    0 <= a < b < j ==> (#[trigger] self.items@[a]).path@ != (
                    #[trigger] self.items@[b]).path@,
            decreases self.items.len() - j,
        {
            let mut i: usize = 0;
            while i < j
                invariant
                    i <= j < self.items.len(),
                    forall|a: int|
                        0 <= a < i ==> (#[trigger] self.items@[a]).path@ != self.items@[j as int].path@,
                decreases j - i,
            {
                if same_text(self.items[i].path.as_str(), self.items[j].path.as_str()) {
                    return false;
                }
                i += 1;
            }
            j += 1;
        }
        true
    }

    /// Where the item of `path` stands.
    pub fn find(&self, path: &str) -> (found: Option<usize>)
        ensures
            found is Some ==> found->0 < self.items@.len() && self.items@[found->0 as int].path@
                == path@,
            found is None ==> forall|i: int|
                0 <= i < self.items@.len() ==> (#[trigger] self.items@[i]).path@ != path@,
    {
        let mut i: usize = 0;
        while i < self.items.len()
            invariant
                i <= self.items.len(),
                forall|k: int| 0 <= k < i ==> (#[trigger] self.items@[k]).path@ != path@,
            decreases self.items.len() - i,
        {
            if same_text(self.items[i].path.as_str(), path) {
                return Some(i);
            }
            i += 1;
        }
        None
    }
}

/// The file that holds the history.
pub fn get_history_file_path(app_data_dir: &str) -> (path: String)
    ensures
        path@ == joined_path(app_data_dir@, "file_history.json"@),
{
    join_path(app_data_dir, "file_history.json")
}

/// A path as it was typed, without the white space around it and without the
/// separators at its end.
pub open spec fn tidy_path(path: Seq<char>) -> Seq<char> {
    without_trailing_separators(trimmed_of(path))
}

/// The path under which an entry is kept: the tidy path itself where it is
/// absolute, and the tidy path under `current_dir` where it is not.
pub open spec fn normalized_path(path: Seq<char>, current_dir: Seq<char>) -> Seq<char> {
    if is_absolute_path(tidy_path(path)) {
        tidy_path(path)
    } else {
        joined_path(current_dir, tidy_path(path))
    }
}

/// Tidies a path as it was typed.
pub fn tidy(path: &str) -> (tidied: &str)
    ensures
        tidied@ == tidy_path(path@),
{
    trim_trailing_separators(trim(path))
}

/// Whether a path as it was typed is relative, so that normalizing it needs
/// the current directory.
pub fn needs_current_dir(path: &str) -> (relative: bool)
    ensures
        relative == !is_absolute_path(tidy_path(path@)),
{
    !path_is_absolute(tidy(path))
}

/// Normalizes a path as it was typed. `current_dir` is read only for a
/// relative path.
pub fn normalize_path(path: &str, current_dir: &str) -> (normalized: String)
    ensures
        normalized@ == normalized_path(path@, current_dir@),
{
    let tidied = tidy(path);
    if path_is_absolute(tidied) {
        String::from_str(tidied)
    } else {
        join_path(current_dir, tidied)
    }
}

/// The name under which a path is listed: its last component, or the whole
/// path where it has none.
pub open spec fn display_name_of(path: Seq<char>) -> Seq<char> {
    match file_name_of(path) {
        Some(name) => name,
        None => path,
    }
}

/// One more than `count`, and `u64::MAX` where that cannot be counted.
pub open spec fn counted_once_more(count: u64) -> u64 {
    if count < u64::MAX {
        (count + 1) as u64
    } else {
        count
    }
}

/// How the items `after` follow from the items `before` when `path` was
/// opened at `timestamp`. Nothing changes for a path that does not exist.
/// Otherwise the items of other paths stay as they are; the item of `path` is
/// used once more; and where there was none, one is added at the end.
pub open spec fn added_to(
    before: Seq<FileHistoryItem>,
    after: Seq<FileHistoryItem>,
    path: Seq<char>,
    present: bool,
    timestamp: u64,
) -> bool {
    if !present {
        after == before
    } else {
        let known = exists|k: int| 0 <= k < before.len() && (#[trigger] before[k]).path@ == path;
        &&& after.len() == before.len() + (if known { 0int } else { 1int })
        &&& forall|k: int|
            0 <= k < before.len() && (#[trigger] before[k]).path@ != path ==> after[k]
                == before[k]
        &&& forall|k: int|
            0 <= k < before.len() && (#[trigger] before[k]).path@ == path ==> after[k] == (
            FileHistoryItem {
                last_used: timestamp,
                use_count: counted_once_more(before[k].use_count),
                ..before[k]
            })
        &&& !known ==> {
            &&& after.last().path@ == path
            &&& after.last().name@ == display_name_of(path)
            &&& after.last().last_used == timestamp
            &&& after.last().use_count == 1
        }
    }
}

/// The message for a path that is not there.
pub open spec fn path_not_found_message(path: Seq<char>) -> Seq<char> {
    "Path not found: "@ + path
}

/// Notes that the normalized path `path` was opened at `timestamp`. A path
/// that does not exist, as `present` says, is turned away and the history
/// stays as it is. A path that is known is used once more; any other is
/// added at the end with a count of one.
pub fn add_file_path(history: &mut FileHistory, path: String, present: bool, timestamp: u64) -> (outcome:
    Result<(), String>)
    requires
        old(history).wf(),
    ensures
        final(history).wf(),
        added_to(old(history).items@, final(history).items@, path@, present, timestamp),
        present ==> outcome is Ok,
        !present ==> outcome is Err && outcome->Err_0@ == path_not_found_message(path@),
{
    if !present {
        return Err(String::from_str("Path not found: ").concat(path.as_str()));
    }
    match history.find(path.as_str()) {
        Some(k) => {
            let old_item = &history.items[k];
            let use_count = if old_item.use_count < u64::MAX {
                old_item.use_count + 1
            } else {
                old_item.use_count
            };
            let item = FileHistoryItem {
                path: replicate_text(&old_item.path),
                name: replicate_text(&old_item.name),
                last_used: timestamp,
                use_count,
            };
            history.items.set(k, item);
        },
        None => {
            let name = match path_file_name(path.as_str()) {
                Some(name) => name,
                None => replicate_text(&path),
            };
            history.items.push(FileHistoryItem { path, name, last_used: timestamp, use_count: 1 });
        },
    }
    Ok(())
}

/// The score of an item for a query in lower case: 1000, 500 or 100 for its
/// name; what its pinyin adds, unless the query holds Chinese itself; 10 where
/// the query occurs in its path. An item that scores gets as many points more
/// as it was used, 100 at most.
pub open spec fn history_score(item: FileHistoryItem, query_lower: Seq<char>) -> int {
    let base = graded_match(lowercase_of(item.name@), query_lower, 1000, 500, 100) + (
    if has_chinese(query_lower) {
        0
    } else {
        pinyin_match(item.name@, query_lower)
    }) + inside_match(lowercase_of(item.path@), query_lower, 10);
    if base > 0 {
        base + (if item.use_count < 100 {
            item.use_count as int
        } else {
            100
        })
    } else {
        0
    }
}

/// The ranking keys of a search: for an empty query when each item was last
/// used, otherwise its score.
pub open spec fn history_keys(items: Seq<FileHistoryItem>, query: Seq<char>) -> Seq<Option<u64>> {
    Seq::new(
        items.len(),
        |i: int|
            if query.len() == 0 {
                Some(items[i].last_used)
            } else {
                key_of_score(history_score(items[i], lowercase_of(query)))
            },
    )
}

/// What a search for `query` finds: for an empty query every item, the one
/// used last first; otherwise the items that score, the best first. Items
/// that tie keep the order of the history.
pub open spec fn history_search_of(query: Seq<char>, items: Seq<FileHistoryItem>) -> Seq<
    FileHistoryItem,
> {
    selection(items, ranking_of(history_keys(items, query)))
}

/// Scores one item.
fn score_history_item(item: &FileHistoryItem, query_lower: &str, query_is_pinyin: bool) -> (score:
    u64)
    requires
        query_is_pinyin == !has_chinese(query_lower@),
    ensures
        score == history_score(*item, query_lower@),
{
    let name_lower = to_lowercase(item.name.as_str());
    let path_lower = to_lowercase(item.path.as_str());
    let by_name = grade_match(name_lower.as_str(), query_lower, 1000, 500, 100);
    let by_pinyin = if query_is_pinyin {
        grade_pinyin(item.name.as_str(), query_lower)
    } else {
        0
    };
    let by_path = grade_inside(path_lower.as_str(), query_lower, 10);
    let base = by_name + by_pinyin + by_path;
    if base > 0 {
        base + (if item.use_count < 100 {
            item.use_count
        } else {
            100
        })
    } else {
        0
    }
}

/// Searches the history for `query`.
pub fn search_file_history(query: &str, history: &FileHistory) -> (found: Vec<FileHistoryItem>)
    ensures
        found@ == history_search_of(query@, history.items@),
{
    let items = &history.items;
    let mut keys: Vec<Option<u64>> = Vec::new();
    if query.is_empty() {
        let mut i: usize = 0;
        while i < items.len()
            invariant
                i <= items.len(),
                keys@.len() == i,
                forall|k: int| 0 <= k < i ==> keys@[k] == Some(items@[k].last_used),
            decreases items.len() - i,
        {
            keys.push(Some(items[i].last_used));
            i += 1;
        }
    } else {
        let query_lower = to_lowercase(query);
        let query_is_pinyin = !contains_chinese(query_lower.as_str());
        let mut i: usize = 0;
        while i < items.len()
            invariant
                i <= items.len(),
                keys@.len() == i,
                query_is_pinyin == !has_chinese(query_lower@),
                forall|k: int|
                    0 <= k < i ==> keys@[k] == key_of_score(
                        history_score(items@[k], query_lower@),
                    ),
            decreases items.len() - i,
        {
            keys.push(
                score_key(score_history_item(&items[i], query_lower.as_str(), query_is_pinyin)),
            );
            i += 1;
        }
    }
    assert(keys@ =~= history_keys(items@, query@));
    let order = rank(&keys);
    select(items.as_slice(), &order)
}

/// Decides how a path is opened: the tidy path, which must exist, as `present`
/// says of it.
pub fn launch_file(path: &str, present: bool) -> (target: Result<String, String>)
    ensures
        present ==> target is Ok && target->Ok_0@ == tidy_path(path@),
        !present ==> target is Err && target->Err_0@ == path_not_found_message(tidy_path(path@)),
{
    let tidied = tidy(path);
    if present {
        Ok(String::from_str(tidied))
    } else {
        Err(String::from_str("Path not found: ").concat(tidied))
    }
}

} // verus!
