//! The clipboard history: what is kept, what is thrown out, and what the
//! monitor passes on.
//!
//! The rows live in a database and the images in files; both are read and
//! written by the caller, who hands in what it found.

use vstd::prelude::*;
use vstd::string::*;
use crate::ranking::{replicate_text, Replicate};
use crate::text::{decimal, decimal_of, join_path, joined_path, same_text, to_unsigned, unsigned_of};

verus! {

/// One entry of the clipboard history.
#[derive(Clone, Debug)]
pub struct ClipboardItem {
    pub id: String,
    pub content: String,
    /// `"text"`, `"image"` or `"file"`.
    pub content_type: String,
    pub created_at: u64,
    pub is_favorite: bool,
}

impl Replicate for ClipboardItem {
    fn replicate(&self) -> (copy: Self) {
        ClipboardItem {
            id: replicate_text(&self.id),
            content: replicate_text(&self.content),
            content_type: replicate_text(&self.content_type),
            created_at: self.created_at,
            is_favorite: self.is_favorite,
        }
    }
}

/// One row of the table of the history, as the database hands it out.
#[derive(Debug)]
pub struct ClipboardRow {
    pub id: String,
    pub content: String,
    pub content_type: String,
    pub created_at: i64,
    pub is_favorite: i64,
}

/// `item` is what `row` holds: the texts as they are, the time as an unsigned
/// number, and a favourite for any mark other than zero.
pub open spec fn is_item_of(item: ClipboardItem, row: ClipboardRow) -> bool {
    &&& item.id == row.id
    &&& item.content == row.content
    &&& item.content_type == row.content_type
    &&& item.created_at == unsigned_of(row.created_at)
    &&& item.is_favorite == (row.is_favorite != 0)
}

/// Turns a row into an item.
pub fn item_of_row(row: ClipboardRow) -> (item: ClipboardItem)
    ensures
        is_item_of(item, row),
{
    ClipboardItem {
        id: row.id,
        content: row.content,
        content_type: row.content_type,
        created_at: to_unsigned(row.created_at),
        is_favorite: row.is_favorite != 0,
    }
}

/// Turns the rows of the history, which the database hands out newest first,
/// into items in the same order.
pub fn get_all_clipboard_items(rows: Vec<ClipboardRow>) -> (items: Vec<ClipboardItem>)
    ensures
        items@.len() == rows@.len(),
        forall|i: int| 0 <= i < rows@.len() ==> is_item_of(#[trigger] items@[i], rows@[i]),
{
    let ghost all = rows@;
    let mut rows = rows;
    let mut items: Vec<ClipboardItem> = Vec::new();
    let mut kept: Vec<ClipboardItem> = Vec::new();
    while rows.len() > 0
        invariant
            rows@.len() + kept@.len() == all.len(),
            forall|i: int| 0 <= i < rows@.len() ==> rows@[i] == all[i],
            forall|i: int|
                0 <= i < kept@.len() ==> is_item_of(
                    #[trigger] kept@[i],
                    all[all.len() - 1 - i],
                ),
        decreases rows@.len(),
    {
        let row = rows.pop().unwrap();
        kept.push(item_of_row(row));
    }
    while kept.len() > 0
        invariant
            items@.len() + kept@.len() == all.len(),
            forall|i: int|
                0 <= i < kept@.len() ==> is_item_of(
                    #[trigger] kept@[i],
                    all[all.len() - 1 - i],
                ),
            forall|i: int| 0 <= i < items@.len() ==> is_item_of(#[trigger] items@[i], all[i]),
        decreases kept@.len(),
    {
        let item = kept.pop().unwrap();
        items.push(item);
    }
    items
}

/// The identifier of an entry made at `now`.
pub open spec fn clipboard_id_of(now: u64) -> Seq<char> {
    "clipboard-"@ + decimal_of(now)
}

/// What has to be written for an entry that was put on the clipboard.
#[derive(Clone, Copy, Debug, PartialEq, Eq, Structural)]
pub enum ClipboardWrite {
    /// The content is known: only the time of its row is brought up to date.
    Touch,
    /// The content is new: a row is added, and the limit enforced after that.
    Insert,
}

/// Decides what becomes of content that was put on the clipboard at `now`.
/// `existing` is the identifier of the row that holds the same content of the
/// same type, if there is one. Known content keeps its identifier and gets the
/// new time; new content gets an identifier made from the time. Either way
/// the item that is handed back is no favourite.
pub fn add_clipboard_item(content: String, content_type: String, now: u64, existing: Option<String>) -> (added: (
    ClipboardItem,
    ClipboardWrite,
))
    ensures
        added.0.content == content,
        added.0.content_type == content_type,
        added.0.created_at == now,
        !added.0.is_favorite,
        existing is Some ==> added.0.id == existing->0 && added.1 == ClipboardWrite::Touch,
        existing is None ==> added.0.id@ == clipboard_id_of(now) && added.1
            == ClipboardWrite::Insert,
{
    match existing {
        Some(id) => (
            ClipboardItem { id, content, content_type, created_at: now, is_favorite: false },
            ClipboardWrite::Touch,
        ),
        None => {
            let id = String::from_str("clipboard-").concat(decimal(now).as_str());
            (
                ClipboardItem { id, content, content_type, created_at: now, is_favorite: false },
                ClipboardWrite::Insert,
            )
        },
    }
}

/// How many of the oldest entries that are no favourites have to go: those
/// beyond the limit. A limit of zero is no limit.
pub open spec fn surplus_of(max_items: u32, non_favorite_count: i64) -> int {
    if max_items == 0 || non_favorite_count <= max_items {
        0
    } else {
        non_favorite_count - max_items
    }
}

/// Counts the entries that have to go to keep the history within its limit.
pub fn enforce_max_items(max_items: u32, non_favorite_count: i64) -> (to_delete: i64)
    ensures
        to_delete == surplus_of(max_items, non_favorite_count),
        to_delete >= 0,
{
    if max_items == 0 || non_favorite_count <= max_items as i64 {
        0
    } else {
        non_favorite_count - max_items as i64
    }
}

/// Whether the file of an entry goes with the entry: the entry is an image,
/// and no more than `allowed` rows hold its file. Before the entry's own row
/// is removed one row may hold it, after that none.
pub fn image_file_is_unused(content_type: &str, references: i64, allowed: i64) -> (unused: bool)
    ensures
        unused == (content_type@ == "image"@ && references <= allowed),
{
    same_text(content_type, "image") && references <= allowed
}

/// How often the removal of a file is tried.
pub const MAX_REMOVE_ATTEMPTS: u32 = 3;

/// How long to wait before the removal of a file is tried again, in
/// milliseconds.
pub const REMOVE_RETRY_DELAY_MS: u64 = 100;

/// What follows an attempt to remove a file.
#[derive(Clone, Copy, Debug, PartialEq, Eq, Structural)]
pub enum RemoveRetry {
    /// The file is gone.
    Removed,
    /// Wait for this many milliseconds and try again.
    RetryAfter(u64),
    /// The file stays: every attempt has failed.
    GiveUp,
}

/// Decides what follows attempt number `attempt`, counted from one.
pub fn after_remove_attempt(attempt: u32, succeeded: bool) -> (next: RemoveRetry)
    ensures
        succeeded ==> next == RemoveRetry::Removed,
        !succeeded && attempt < MAX_REMOVE_ATTEMPTS ==> next == RemoveRetry::RetryAfter(
            REMOVE_RETRY_DELAY_MS,
        ),
        !succeeded && attempt >= MAX_REMOVE_ATTEMPTS ==> next == RemoveRetry::GiveUp,
{
    if succeeded {
        RemoveRetry::Removed
    } else if attempt < MAX_REMOVE_ATTEMPTS {
        RemoveRetry::RetryAfter(REMOVE_RETRY_DELAY_MS)
    } else {
        RemoveRetry::GiveUp
    }
}

/// The message for an entry that is not in the history.
pub open spec fn item_not_found_message(id: Seq<char>) -> Seq<char> {
    "Clipboard item "@ + id + " not found"@
}

/// The message for an entry that is not in the history.
pub fn item_not_found(id: &str) -> (message: String)
    ensures
        message@ == item_not_found_message(id@),
{
    String::from_str("Clipboard item ").concat(id).concat(" not found")
}

/// Gives the entry `id` new content. `existing` is the entry as the database
/// holds it; without one there is nothing to change.
pub fn update_clipboard_item(id: String, content: String, existing: Option<ClipboardItem>) -> (updated:
    Result<ClipboardItem, String>)
    ensures
        existing is None ==> updated is Err && updated->Err_0@ == item_not_found_message(id@),
        existing is Some ==> updated is Ok && updated->Ok_0 == (ClipboardItem {
            content,
            ..existing->0
        }),
{
    match existing {
        Some(item) => Ok(
            ClipboardItem {
                id: item.id,
                content,
                content_type: item.content_type,
                created_at: item.created_at,
                is_favorite: item.is_favorite,
            },
        ),
        None => Err(item_not_found(id.as_str())),
    }
}

/// Makes a favourite of the entry `id`, or ends its being one.
pub fn toggle_favorite_clipboard_item(id: String, existing: Option<ClipboardItem>) -> (toggled:
    Result<ClipboardItem, String>)
    ensures
        existing is None ==> toggled is Err && toggled->Err_0@ == item_not_found_message(id@),
        existing is Some ==> toggled is Ok && toggled->Ok_0 == (ClipboardItem {
            is_favorite: !existing->0.is_favorite,
            ..existing->0
        }),
{
    match existing {
        Some(item) => Ok(
            ClipboardItem {
                id: item.id,
                content: item.content,
                content_type: item.content_type,
                created_at: item.created_at,
                is_favorite: !item.is_favorite,
            },
        ),
        None => Err(item_not_found(id.as_str())),
    }
}

/// The mark that the database stores for a favourite.
pub fn favorite_mark(is_favorite: bool) -> (mark: i64)
    ensures
        mark == (if is_favorite { 1int } else { 0int }),
{
    if is_favorite {
        1
    } else {
        0
    }
}

/// What the removal of an entry came to: with no row removed there was no
/// such entry.
pub fn delete_clipboard_item(rows_removed: usize) -> (outcome: Result<(), String>)
    ensures
        rows_removed == 0 ==> outcome is Err && outcome->Err_0@ == "Clipboard item not found"@,
        rows_removed != 0 ==> outcome is Ok,
{
    if rows_removed == 0 {
        Err(String::from_str("Clipboard item not found"))
    } else {
        Ok(())
    }
}

/// What the monitor saw last, so that the same content is passed on once.
#[derive(Debug)]
pub struct ClipboardMonitor {
    pub last_text: String,
    pub last_image: String,
}

impl ClipboardMonitor {
    /// A monitor that has seen nothing.
    pub fn new() -> (monitor: Self)
        ensures
            monitor.last_text@.len() == 0,
            monitor.last_image@.len() == 0,
    {
        ClipboardMonitor { last_text: String::new(), last_image: String::new() }
    }

    /// Takes note of the text on the clipboard and says whether it goes into
    /// the history: text that is not empty and differs from the text seen last.
    pub fn observe_text(&mut self, content: &str) -> (fresh: bool)
        ensures
            fresh == (content@.len() > 0 && content@ != old(self).last_text@),
            fresh ==> final(self).last_text@ == content@,
            !fresh ==> final(self).last_text == old(self).last_text,
            final(self).last_image == old(self).last_image,
    {
        if !content.is_empty() && !same_text(content, self.last_text.as_str()) {
            self.last_text = String::from_str(content);
            true
        } else {
            false
        }
    }

    /// Takes note of the file of the image on the clipboard and says whether
    /// it goes into the history.
    pub fn observe_image(&mut self, image_path: &str) -> (fresh: bool)
        ensures
            fresh == (image_path@.len() > 0 && image_path@ != old(self).last_image@),
            fresh ==> final(self).last_image@ == image_path@,
            !fresh ==> final(self).last_image == old(self).last_image,
            final(self).last_text == old(self).last_text,
    {
        if !image_path.is_empty() && !same_text(image_path, self.last_image.as_str()) {
            self.last_image = String::from_str(image_path);
            true
        } else {
            false
        }
    }
}

/// The directory that holds the images of the history.
pub fn clipboard_images_dir(app_data_dir: &str) -> (path: String)
    ensures
        path@ == joined_path(app_data_dir@, "clipboard_images"@),
{
    join_path(app_data_dir, "clipboard_images")
}

} // verus!
