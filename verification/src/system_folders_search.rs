//! The special folders of the system, and searching them by name, by
//! pinyin and by path.

use vstd::prelude::*;
use vstd::string::*;
use crate::ranking::{grade_inside, grade_match, grade_pinyin, graded_match, inside_match, key_of_score, pinyin_match, rank, ranking_of, replicate_optional_text, replicate_text, score_key, select, selection, Replicate};
use crate::text::{contains_chinese, has_chinese, join_path, joined_path, lowercase_of, pinyin_initials_of, pinyin_of, to_lowercase, to_pinyin, to_pinyin_initials, trim, trimmed_of};

verus! {

/// A special folder that can be opened.
#[derive(Clone, Debug)]
pub struct SystemFolderItem {
    pub name: String,
    pub path: String,
    pub display_name: String,
    pub is_folder: bool,
    /// A PNG image, Base64 encoded.
    pub icon: Option<String>,
    /// The full pinyin of the name, for a name that holds Chinese.
    pub name_pinyin: Option<String>,
    /// The pinyin initials of the name, for a name that holds Chinese.
    pub name_pinyin_initials: Option<String>,
}

impl Replicate for SystemFolderItem {
    fn replicate(&self) -> (copy: Self) {
        SystemFolderItem {
            name: replicate_text(&self.name),
            path: replicate_text(&self.path),
            display_name: replicate_text(&self.display_name),
            is_folder: self.is_folder,
            icon: replicate_optional_text(&self.icon),
            name_pinyin: replicate_optional_text(&self.name_pinyin),
            name_pinyin_initials: replicate_optional_text(&self.name_pinyin_initials),
        }
    }
}

/// The recycle bin, reached through its class identifier.
pub fn get_recycle_bin_path() -> (path: Option<String>)
    ensures
        path is Some,
        path->0@ == "::{645FF040-5081-101B-9F08-00AA002F954E}"@,
{
    Some(String::from_str("::{645FF040-5081-101B-9F08-00AA002F954E}"))
}

/// The classic control panel, opened by its command.
pub fn get_control_panel_path() -> (path: Option<String>)
    ensures
        path is Some,
        path->0@ == "control"@,
{
    Some(String::from_str("control"))
}

/// The settings of the system, opened by their address.
pub fn get_settings_path() -> (path: Option<String>)
    ensures
        path is Some,
        path->0@ == "ms-settings:"@,
{
    Some(String::from_str("ms-settings:"))
}

/// Where the downloads of a user are expected: under the user's profile.
pub fn downloads_candidate(user_profile: &str) -> (path: String)
    ensures
        path@ == joined_path(user_profile@, "Downloads"@),
{
    join_path(user_profile, "Downloads")
}

/// The folder of downloads: the expected place, where a user profile is known
/// and the folder is there, as `present` says.
pub fn get_downloads_folder(candidate: Option<String>, present: bool) -> (path: Option<String>)
    ensures
        present ==> path == candidate,
        !present ==> path is None,
{
    match candidate {
        Some(folder) => if present {
            Some(folder)
        } else {
            None
        },
        None => None,
    }
}

/// A name in one language with its name in another behind it in brackets.
pub open spec fn display_name_of(name: Seq<char>, other: Seq<char>) -> Seq<char> {
    name + " ("@ + other + ")"@
}

/// `item` is the special folder `name` at `path`: it is shown with its
/// English name in brackets, counts as a folder and has no icon of its own; a
/// name that holds Chinese comes with its pinyin and its initials, both in
/// lower case.
pub open spec fn is_folder_item(
    item: SystemFolderItem,
    name: Seq<char>,
    english: Seq<char>,
    path: Seq<char>,
) -> bool {
    &&& item.name@ == name
    &&& item.path@ == path
    &&& item.display_name@ == display_name_of(name, english)
    &&& item.is_folder
    &&& item.icon is None
    &&& item.name_pinyin is Some == has_chinese(name)
    &&& item.name_pinyin_initials is Some == has_chinese(name)
    &&& has_chinese(name) ==> item.name_pinyin->0@ == lowercase_of(pinyin_of(name))
        && item.name_pinyin_initials->0@ == lowercase_of(pinyin_initials_of(name))
}

/// Makes the item of one special folder.
pub fn folder_item(name: &str, english: &str, path: String) -> (item: SystemFolderItem)
    ensures
        is_folder_item(item, name@, english@, path@),
{
    let (name_pinyin, name_pinyin_initials) = if contains_chinese(name) {
        (
            Some(to_lowercase(to_pinyin(name).as_str())),
            Some(to_lowercase(to_pinyin_initials(name).as_str())),
        )
    } else {
        (None, None)
    };
    let display_name = String::from_str(name).concat(" (").concat(english).concat(")");
    SystemFolderItem {
        name: String::from_str(name),
        path,
        display_name,
        is_folder: true,
        icon: None,
        name_pinyin,
        name_pinyin_initials,
    }
}

/// The special folders: the recycle bin, the control panel and the settings,
/// and behind them the downloads where that folder is there.
pub fn get_all_system_folders(downloads: Option<String>) -> (folders: Vec<SystemFolderItem>)
    ensures
        folders@.len() == (if downloads is Some { 4int } else { 3int }),
        is_folder_item(
            folders@[0],
            "回收站"@,
            "Recycle Bin"@,
            "::{645FF040-5081-101B-9F08-00AA002F954E}"@,
        ),
        is_folder_item(folders@[1], "控制面板"@, "Control Panel"@, "control"@),
        is_folder_item(folders@[2], "设置"@, "Settings"@, "ms-settings:"@),
        downloads is Some ==> is_folder_item(folders@[3], "下载"@, "Downloads"@, downloads->0@),
{
    let mut folders: Vec<SystemFolderItem> = Vec::new();
    if let Some(path) = get_recycle_bin_path() {
        folders.push(folder_item("回收站", "Recycle Bin", path));
    }
    if let Some(path) = get_control_panel_path() {
        folders.push(folder_item("控制面板", "Control Panel", path));
    }
    if let Some(path) = get_settings_path() {
        folders.push(folder_item("设置", "Settings", path));
    }
    if let Some(path) = downloads {
        folders.push(folder_item("下载", "Downloads", path));
    }
    folders
}

/// The score of a folder for a query in lower case: 1000, 500 or 100 for its
/// name and 50 where the query occurs in the name it is shown with; unless the
/// query holds Chinese itself, what the pinyin of the name adds, and 100 and
/// 80 where the query occurs in the pinyin and in the initials of the name it
/// is shown with; 10 where the query occurs in its path.
pub open spec fn folder_score(folder: SystemFolderItem, query_lower: Seq<char>) -> int {
    graded_match(lowercase_of(folder.name@), query_lower, 1000, 500, 100) + inside_match(
        lowercase_of(folder.display_name@),
        query_lower,
        50,
    ) + (if has_chinese(query_lower) {
        0
    } else {
        pinyin_match(folder.name@, query_lower) + inside_match(
            lowercase_of(pinyin_of(folder.display_name@)),
            query_lower,
            100,
        ) + inside_match(lowercase_of(pinyin_initials_of(folder.display_name@)), query_lower, 80)
    }) + inside_match(lowercase_of(folder.path@), query_lower, 10)
}

/// The ranking keys of `folders` for a query in lower case.
pub open spec fn folder_keys(folders: Seq<SystemFolderItem>, query_lower: Seq<char>) -> Seq<
    Option<u64>,
> {
    Seq::new(folders.len(), |i: int| key_of_score(folder_score(folders[i], query_lower)))
}

/// What a search for `query` finds among `folders`: all of them for a query
/// that is empty or blank; otherwise those that score, the best first, equal
/// scores in their old order.
pub open spec fn folder_search_of(query: Seq<char>, folders: Seq<SystemFolderItem>) -> Seq<
    SystemFolderItem,
> {
    if trimmed_of(query).len() == 0 {
        folders
    } else {
        selection(folders, ranking_of(folder_keys(folders, lowercase_of(query))))
    }
}

/// Scores one folder.
fn score_folder(folder: &SystemFolderItem, query_lower: &str, query_is_pinyin: bool) -> (score:
    u64)
    requires
        query_is_pinyin == !has_chinese(query_lower@),
    ensures
        score == folder_score(*folder, query_lower@),
{
    let name_lower = to_lowercase(folder.name.as_str());
    let display_lower = to_lowercase(folder.display_name.as_str());
    let path_lower = to_lowercase(folder.path.as_str());
    let by_name = grade_match(name_lower.as_str(), query_lower, 1000, 500, 100);
    let by_display = grade_inside(display_lower.as_str(), query_lower, 50);
    let by_pinyin = if query_is_pinyin {
        let display_pinyin = to_lowercase(to_pinyin(folder.display_name.as_str()).as_str());
        let display_initials = to_lowercase(
            to_pinyin_initials(folder.display_name.as_str()).as_str(),
        );
        grade_pinyin(folder.name.as_str(), query_lower) + grade_inside(
            display_pinyin.as_str(),
            query_lower,
            100,
        ) + grade_inside(display_initials.as_str(), query_lower, 80)
    } else {
        0
    };
    let by_path = grade_inside(path_lower.as_str(), query_lower, 10);
    by_name + by_display + by_pinyin + by_path
}

/// Searches `folders` for `query`.
pub fn search_system_folders(query: &str, folders: &[SystemFolderItem]) -> (found: Vec<
    SystemFolderItem,
>)
    ensures
        found@ == folder_search_of(query@, folders@),
{
    if trim(query).is_empty() {
        let mut all: Vec<usize> = Vec::new();
        let mut i: usize = 0;
        while i < folders.len()
            invariant
                i <= folders.len(),
                all@.len() == i,
                forall|k: int| 0 <= k < i ==> all@[k] == k,
            decreases folders.len() - i,
        {
            all.push(i);
            i += 1;
        }
        let found = select(folders, &all);
        assert(found@ =~= folders@);
        return found;
    }
    let query_lower = to_lowercase(query);
    let query_is_pinyin = !contains_chinese(query_lower.as_str());
    let mut keys: Vec<Option<u64>> = Vec::new();
    let mut i: usize = 0;
    while i < folders.len()
        invariant
            i <= folders.len(),
            keys@.len() == i,
            query_is_pinyin == !has_chinese(query_lower@),
            forall|k: int|
                0 <= k < i ==> keys@[k] == key_of_score(folder_score(folders@[k], query_lower@)),
        decreases folders.len() - i,
    {
        keys.push(score_key(score_folder(&folders[i], query_lower.as_str(), query_is_pinyin)));
        i += 1;
    }
    assert(keys@ =~= folder_keys(folders@, lowercase_of(query@)));
    let order = rank(&keys);
    select(folders, &order)
}

} // verus!
