//! Finding installed applications: what a scan of the start menu keeps, and
//! how a query ranks what was found.

use vstd::prelude::*;
use vstd::string::*;
use crate::ranking::{grade_inside, grade_match, graded_match, inside_match, key_of_score, rank, ranking_of, replicate_optional_text, replicate_text, score_key, select, selection, Replicate};
use crate::text::{double_quotes, extension_of, file_stem_of, join_path, joined_path, lex_le, lex_lt, lowercase_of, parent_of, path_extension, path_file_stem, path_parent, same_text, text_le, to_lowercase, trim, trimmed_of, with_quotes_doubled};

verus! {

/// An application that can be launched.
#[derive(Clone, Debug)]
pub struct AppInfo {
    pub name: String,
    pub path: String,
    pub icon: Option<String>,
    pub description: Option<String>,
}

impl Replicate for AppInfo {
    fn replicate(&self) -> (copy: Self) {
        AppInfo {
            name: replicate_text(&self.name),
            path: replicate_text(&self.path),
            icon: replicate_optional_text(&self.icon),
            description: replicate_optional_text(&self.description),
        }
    }
}

/// The file that holds the applications of the last scan.
pub fn get_cache_file_path(app_data_dir: &str) -> (path: String)
    ensures
        path@ == joined_path(app_data_dir@, "app_cache.json"@),
{
    join_path(app_data_dir, "app_cache.json")
}

/// The score of an application for a query in lower case: 1000, 500 or 100
/// for its name, and 10 more where the query occurs in its path.
pub open spec fn app_score(app: AppInfo, query_lower: Seq<char>) -> int {
    graded_match(lowercase_of(app.name@), query_lower, 1000, 500, 100) + inside_match(
        lowercase_of(app.path@),
        query_lower,
        10,
    )
}

/// The ranking keys of `apps` for a query in lower case.
pub open spec fn app_keys(apps: Seq<AppInfo>, query_lower: Seq<char>) -> Seq<Option<u64>> {
    Seq::new(apps.len(), |i: int| key_of_score(app_score(apps[i], query_lower)))
}

/// What a search for `query` finds among `apps`: all of them for an empty
/// query; otherwise those that score, the best first, equal scores in their
/// old order. Upper and lower case make no difference.
pub open spec fn app_search_of(query: Seq<char>, apps: Seq<AppInfo>) -> Seq<AppInfo> {
    if query.len() == 0 {
        apps
    } else {
        selection(apps, ranking_of(app_keys(apps, lowercase_of(query))))
    }
}

/// Scores one application.
pub fn score_app(app: &AppInfo, query_lower: &str) -> (score: u64)
    ensures
        score == app_score(*app, query_lower@),
{
    let name_lower = to_lowercase(app.name.as_str());
    let path_lower = to_lowercase(app.path.as_str());
    let by_name = grade_match(name_lower.as_str(), query_lower, 1000, 500, 100);
    let by_path = grade_inside(path_lower.as_str(), query_lower, 10);
    by_name + by_path
}

/// Searches `apps` for `query`.
pub fn search_apps(query: &str, apps: &[AppInfo]) -> (found: Vec<AppInfo>)
    ensures
        found@ == app_search_of(query@, apps@),
{
    let mut all: Vec<usize> = Vec::new();
    if query.is_empty() {
        let mut i: usize = 0;
        while i < apps.len()
            invariant
                i <= apps.len(),
                all@.len() == i,
                forall|k: int| 0 <= k < i ==> all@[k] == k,
            decreases apps.len() - i,
        {
            all.push(i);
            i += 1;
        }
        let found = select(apps, &all);
        assert(found@ =~= apps@);
        return found;
    }
    let query_lower = to_lowercase(query);
    let mut keys: Vec<Option<u64>> = Vec::new();
    let mut i: usize = 0;
    while i < apps.len()
        invariant
            i <= apps.len(),
            keys@.len() == i,
            forall|k: int|
                0 <= k < i ==> keys@[k] == key_of_score(app_score(apps@[k], query_lower@)),
        decreases apps.len() - i,
    {
        keys.push(score_key(score_app(&apps[i], query_lower.as_str())));
        i += 1;
    }
    assert(keys@ =~= app_keys(apps@, lowercase_of(query@)));
    let order = rank(&keys);
    select(apps, &order)
}

/// The deepest level of the start menu that a scan enters; the menu itself
/// is level zero.
pub const MAX_DEPTH: usize = 3;

/// The number of applications at which a scan stops.
pub const MAX_APPS: usize = 2000;

/// What a scan does with one entry of a directory.
#[derive(Debug)]
pub enum EntryAction {
    /// The entry is passed over.
    Skip,
    /// The entry is a directory: scan it next, one level deeper.
    Descend,
    /// The entry is a shortcut or a program, listed as this application.
    Add(AppInfo),
}

/// Whether a scan enters a directory at level `depth` with `found`
/// applications listed so far.
pub open spec fn scan_enters(depth: usize, found: nat) -> bool {
    depth <= MAX_DEPTH && found < MAX_APPS
}

/// Whether `path` ends in the extension `lnk` or `exe`.
pub open spec fn is_launchable(path: Seq<char>) -> bool {
    extension_of(path) == Some("lnk"@) || extension_of(path) == Some("exe"@)
}

/// Whether an entry is listed: a file that is launchable and has a stem.
pub open spec fn is_listed(path: Seq<char>, is_dir: bool) -> bool {
    !is_dir && is_launchable(path) && file_stem_of(path) is Some
}

/// Whether a scan enters a directory.
pub fn may_scan_directory(depth: usize, found: usize) -> (enters: bool)
    ensures
        enters == scan_enters(depth, found as nat),
{
    depth <= MAX_DEPTH && found < MAX_APPS
}

/// Decides what a scan does with the entry at `path`, with `found`
/// applications listed so far. Once the list is full every entry is passed
/// over. A directory is entered. A shortcut or a program is listed under the
/// stem of its file name, without icon or description.
pub fn scan_entry(path: &str, is_dir: bool, found: usize) -> (action: EntryAction)
    ensures
        found >= MAX_APPS ==> action is Skip,
        found < MAX_APPS && is_dir ==> action is Descend,
        found < MAX_APPS && !is_dir && !is_listed(path@, is_dir) ==> action is Skip,
        found < MAX_APPS && is_listed(path@, is_dir) ==> action is Add && action->Add_0.name@
            == file_stem_of(path@)->0 && action->Add_0.path@ == path@ && action->Add_0.icon is None
            && action->Add_0.description is None,
{
    if found >= MAX_APPS {
        return EntryAction::Skip;
    }
    if is_dir {
        return EntryAction::Descend;
    }
    let launchable = match path_extension(path) {
        Some(extension) => same_text(extension.as_str(), "lnk") || same_text(
            extension.as_str(),
            "exe",
        ),
        None => false,
    };
    if !launchable {
        return EntryAction::Skip;
    }
    match path_file_stem(path) {
        Some(name) => EntryAction::Add(
            AppInfo { name, path: String::from_str(path), icon: None, description: None },
        ),
        None => EntryAction::Skip,
    }
}

/// `index` is where the name of `found[index]` occurs first.
pub open spec fn is_first_of_name(found: Seq<AppInfo>, index: int) -> bool {
    &&& 0 <= index < found.len()
    &&& forall|j: int| 0 <= j < index ==> (#[trigger] found[j]).name@ != found[index].name@
}

/// `app` is one of `found`, and the first of its name there.
pub open spec fn is_first_found(found: Seq<AppInfo>, app: AppInfo) -> bool {
    exists|i: int| is_first_of_name(found, i) && #[trigger] found[i] == app
}

/// Some entry of `apps` has the name `name`.
pub open spec fn has_name(apps: Seq<AppInfo>, name: Seq<char>) -> bool {
    exists|k: int| 0 <= k < apps.len() && (#[trigger] apps[k]).name@ == name
}

/// The names of `apps` go strictly up in the order of texts.
pub open spec fn names_ascend(apps: Seq<AppInfo>) -> bool {
    forall|k: int, l: int|
        0 <= k < l < apps.len() ==> lex_lt((#[trigger] apps[k]).name@, (#[trigger] apps[l]).name@)
}

/// `listed` is the catalogue of what a scan found: the applications in the
/// order of their names, and of those that share a name the one found first.
pub open spec fn is_catalogue(listed: Seq<AppInfo>, found: Seq<AppInfo>) -> bool {
    &&& names_ascend(listed)
    &&& forall|k: int| 0 <= k < listed.len() ==> is_first_found(found, #[trigger] listed[k])
    &&& forall|i: int| 0 <= i < found.len() ==> has_name(listed, (#[trigger] found[i]).name@)
}

/// With `name` placed at `p`, before the first entry that it does not come
/// after, the names still go up.
proof fn lemma_insert_keeps_names_ascending(before: Seq<AppInfo>, app: AppInfo, p: int)
    requires
        names_ascend(before),
        0 <= p <= before.len(),
        forall|k: int| 0 <= k < p ==> !lex_le(app.name@, (#[trigger] before[k]).name@),
        p < before.len() ==> lex_lt(app.name@, before[p].name@),
    ensures
        names_ascend(before.insert(p, app)),
        !has_name(before, app.name@),
{
    let after = before.insert(p, app);
    let name = app.name@;
    assert forall|k: int| 0 <= k < p implies lex_lt((#[trigger] before[k]).name@, name) by {
        crate::text::lemma_lex_total(before[k].name@, name);
        crate::text::lemma_lex_reflexive(name);
    }
    assert forall|l: int| p <= l < before.len() implies lex_lt(
        name,
        (#[trigger] before[l]).name@,
    ) by {
        if l > p {
            assert(lex_lt(before[p].name@, before[l].name@));
            crate::text::lemma_lex_transitive(name, before[p].name@, before[l].name@);
            if name == before[l].name@ {
                crate::text::lemma_lex_antisymmetric(before[p].name@, before[l].name@);
            }
        }
    }
    assert forall|k: int, l: int| 0 <= k < l < after.len() implies lex_lt(
        (#[trigger] after[k]).name@,
        (#[trigger] after[l]).name@,
    ) by {
        if l < p {
            assert(after[k] == before[k] && after[l] == before[l]);
        } else if l == p {
            assert(after[k] == before[k]);
        } else if k == p {
            assert(after[l] == before[l - 1]);
        } else if k < p {
            assert(after[k] == before[k] && after[l] == before[l - 1]);
        } else {
            assert(after[k] == before[k - 1] && after[l] == before[l - 1]);
        }
    }
    if has_name(before, name) {
        let k = choose|k: int| 0 <= k < before.len() && (#[trigger] before[k]).name@ == name;
        if k < p {
            assert(lex_lt(before[k].name@, name));
        } else {
            assert(lex_lt(name, before[k].name@));
        }
    }
}

/// Orders what a scan found by name and keeps of each name the application
/// that was found first.
pub fn scan_start_menu(found: &[AppInfo]) -> (listed: Result<Vec<AppInfo>, String>)
    ensures
        listed is Ok,
        is_catalogue(listed->Ok_0@, found@),
{
    let mut apps: Vec<AppInfo> = Vec::new();
    let mut i: usize = 0;
    while i < found.len()
        invariant
            i <= found.len(),
            names_ascend(apps@),
            forall|k: int| 0 <= k < apps@.len() ==> is_first_found(found@, #[trigger] apps@[k]),
            forall|j: int| 0 <= j < i ==> has_name(apps@, (#[trigger] found@[j]).name@),
        decreases found.len() - i,
    {
        let app = &found[i];
        let mut p: usize = 0;
        while p < apps.len() && !text_le(app.name.as_str(), apps[p].name.as_str())
            invariant
                p <= apps.len(),
                forall|k: int| 0 <= k < p ==> !lex_le(app.name@, (#[trigger] apps@[k]).name@),
            decreases apps.len() - p,
        {
            p += 1;
        }
        if p < apps.len() && same_text(app.name.as_str(), apps[p].name.as_str()) {
            assert(has_name(apps@, found@[i as int].name@));
        } else {
            let ghost before = apps@;
            proof {
                lemma_insert_keeps_names_ascending(before, *app, p as int);
            }
            apps.insert(p, app.replicate());
            proof {
                let after = apps@;
                assert(after == before.insert(p as int, *app));
                assert(is_first_of_name(found@, i as int)) by {
                    assert forall|j: int| 0 <= j < i implies (#[trigger] found@[j]).name@
                        != found@[i as int].name@ by {
                        assert(has_name(before, found@[j].name@));
                    }
                }
                assert forall|k: int| 0 <= k < after.len() implies is_first_found(
                    found@,
                    #[trigger] after[k],
                ) by {
                    if k < p {
                        assert(after[k] == before[k]);
                    } else if k == p {
                        assert(is_first_of_name(found@, i as int) && found@[i as int] == after[k]);
                    } else {
                        assert(after[k] == before[k - 1]);
                    }
                }
                assert forall|j: int| 0 <= j < i + 1 implies has_name(
                    after,
                    (#[trigger] found@[j]).name@,
                ) by {
                    if j == i {
                        assert(after[p as int].name@ == found@[j].name@);
                    } else {
                        assert(has_name(before, found@[j].name@));
                        let k = choose|k: int|
                            0 <= k < before.len() && (#[trigger] before[k]).name@
                                == found@[j].name@;
                        if k < p {
                            assert(after[k] == before[k]);
                        } else {
                            assert(after[k + 1] == before[k]);
                        }
                    }
                }
            }
        }
        i += 1;
    }
    Ok(apps)
}

/// How an application is launched.
#[derive(Debug)]
pub enum LaunchPlan {
    /// Through the shell, which resolves a shortcut: `cmd /c start "" path`,
    /// without a console window.
    ViaShell(String),
    /// By running the file itself.
    Direct(String),
}

/// The message for an application whose file is not there.
pub open spec fn not_found_message(path: Seq<char>) -> Seq<char> {
    "Application not found: "@ + path
}

/// Decides how `app` is launched. A shortcut goes through the shell whether
/// its file was seen or not. Any other path must exist, as `present` says; it
/// is then run directly.
pub fn launch_app(app: &AppInfo, present: bool) -> (plan: Result<LaunchPlan, String>)
    ensures
        extension_of(app.path@) == Some("lnk"@) ==> plan is Ok && plan->Ok_0 is ViaShell
            && plan->Ok_0->ViaShell_0@ == app.path@,
        extension_of(app.path@) != Some("lnk"@) && present ==> plan is Ok && plan->Ok_0 is Direct
            && plan->Ok_0->Direct_0@ == app.path@,
        extension_of(app.path@) != Some("lnk"@) && !present ==> plan is Err && plan->Err_0@
            == not_found_message(app.path@),
{
    let shortcut = match path_extension(app.path.as_str()) {
        Some(extension) => same_text(extension.as_str(), "lnk"),
        None => false,
    };
    if shortcut {
        Ok(LaunchPlan::ViaShell(replicate_text(&app.path)))
    } else if !present {
        Err(String::from_str("Application not found: ").concat(app.path.as_str()))
    } else {
        Ok(LaunchPlan::Direct(replicate_text(&app.path)))
    }
}

/// The command that asks the shell where the shortcut at `lnk_path` points.
/// Single quotes in the path are doubled, as the shell reads them.
pub open spec fn shortcut_query_of(lnk_path: Seq<char>) -> Seq<char> {
    "$shell = New-Object -ComObject WScript.Shell; $shortcut = $shell.CreateShortcut('"@
        + with_quotes_doubled(lnk_path) + "'); $shortcut.TargetPath"@
}

/// Makes the command that asks where a shortcut points.
pub fn shortcut_query(lnk_path: &str) -> (command: String)
    ensures
        command@ == shortcut_query_of(lnk_path@),
{
    String::from_str(
        "$shell = New-Object -ComObject WScript.Shell; $shortcut = $shell.CreateShortcut('",
    ).concat(double_quotes(lnk_path).as_str()).concat("'); $shortcut.TargetPath")
}

/// Reads the target out of what the shell printed: the output without the
/// white space around it, which may not be empty.
pub fn shortcut_target(output: &str) -> (target: Result<String, String>)
    ensures
        trimmed_of(output@).len() > 0 ==> target is Ok && target->Ok_0@ == trimmed_of(output@),
        trimmed_of(output@).len() == 0 ==> target is Err && target->Err_0@
            == "Empty target path"@,
{
    let target = trim(output);
    if target.is_empty() {
        Err(String::from_str("Empty target path"))
    } else {
        Ok(String::from_str(target))
    }
}

/// Where a target that is not found as it stands is looked for next: under
/// the directory of the shortcut.
pub fn shortcut_target_beside(lnk_path: &str, target: &str) -> (candidate: Option<String>)
    ensures
        candidate is Some == parent_of(lnk_path@) is Some,
        candidate is Some ==> candidate->0@ == joined_path(parent_of(lnk_path@)->0, target@),
{
    match path_parent(lnk_path) {
        Some(parent) => Some(join_path(parent.as_str(), target)),
        None => None,
    }
}

/// The application that a shortcut stands for. The target is taken as it
/// stands where it exists; else from beside the shortcut where it exists
/// there; else as it stands after all, since it may be a path that only the
/// system knows. The name is the stem of the shortcut, or `Unknown`.
pub fn parse_lnk_file(
    lnk_path: &str,
    target: String,
    target_present: bool,
    beside: Option<String>,
    beside_present: bool,
) -> (app: AppInfo)
    ensures
        app.path == (if !target_present && beside is Some && beside_present {
            beside->0
        } else {
            target
        }),
        file_stem_of(lnk_path@) is Some ==> app.name@ == file_stem_of(lnk_path@)->0,
        file_stem_of(lnk_path@) is None ==> app.name@ == "Unknown"@,
        app.icon is None,
        app.description is None,
{
    let path = if target_present {
        target
    } else {
        match beside {
            Some(resolved) => if beside_present {
                resolved
            } else {
                target
            },
            None => target,
        }
    };
    let name = match path_file_stem(lnk_path) {
        Some(stem) => stem,
        None => String::from_str("Unknown"),
    };
    AppInfo { name, path, icon: None, description: None }
}

} // verus!
