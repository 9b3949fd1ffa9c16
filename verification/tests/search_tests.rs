use re_fast::app_search::{
    get_cache_file_path, launch_app, may_scan_directory, parse_lnk_file, scan_entry,
    scan_start_menu, search_apps, shortcut_query, shortcut_target, shortcut_target_beside, AppInfo,
    EntryAction, LaunchPlan,
};
use re_fast::file_history::{
    add_file_path, get_history_file_path, launch_file, needs_current_dir, normalize_path,
    search_file_history, tidy, FileHistory, FileHistoryItem,
};
use re_fast::ranking::rank;
use re_fast::system_folders_search::{
    downloads_candidate, get_all_system_folders, get_downloads_folder, search_system_folders,
};
use re_fast::text::{contains_chinese, decimal, to_pinyin, to_pinyin_initials};

fn app(name: &str, path: &str) -> AppInfo {
    AppInfo { name: name.to_string(), path: path.to_string(), icon: None, description: None }
}

fn names(apps: &[AppInfo]) -> Vec<String> {
    apps.iter().map(|a| a.name.clone()).collect()
}

fn item(path: &str, name: &str, last_used: u64, use_count: u64) -> FileHistoryItem {
    FileHistoryItem { path: path.to_string(), name: name.to_string(), last_used, use_count }
}

#[test]
fn rank_orders_by_key_then_by_position() {
    let keys = vec![Some(10), None, Some(500), Some(10), Some(1000), None, Some(500)];
    assert_eq!(rank(&keys), vec![4, 2, 6, 0, 3]);
    assert_eq!(rank(&Vec::new()), Vec::<usize>::new());
    assert_eq!(rank(&vec![None, None]), Vec::<usize>::new());
    assert_eq!(rank(&vec![Some(0), Some(u64::MAX)]), vec![1, 0]);
}

#[test]
fn empty_query_returns_all_apps() {
    let apps = vec![app("Notepad", "C:/n.exe"), app("Calc", "C:/c.exe")];
    assert_eq!(names(&search_apps("", &apps)), vec!["Notepad", "Calc"]);
}

#[test]
fn search_apps_ranks_exact_prefix_inside_and_path() {
    let apps = vec![
        app("My Code Tools", "C:/tools/t.exe"),
        app("Paint", "C:/code/paint.exe"),
        app("Codec", "C:/x/y.exe"),
        app("Unrelated", "C:/z.exe"),
        app("CODE", "C:/vs/bin.exe"),
        app("Code Helper", "C:/code/helper.exe"),
    ];
    let found = search_apps("Code", &apps);
    assert_eq!(names(&found), vec!["CODE", "Code Helper", "Codec", "My Code Tools", "Paint"]);
}

#[test]
fn search_apps_keeps_the_order_of_equal_scores() {
    let apps = vec![app("abc one", "one"), app("abc two", "two"), app("abc three", "three")];
    assert_eq!(names(&search_apps("ABC", &apps)), vec!["abc one", "abc two", "abc three"]);
    assert!(search_apps("zzz", &apps).is_empty());
}

#[test]
fn search_apps_hands_out_copies() {
    let apps = vec![AppInfo {
        name: "Tool".to_string(),
        path: "C:/t.lnk".to_string(),
        icon: Some("icon".to_string()),
        description: Some("does things".to_string()),
    }];
    let found = search_apps("tool", &apps);
    assert_eq!(found.len(), 1);
    assert_eq!(found[0].path, "C:/t.lnk");
    assert_eq!(found[0].icon.as_deref(), Some("icon"));
    assert_eq!(found[0].description.as_deref(), Some("does things"));
}

#[test]
fn scan_keeps_one_app_per_name_in_name_order() {
    let found = vec![
        app("Zoom", "first-zoom"),
        app("Atom", "atom"),
        app("Zoom", "second-zoom"),
        app("atom", "lower-atom"),
        app("Atom", "second-atom"),
        app("Át", "accent"),
        app("At", "short"),
    ];
    let listed = scan_start_menu(&found).unwrap();
    assert_eq!(names(&listed), vec!["At", "Atom", "Zoom", "atom", "Át"]);
    assert_eq!(listed[1].path, "atom");
    assert_eq!(listed[2].path, "first-zoom");
    assert!(scan_start_menu(&[]).unwrap().is_empty());
}

#[test]
fn scan_entry_lists_shortcuts_and_programs() {
    match scan_entry("menu/Editor.lnk", false, 0) {
        EntryAction::Add(app) => {
            assert_eq!(app.name, "Editor");
            assert_eq!(app.path, "menu/Editor.lnk");
            assert_eq!(app.icon, None);
            assert_eq!(app.description, None);
        }
        other => panic!("{:?}", other),
    }
    assert!(matches!(scan_entry("menu/tool.exe", false, 1999), EntryAction::Add(_)));
    assert!(matches!(scan_entry("menu/readme.txt", false, 0), EntryAction::Skip));
    assert!(matches!(scan_entry("menu/noextension", false, 0), EntryAction::Skip));
    assert!(matches!(scan_entry("menu/Tool.EXE", false, 0), EntryAction::Skip));
    assert!(matches!(scan_entry("menu/sub", true, 0), EntryAction::Descend));
    assert!(matches!(scan_entry("menu/sub", true, 2000), EntryAction::Skip));
    assert!(matches!(scan_entry("menu/tool.exe", false, 2000), EntryAction::Skip));
}

#[test]
fn scan_stops_at_depth_and_count() {
    assert!(may_scan_directory(0, 0));
    assert!(may_scan_directory(3, 1999));
    assert!(!may_scan_directory(4, 0));
    assert!(!may_scan_directory(0, 2000));
}

#[test]
fn launch_app_decides_by_extension_and_presence() {
    match launch_app(&app("A", "x/a.lnk"), false) {
        Ok(LaunchPlan::ViaShell(path)) => assert_eq!(path, "x/a.lnk"),
        other => panic!("{:?}", other),
    }
    match launch_app(&app("B", "x/b.exe"), true) {
        Ok(LaunchPlan::Direct(path)) => assert_eq!(path, "x/b.exe"),
        other => panic!("{:?}", other),
    }
    match launch_app(&app("B", "x/b.exe"), false) {
        Err(message) => assert_eq!(message, "Application not found: x/b.exe"),
        other => panic!("{:?}", other),
    }
}

#[test]
fn file_names_are_joined_to_the_data_directory() {
    let dir = "data";
    let expected = |name: &str| std::path::Path::new(dir).join(name).to_string_lossy().into_owned();
    assert_eq!(get_cache_file_path(dir), expected("app_cache.json"));
    assert_eq!(get_history_file_path(dir), expected("file_history.json"));
    assert_eq!(re_fast::db::get_db_path(dir), expected("re-fast.db"));
    assert_eq!(re_fast::db::get_legacy_db_path(dir), expected("data.db"));
    assert_eq!(re_fast::settings::get_settings_file_path(dir), expected("settings.json"));
    assert_eq!(re_fast::window_config::get_window_config_file_path(dir), expected("window_config.json"));
    assert_eq!(re_fast::clipboard::clipboard_images_dir(dir), expected("clipboard_images"));
    assert_eq!(downloads_candidate(dir), expected("Downloads"));
    assert_ne!(get_cache_file_path(dir), dir);
}

#[test]
fn paths_are_tidied_and_normalized() {
    assert_eq!(tidy("  docs/notes//\\ \n"), "docs/notes");
    assert_eq!(tidy("/"), "");
    assert_eq!(tidy("plain"), "plain");
    assert!(needs_current_dir(" docs/ "));
    let absolute = std::path::Path::new("/").is_absolute();
    assert_eq!(needs_current_dir("/etc/"), !absolute);
    let joined = std::path::Path::new("base").join("docs").to_string_lossy().into_owned();
    assert_eq!(normalize_path(" docs/ ", "base"), joined);
    if absolute {
        assert_eq!(normalize_path("/etc/hosts/", "base"), "/etc/hosts");
    }
}

#[test]
fn add_file_path_adds_and_counts() {
    let mut history = FileHistory::new();
    assert_eq!(add_file_path(&mut history, "dir/report.txt".to_string(), true, 100), Ok(()));
    assert_eq!(add_file_path(&mut history, "dir/other.txt".to_string(), true, 110), Ok(()));
    assert_eq!(add_file_path(&mut history, "dir/report.txt".to_string(), true, 120), Ok(()));
    assert_eq!(history.items.len(), 2);
    assert_eq!(history.items[0].path, "dir/report.txt");
    assert_eq!(history.items[0].name, "report.txt");
    assert_eq!(history.items[0].last_used, 120);
    assert_eq!(history.items[0].use_count, 2);
    assert_eq!(history.items[1].name, "other.txt");
    assert_eq!(history.items[1].last_used, 110);
    assert_eq!(history.items[1].use_count, 1);
    assert_eq!(history.find("dir/other.txt"), Some(1));
    assert_eq!(history.find("dir/none.txt"), None);
}

#[test]
fn add_file_path_turns_missing_paths_away() {
    let mut history = FileHistory::new();
    add_file_path(&mut history, "a.txt".to_string(), true, 1).unwrap();
    let outcome = add_file_path(&mut history, "gone.txt".to_string(), false, 2);
    assert_eq!(outcome, Err("Path not found: gone.txt".to_string()));
    assert_eq!(history.items.len(), 1);
}

#[test]
fn use_count_stops_at_the_maximum() {
    let mut history = FileHistory { items: vec![item("p", "p", 1, u64::MAX)] };
    add_file_path(&mut history, "p".to_string(), true, 2).unwrap();
    assert_eq!(history.items[0].use_count, u64::MAX);
    assert_eq!(history.items[0].last_used, 2);
}

#[test]
fn empty_history_query_lists_the_latest_first() {
    let history = FileHistory {
        items: vec![item("a", "a", 5, 1), item("b", "b", 9, 1), item("c", "c", 5, 1), item("d", "d", 7, 1)],
    };
    let found: Vec<String> = search_file_history("", &history).into_iter().map(|i| i.path).collect();
    assert_eq!(found, vec!["b", "d", "a", "c"]);
}

#[test]
fn history_search_scores_names_pinyin_paths_and_use() {
    let history = FileHistory {
        items: vec![
            item("C:/x/readme.md", "readme.md", 1, 0),
            item("C:/docs/下载.txt", "下载.txt", 1, 0),
            item("C:/xz/file.bin", "file.bin", 1, 500),
            item("C:/q/xz", "xz", 1, 3),
            item("C:/q/other", "other", 1, 9),
        ],
    };
    let found: Vec<String> = search_file_history("XZ", &history).into_iter().map(|i| i.name).collect();
    assert_eq!(found, vec!["xz", "下载.txt", "file.bin"]);
    let by_pinyin: Vec<String> = search_file_history("xiazai", &history).into_iter().map(|i| i.name).collect();
    assert_eq!(by_pinyin, vec!["下载.txt"]);
    let by_chinese: Vec<String> = search_file_history("下载", &history).into_iter().map(|i| i.name).collect();
    assert_eq!(by_chinese, vec!["下载.txt"]);
}

#[test]
fn use_count_bonus_is_capped_at_100() {
    let history = FileHistory {
        items: vec![item("first", "note a", 1, 100), item("second", "note b", 1, 10_000), item("third", "note c", 1, 101)],
    };
    let found: Vec<String> = search_file_history("note", &history).into_iter().map(|i| i.path).collect();
    assert_eq!(found, vec!["first", "second", "third"]);
    let uncapped = FileHistory { items: vec![item("first", "note a", 1, 98), item("second", "note b", 1, 99)] };
    let found: Vec<String> = search_file_history("note", &uncapped).into_iter().map(|i| i.path).collect();
    assert_eq!(found, vec!["second", "first"]);
}

#[test]
fn launch_file_needs_an_existing_path() {
    assert_eq!(launch_file(" docs/ ", true), Ok("docs".to_string()));
    assert_eq!(launch_file(" docs/ ", false), Err("Path not found: docs".to_string()));
}

#[test]
fn pinyin_of_chinese_text() {
    assert_eq!(to_pinyin("下载"), "xiazai");
    assert_eq!(to_pinyin("回收站 (Recycle Bin)"), "huishouzhan");
    assert_eq!(to_pinyin("plain"), "");
    assert_eq!(to_pinyin(""), "");
    assert_eq!(to_pinyin_initials("控制面板"), "kzmb");
    assert_eq!(to_pinyin_initials("设置 x"), "sz");
    assert_eq!(to_pinyin_initials("abc"), "");
}

#[test]
fn chinese_is_detected_by_block() {
    assert!(contains_chinese("abc中"));
    assert!(contains_chinese("\u{3400}"));
    assert!(contains_chinese("\u{4DBF}"));
    assert!(contains_chinese("\u{9FFF}"));
    assert!(contains_chinese("\u{F900}"));
    assert!(contains_chinese("\u{20000}"));
    assert!(contains_chinese("\u{2A700}"));
    assert!(contains_chinese("\u{2B81F}"));
    assert!(contains_chinese("\u{2FA1F}"));
    assert!(!contains_chinese("abc"));
    assert!(!contains_chinese(""));
    assert!(!contains_chinese("\u{33FF}\u{4DC0}\u{A000}\u{F8FF}\u{FB00}\u{2A6E0}\u{2B820}\u{2FA20}"));
    assert!(!contains_chinese("かな"));
}

#[test]
fn system_folders_are_listed_in_order() {
    let folders = get_all_system_folders(None);
    assert_eq!(folders.len(), 3);
    assert_eq!(folders[0].name, "回收站");
    assert_eq!(folders[0].path, "::{645FF040-5081-101B-9F08-00AA002F954E}");
    assert_eq!(folders[0].display_name, "回收站 (Recycle Bin)");
    assert!(folders[0].is_folder);
    assert_eq!(folders[0].icon, None);
    assert_eq!(folders[0].name_pinyin.as_deref(), Some("huishouzhan"));
    assert_eq!(folders[0].name_pinyin_initials.as_deref(), Some("hsz"));
    assert_eq!(folders[1].name, "控制面板");
    assert_eq!(folders[1].path, "control");
    assert_eq!(folders[1].display_name, "控制面板 (Control Panel)");
    assert_eq!(folders[2].name, "设置");
    assert_eq!(folders[2].path, "ms-settings:");
    let with_downloads = get_all_system_folders(Some("C:/Users/me/Downloads".to_string()));
    assert_eq!(with_downloads.len(), 4);
    assert_eq!(with_downloads[3].name, "下载");
    assert_eq!(with_downloads[3].path, "C:/Users/me/Downloads");
    assert_eq!(with_downloads[3].display_name, "下载 (Downloads)");
    assert_eq!(with_downloads[3].name_pinyin.as_deref(), Some("xiazai"));
    assert_eq!(with_downloads[3].name_pinyin_initials.as_deref(), Some("xz"));
}

#[test]
fn downloads_folder_must_exist() {
    assert_eq!(get_downloads_folder(Some("d".to_string()), true), Some("d".to_string()));
    assert_eq!(get_downloads_folder(Some("d".to_string()), false), None);
    assert_eq!(get_downloads_folder(None, true), None);
}

#[test]
fn blank_query_returns_all_folders() {
    let folders = get_all_system_folders(None);
    assert_eq!(search_system_folders("", &folders).len(), 3);
    assert_eq!(search_system_folders("  \t", &folders).len(), 3);
}

#[test]
fn folders_are_found_by_name_pinyin_and_english() {
    let folders = get_all_system_folders(Some("C:/Users/me/Downloads".to_string()));
    let found = |query: &str| -> Vec<String> {
        search_system_folders(query, &folders).into_iter().map(|f| f.name).collect()
    };
    assert_eq!(found("设置"), vec!["设置"]);
    assert_eq!(found("shezhi"), vec!["设置"]);
    assert_eq!(found("sz"), vec!["设置", "回收站"]);
    assert_eq!(found("SETTINGS"), vec!["设置"]);
    assert_eq!(found("control"), vec!["控制面板"]);
    assert_eq!(found("recycle"), vec!["回收站"]);
    assert_eq!(found("downloads"), vec!["下载"]);
    assert!(found("nothing-like-this").is_empty());
    assert_eq!(found("n"), vec!["控制面板", "回收站", "设置", "下载"]);
    assert_eq!(found("s"), vec!["设置", "回收站", "下载"]);
}

#[test]
fn shortcut_query_doubles_single_quotes() {
    assert_eq!(
        shortcut_query("C:/it's/a.lnk"),
        "$shell = New-Object -ComObject WScript.Shell; $shortcut = $shell.CreateShortcut('C:/it''s/a.lnk'); $shortcut.TargetPath"
    );
    assert_eq!(
        shortcut_query("'"),
        "$shell = New-Object -ComObject WScript.Shell; $shortcut = $shell.CreateShortcut(''''); $shortcut.TargetPath"
    );
}

#[test]
fn shortcut_target_is_the_trimmed_output() {
    assert_eq!(shortcut_target("  C:/bin/tool.exe\r\n"), Ok("C:/bin/tool.exe".to_string()));
    assert_eq!(shortcut_target(" \n"), Err("Empty target path".to_string()));
    assert_eq!(shortcut_target(""), Err("Empty target path".to_string()));
}

#[test]
fn shortcut_target_is_looked_for_beside_the_shortcut() {
    let expected = std::path::Path::new("menu/sub").join("tool.exe").to_string_lossy().into_owned();
    assert_eq!(shortcut_target_beside("menu/sub/Tool.lnk", "tool.exe"), Some(expected));
    assert_eq!(shortcut_target_beside("", "tool.exe"), None);
}

#[test]
fn shortcut_becomes_an_app() {
    let beside = Some("menu/tool.exe".to_string());
    let found = parse_lnk_file("menu/Tool.lnk", "tool.exe".to_string(), true, beside.clone(), true);
    assert_eq!((found.name.as_str(), found.path.as_str()), ("Tool", "tool.exe"));
    assert_eq!(found.icon, None);
    assert_eq!(found.description, None);
    let resolved = parse_lnk_file("menu/Tool.lnk", "tool.exe".to_string(), false, beside.clone(), true);
    assert_eq!(resolved.path, "menu/tool.exe");
    let kept = parse_lnk_file("menu/Tool.lnk", "tool.exe".to_string(), false, beside, false);
    assert_eq!(kept.path, "tool.exe");
    let alone = parse_lnk_file("menu/Tool.lnk", "tool.exe".to_string(), false, None, true);
    assert_eq!(alone.path, "tool.exe");
    let nameless = parse_lnk_file("/", "tool.exe".to_string(), true, None, false);
    assert_eq!(nameless.name, "Unknown");
}

#[test]
fn numbers_are_written_in_decimal() {
    assert_eq!(decimal(0), "0");
    assert_eq!(decimal(7), "7");
    assert_eq!(decimal(10), "10");
    assert_eq!(decimal(1_234_567_890), "1234567890");
    assert_eq!(decimal(u64::MAX), "18446744073709551615");
}

#[test]
fn history_with_a_path_twice_is_not_well_formed() {
    assert!(FileHistory::new().is_well_formed());
    let good = FileHistory { items: vec![item("a", "a", 1, 1), item("b", "a", 1, 1)] };
    assert!(good.is_well_formed());
    let bad = FileHistory { items: vec![item("a", "x", 1, 1), item("b", "y", 1, 1), item("a", "z", 2, 2)] };
    assert!(!bad.is_well_formed());
}
