//! The settings of the launcher and their defaults.

use vstd::prelude::*;
use vstd::string::*;
use crate::text::{join_path, joined_path};

verus! {

/// A key with the modifiers that are held with it.
#[derive(Clone, Debug)]
pub struct HotkeyConfig {
    pub modifiers: Vec<String>,
    pub key: String,
}

/// How the language model is reached.
#[derive(Clone, Debug)]
pub struct LlmSettings {
    pub model: String,
    pub base_url: String,
    pub api_key: Option<String>,
}

/// A search engine that a prefix in the query selects.
#[derive(Clone, Debug)]
pub struct SearchEngineConfig {
    /// What the query begins with, such as `"s "`.
    pub prefix: String,
    /// The address, with `{query}` where the query goes.
    pub url: String,
    /// The name that is shown.
    pub name: String,
}

/// The hotkey of one plugin or application.
#[derive(Clone, Debug)]
pub struct NamedHotkey {
    pub name: String,
    pub hotkey: HotkeyConfig,
}

/// All settings.
#[derive(Clone, Debug)]
pub struct Settings {
    pub llm: LlmSettings,
    pub startup_enabled: bool,
    pub hotkey: Option<HotkeyConfig>,
    pub app_center_hotkey: Option<HotkeyConfig>,
    /// The hotkeys of the plugins, each plugin once.
    pub plugin_hotkeys: Vec<NamedHotkey>,
    /// The hotkeys of the applications, each application once.
    pub app_hotkeys: Vec<NamedHotkey>,
    pub close_on_blur: bool,
    pub result_style: String,
    pub auto_check_update: bool,
    pub last_update_check_time: Option<i64>,
    pub ignored_update_version: Option<String>,
    /// How many items the clipboard history keeps; zero for no limit.
    pub clipboard_max_items: u32,
    pub translation_tab_order: Vec<String>,
    pub search_engines: Vec<SearchEngineConfig>,
}

/// The clipboard history keeps 100 items.
pub fn default_clipboard_max_items() -> (limit: u32)
    ensures
        limit == 100,
{
    100
}

/// Results are drawn in the skeuomorphic style.
pub fn default_result_style() -> (style: String)
    ensures
        style@ == "skeuomorphic"@,
{
    String::from_str("skeuomorphic")
}

/// The launcher closes when it loses the focus.
pub fn default_close_on_blur() -> (close: bool)
    ensures
        close,
{
    true
}

/// Updates are looked for without asking.
pub fn default_auto_check_update() -> (check: bool)
    ensures
        check,
{
    true
}

/// The translation comes before the word book.
pub fn default_translation_tab_order() -> (order: Vec<String>)
    ensures
        order@.len() == 2,
        order@[0]@ == "translation"@,
        order@[1]@ == "wordbook"@,
{
    let mut order: Vec<String> = Vec::new();
    order.push(String::from_str("translation"));
    order.push(String::from_str("wordbook"));
    order
}

/// The model that is asked by default.
pub fn default_llm_model() -> (model: String)
    ensures
        model@ == "gpt-3.5-turbo"@,
{
    String::from_str("gpt-3.5-turbo")
}

/// The address at which the model is asked by default.
pub fn default_llm_base_url() -> (url: String)
    ensures
        url@ == "https://api.openai.com/v1"@,
{
    String::from_str("https://api.openai.com/v1")
}

/// `engine` has this prefix, address and name.
pub open spec fn is_engine(
    engine: SearchEngineConfig,
    prefix: Seq<char>,
    url: Seq<char>,
    name: Seq<char>,
) -> bool {
    engine.prefix@ == prefix && engine.url@ == url && engine.name@ == name
}

/// Makes a search engine.
pub fn search_engine(prefix: &str, url: &str, name: &str) -> (engine: SearchEngineConfig)
    ensures
        is_engine(engine, prefix@, url@, name@),
{
    SearchEngineConfig {
        prefix: String::from_str(prefix),
        url: String::from_str(url),
        name: String::from_str(name),
    }
}

/// The three search engines that are there from the start.
pub fn default_search_engines() -> (engines: Vec<SearchEngineConfig>)
    ensures
        engines@.len() == 3,
        is_engine(engines@[0], "s "@, "https://www.google.com/search?q={query}"@, "Google"@),
        is_engine(engines@[1], "bd "@, "https://www.baidu.com/s?wd={query}"@, "百度"@),
        is_engine(engines@[2], "b "@, "https://www.bing.com/search?q={query}"@, "必应"@),
{
    let mut engines: Vec<SearchEngineConfig> = Vec::new();
    engines.push(search_engine("s ", "https://www.google.com/search?q={query}", "Google"));
    engines.push(search_engine("bd ", "https://www.baidu.com/s?wd={query}", "百度"));
    engines.push(search_engine("b ", "https://www.bing.com/search?q={query}", "必应"));
    engines
}

impl Default for LlmSettings {
    fn default() -> (llm: Self)
        ensures
            llm.model@ == "gpt-3.5-turbo"@,
            llm.base_url@ == "https://api.openai.com/v1"@,
            llm.api_key is None,
    {
        LlmSettings { model: default_llm_model(), base_url: default_llm_base_url(), api_key: None }
    }
}

/// No two of `hotkeys` are for the same name.
pub open spec fn names_distinct(hotkeys: Seq<NamedHotkey>) -> bool {
    forall|i: int, j: int|
        0 <= i < j < hotkeys.len() ==> (#[trigger] hotkeys[i]).name@ != (#[trigger] hotkeys[j]).name@
}

impl Settings {
    /// Each plugin and each application has one hotkey at most.
    pub open spec fn wf(&self) -> bool {
        names_distinct(self.plugin_hotkeys@) && names_distinct(self.app_hotkeys@)
    }

    /// The settings are the ones that a fresh installation has.
    pub open spec fn is_default(&self) -> bool {
        &&& self.llm.model@ == "gpt-3.5-turbo"@
        &&& self.llm.base_url@ == "https://api.openai.com/v1"@
        &&& self.llm.api_key is None
        &&& !self.startup_enabled
        &&& self.hotkey is None
        &&& self.app_center_hotkey is None
        &&& self.plugin_hotkeys@.len() == 0
        &&& self.app_hotkeys@.len() == 0
        &&& self.close_on_blur
        &&& self.result_style@ == "skeuomorphic"@
        &&& self.auto_check_update
        &&& self.last_update_check_time is None
        &&& self.ignored_update_version is None
        &&& self.clipboard_max_items == 100
        &&& self.translation_tab_order@.len() == 2
        &&& self.translation_tab_order@[0]@ == "translation"@
        &&& self.translation_tab_order@[1]@ == "wordbook"@
        &&& self.search_engines@.len() == 3
        &&& is_engine(
            self.search_engines@[0],
            "s "@,
            "https://www.google.com/search?q={query}"@,
            "Google"@,
        )
        &&& is_engine(
            self.search_engines@[1],
            "bd "@,
            "https://www.baidu.com/s?wd={query}"@,
            "百度"@,
        )
        &&& is_engine(
            self.search_engines@[2],
            "b "@,
            "https://www.bing.com/search?q={query}"@,
            "必应"@,
        )
    }
}

impl Default for Settings {
    fn default() -> (settings: Self)
        ensures
            settings.is_default(),
            settings.wf(),
    {
        Settings {
            llm: LlmSettings::default(),
            startup_enabled: false,
            hotkey: None,
            app_center_hotkey: None,
            plugin_hotkeys: Vec::new(),
            app_hotkeys: Vec::new(),
            close_on_blur: default_close_on_blur(),
            result_style: default_result_style(),
            auto_check_update: default_auto_check_update(),
            last_update_check_time: None,
            ignored_update_version: None,
            clipboard_max_items: default_clipboard_max_items(),
            translation_tab_order: default_translation_tab_order(),
            search_engines: default_search_engines(),
        }
    }
}

/// The file that held the settings before they moved into the database.
pub fn get_settings_file_path(app_data_dir: &str) -> (path: String)
    ensures
        path@ == joined_path(app_data_dir@, "settings.json"@),
{
    join_path(app_data_dir, "settings.json")
}

/// Whether the settings of the old file are brought into the database: once,
/// while the table of settings is empty and the file is there.
pub fn maybe_migrate_from_json(stored_rows: i64, file_exists: bool) -> (import: bool)
    ensures
        import == (stored_rows == 0 && file_exists),
{
    stored_rows == 0 && file_exists
}

} // verus!
