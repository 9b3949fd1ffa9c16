//! Where the launcher window was last placed.

use vstd::prelude::*;
use crate::text::{join_path, joined_path};

verus! {

/// A position on the screen.
#[derive(Clone, Copy, Debug, PartialEq, Eq, Structural)]
pub struct WindowPosition {
    pub x: i32,
    pub y: i32,
}

/// What is remembered of one window.
#[derive(Clone, Copy, Debug, PartialEq, Eq, Structural)]
pub struct WindowConfig {
    pub position: Option<WindowPosition>,
}

/// What is remembered of all windows.
#[derive(Clone, Copy, Debug, PartialEq, Eq, Structural)]
pub struct AllWindowConfigs {
    pub launcher: WindowConfig,
}

impl Default for WindowPosition {
    fn default() -> (position: Self)
        ensures
            position == (WindowPosition { x: 0, y: 0 }),
    {
        WindowPosition { x: 0, y: 0 }
    }
}

impl Default for WindowConfig {
    fn default() -> (config: Self)
        ensures
            config.position is None,
    {
        WindowConfig { position: None }
    }
}

impl Default for AllWindowConfigs {
    fn default() -> (configs: Self)
        ensures
            configs.launcher.position is None,
    {
        AllWindowConfigs { launcher: WindowConfig { position: None } }
    }
}

/// The file that holds the window configuration.
pub fn get_window_config_file_path(app_data_dir: &str) -> (path: String)
    ensures
        path@ == joined_path(app_data_dir@, "window_config.json"@),
{
    join_path(app_data_dir, "window_config.json")
}

/// The configuration to save when the launcher was moved to `(x, y)`: what
/// was loaded, or nothing where loading failed, with the new position.
pub fn save_launcher_position(loaded: Result<AllWindowConfigs, String>, x: i32, y: i32) -> (configs:
    AllWindowConfigs)
    ensures
        configs == (AllWindowConfigs {
            launcher: WindowConfig { position: Some(WindowPosition { x, y }) },
        }),
{
    let mut configs = match loaded {
        Ok(configs) => configs,
        Err(_) => AllWindowConfigs::default(),
    };
    configs.launcher.position = Some(WindowPosition { x, y });
    configs
}

/// Where the launcher was last placed, if that is known: nothing where
/// loading failed.
pub fn get_launcher_position(loaded: Result<AllWindowConfigs, String>) -> (position: Option<
    WindowPosition,
>)
    ensures
        loaded is Ok ==> position == loaded->Ok_0.launcher.position,
        loaded is Err ==> position is None,
{
    match loaded {
        Ok(configs) => configs.launcher.position,
        Err(_) => None,
    }
}

} // verus!
