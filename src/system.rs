use vstd::prelude::*;

verus! {

pub const BROWSER_NAME: &'static str = "browser_automation";

pub const BROWSER_DESCRIPTION: &'static str = "Automate web browser. Actions: 'navigate'. (Note: Starts a new browser instance per call for now)";

pub const FILE_SYSTEM_NAME: &'static str = "file_system";

pub const FILE_SYSTEM_DESCRIPTION: &'static str = "Access file system (sandboxed to project directory). Actions: 'read_file', 'write_file', 'list_dir'.";

pub const INPUT_NAME: &'static str = "input_control";

pub const INPUT_DESCRIPTION: &'static str = "Control keyboard and mouse. Actions: 'type', 'key_click', 'mouse_move', 'mouse_click', 'scroll'.";

pub const SCREENSHOT_NAME: &'static str = "take_screenshot";

pub const SCREENSHOT_DESCRIPTION: &'static str = "Captures the current screen content and returns it as a base64 encoded string. Use this to see what is on the user's screen.";

/// Opens a web page and reports its title and size.
pub struct BrowserTool;

/// Reads, writes and lists files inside the working directory.
pub struct FileSystemTool;

/// Types text and drives the mouse.
pub struct InputTool;

/// Captures the screen.
pub struct ScreenshotTool;

impl BrowserTool {
    pub fn name(&self) -> (r: &'static str)
        ensures
            r@ == BROWSER_NAME@,
    {
        BROWSER_NAME
    }

    pub fn description(&self) -> (r: &'static str)
        ensures
            r@ == BROWSER_DESCRIPTION@,
    {
        BROWSER_DESCRIPTION
    }
}

impl FileSystemTool {
    pub fn name(&self) -> (r: &'static str)
        ensures
            r@ == FILE_SYSTEM_NAME@,
    {
        FILE_SYSTEM_NAME
    }

    pub fn description(&self) -> (r: &'static str)
        ensures
            r@ == FILE_SYSTEM_DESCRIPTION@,
    {
        FILE_SYSTEM_DESCRIPTION
    }
}

impl InputTool {
    pub fn name(&self) -> (r: &'static str)
        ensures
            r@ == INPUT_NAME@,
    {
        INPUT_NAME
    }

    pub fn description(&self) -> (r: &'static str)
        ensures
            r@ == INPUT_DESCRIPTION@,
    {
        INPUT_DESCRIPTION
    }
}

impl ScreenshotTool {
    pub fn name(&self) -> (r: &'static str)
        ensures
            r@ == SCREENSHOT_NAME@,
    {
        SCREENSHOT_NAME
    }

    pub fn description(&self) -> (r: &'static str)
        ensures
            r@ == SCREENSHOT_DESCRIPTION@,
    {
        SCREENSHOT_DESCRIPTION
    }
}

} // verus!
