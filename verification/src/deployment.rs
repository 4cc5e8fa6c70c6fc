pub mod filename_config;
pub mod linux_script;
pub mod macos_script;
pub mod windows_script;
