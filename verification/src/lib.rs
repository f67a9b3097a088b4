pub mod cookie;
pub mod text;
pub mod language_names;
pub mod language_dirs;
pub mod languages;
pub mod tr_macros;
pub mod checker;
pub mod fluent_entries;
pub mod filler;
pub mod loader;
pub mod files_tracker;
pub mod fluent_resources;
pub mod expansion;
