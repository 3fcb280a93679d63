//! Installs the `protonhax` launch wrapper into Steam's per-user
//! `localconfig.vdf`, and decides the steps of a game launch.

pub mod search;
pub mod text;
pub mod vdf;
pub mod laws;
pub mod paths;
pub mod launch;
pub mod prefs;
