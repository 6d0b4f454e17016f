//! Settings, packet-hold bookkeeping and menu decisions for a terminal tool
//! that briefly holds matching game traffic and releases it again.

pub mod text;
pub mod config;
pub mod elevation;
pub mod interceptor;
pub mod menu;
pub mod saved;
pub mod updater;
