//! Verified core of a terminal Redis client: command-line tokenizing, value
//! decoding and rendering, completion items, and the state machines behind
//! the interactive views.
use vstd::prelude::*;

pub mod text;
pub mod utils;
pub mod console;
pub mod resp;
pub mod redis_opt;
pub mod completion;
pub mod ft_search;
pub mod bus;
pub mod app;
pub mod cli;
pub mod configuration;
pub mod theme;
pub mod explorer;
pub mod field;
pub mod nav;
pub mod database_editor;
pub mod servers;
pub mod list_list;
pub mod app_configuration_editor;
pub mod cli_tab;
pub mod completable;
pub mod create_key_editor;
pub mod redis_cli;
pub mod highlight_value;
pub mod explorer_popups;
pub mod context;
pub mod value_tables;
pub mod raw_paragraph;
pub mod ft_search_panel;
pub mod explorer_tab;
pub mod footer;
pub mod menu_layout;
pub mod list_row;

verus! {
} // verus!
