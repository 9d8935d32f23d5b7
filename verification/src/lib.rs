pub mod attach_input;
pub mod attach_laws;
pub mod client;
pub mod config;
pub mod display_laws;
pub mod fuzzy;
pub mod header;
pub mod keys;
pub mod local;
pub mod model_laws;
pub mod order;
pub mod overlay;
pub mod overlay_laws;
pub mod overlay_render;
pub mod paths;
pub mod picker;
pub mod picker_laws;
pub mod picker_render;
pub mod picker_style;
pub mod protocol;
pub mod request_input;
pub mod search_laws;
pub mod session;
pub mod session_display;
pub mod session_find;
pub mod session_laws;
pub mod session_list;
pub mod sqlite_schema;
pub mod state_laws;
pub mod style;
pub mod switcher;
pub mod terminal;
pub mod text;
pub mod text_laws;
pub mod time;
pub mod tui;
