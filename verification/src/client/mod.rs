pub mod answer;
pub mod attach;
pub mod command;
pub mod command_laws;
pub mod daemon;
pub mod diff_text;
pub mod exchange;
pub mod laws;
pub mod lifecycle;
pub mod mode;
pub mod report;
