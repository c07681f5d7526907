pub mod app;
pub mod command;
pub mod error;
pub mod laws;
pub mod load;
pub mod steps;

pub use app::{ChecklistApp, Input, Key, KeyKind, Message, MessageStyle, COMPLETION_TEXT};
pub use command::{choose_command, Command};
pub use error::ChecklistError;
pub use load::{checklist_dir, APP_NAME, data_dir_or_error, non_empty, parse_checklist, split_lines};
pub use steps::StepStack;
