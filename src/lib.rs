//! Backend of a JSON pretty-printer: the formatter, the persisted settings
//! record and the error values that cross the command boundary.
pub mod error;
pub mod format;
pub mod settings;
pub mod store;

pub use error::{AppError, FileOp};
pub use format::format_json_string;
pub use settings::{AppData, AppSettings};
pub use store::SettingsStore;
