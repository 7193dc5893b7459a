//! A live view of operating-system processes: the last accepted snapshot,
//! the entries that a refresh newly observed, a conjunctive search filter,
//! and the hand-off of new entries to a multicast change feed.

pub mod app_state;
pub mod broadcast;
pub mod diff;
pub mod process_data;
pub mod route_process;
pub mod search;
pub mod source;

pub use app_state::AppState;
pub use process_data::ProcessData;
pub use route_process::{acquire_process_list, data, processes, search};
pub use search::SearchParams;
