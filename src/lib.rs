//! A checklist manager: the data model of a checklist, its renderings, its
//! mapping to and from a JSON document tree, the interactive session that
//! walks and marks its items, and a static catalog of read-only lists.

pub mod checklist;
pub mod render;
pub mod json;
pub mod session;
pub mod catalog;
pub mod launch;

pub use catalog::Catalog;
pub use checklist::{CheckState, Checklist, ChecklistItem};
pub use json::{checklist_from_json, checklist_to_json, Json, ParseError};
pub use launch::{plan_launch, Launch, UsageError};
pub use render::{render_item, render_list, render_status};
pub use session::{parse_command, Command, Reply, Session};
