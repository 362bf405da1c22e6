//! The state and the rules behind the MegaDB web client, free of any
//! rendering: the query session with its tabs and history, the coordination
//! of executions with the backend, and the small decisions that the pages
//! make when they draw.

mod clock;
pub mod coordinator;
pub mod editor;
pub mod ids;
pub mod labels;
pub mod laws;
pub mod query;
pub mod result_table;
pub mod session;
pub mod settings;
pub mod sidebar;
pub mod tab_bar;
pub mod text;
pub mod toast;
