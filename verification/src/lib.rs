pub mod identity;
pub mod text;
pub mod native;
pub mod time;
pub mod state;
pub mod event;
pub mod store;
pub mod memory;
pub mod clock;
pub mod recorder;
pub mod scope;
pub mod capture;
pub mod validation;
pub mod report;
pub mod codec;
pub mod timeline;
pub mod projections;
pub mod cli;
pub mod rows;
pub mod system;
pub mod linux_capture;
pub mod process_tree;
pub mod file_changes;
