//! Decision logic of a tray application that runs and supervises a DPI
//! circumvention process: its launch stages, its status register and the
//! decisions that start and stop it, the text it logs and shows, and the
//! commands it runs.

pub mod console_command;
pub mod icons;
pub mod launch_stages;
pub mod launcher;
pub mod logger;
pub mod process_status;
pub mod text;
pub mod tray;
pub mod util;
