//! A verified core for a small command-line bookmark manager.
//!
//! The crate keeps an ordered list of named websites, decides what an
//! invocation has to do with it, and tells its caller which effects to carry
//! out: rewriting the stored list, printing a line, prompting for a
//! selection, opening a URL. Reading and writing files, the terminal and the
//! browser stay with the caller.
//!
//! - [`website`] and [`config`]: a website, the list of websites, and the
//!   operations on it.
//! - [`history`]: what holds of a list after any sequence of additions and
//!   removals.
//! - [`args`]: the options of the command line and the requests they carry.
//! - [`selection`], [`message`], [`table`]: the picker's answer, the lines
//!   shown to the user, and the list as a table.
//! - [`effects`], [`dispatch`], [`laws`]: one invocation as a sequence of
//!   answers taken and effects asked for, and what holds of every such
//!   sequence.

pub mod args;
pub mod config;
pub mod dispatch;
pub mod effects;
pub mod history;
pub mod laws;
pub mod message;
pub mod selection;
pub mod table;
pub mod website;

pub use args::{cli, get_args, Args, ArgsView, Cli, Flag, FlagView, Given, GivenView};
pub use config::{AddOutcome, Config, Persisted, RemoveOutcome, STORE_DIR, STORE_FILE};
pub use dispatch::{run, Session, SessionView, Stage};
pub use effects::{Effect, EffectView, Event, EventView, LaunchOutcome, LaunchOutcomeView};
pub use selection::{Selection, SelectionView};
pub use website::{Website, WebsiteView};
