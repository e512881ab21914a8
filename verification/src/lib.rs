//! The decisions of a game-save synchroniser.
//!
//! The application around this library reads and writes files, talks to Drive and to the
//! cloud, and watches processes. What it has to do, in which order, and what it makes of the
//! replies, is decided here. Each command is a sequence of steps (see [`protocol`]); its module
//! says what the steps are, and proves what a whole run of them comes to.

pub mod dashboard;
pub mod launch;
pub mod login;
pub mod logo;
pub mod model;
pub mod protocol;
pub mod refresh;
pub mod removal;
pub mod shell;
pub mod task;
pub mod text;
pub mod update;
