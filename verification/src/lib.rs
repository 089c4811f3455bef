//! The decisions of a toolkit for web applications, with their proofs.
//!
//! The heart of the crate is the supervisor of the development mode: it
//! watches the sources of the backend, coalesces bursts of changes into
//! single ticks, and on each tick cancels the build in flight, has the
//! running server killed and starts a fresh build. Its parts are
//!
//! - `watch`: the change notifier and what it watches,
//! - `debounce`: the debouncer,
//! - `registry`: the slot that holds the managed process,
//! - `coordinator`: the rebuild coordinator, with `history` for what holds
//!   of it over whole runs of events,
//! - `backend_watcher`: the supervisor that is made of them,
//! - `fault`: what is done about each failure.
//!
//! Nothing here starts a process, reads a file or looks at the clock. The
//! caller hands in what happened and carries out what comes back.
//!
//! Around it stand the decisions of the build tooling (`build_backend`,
//! `wasm_pack`, `build_id`), of the server (`frontend`, `server`), of the
//! element builders of the client (`raw_el`, `el`, `row`, `image`,
//! `height`, `css`, `flags`) and of the attribute for state variables
//! (`s_var`), and what they share: paths as byte strings (`path`) and
//! numbers as decimal text (`decimal`).

pub mod backend_watcher;
pub mod build_backend;
pub mod build_id;
pub mod coordinator;
pub mod css;
pub mod debounce;
pub mod decimal;
pub mod el;
pub mod fault;
pub mod flags;
pub mod frontend;
pub mod height;
pub mod history;
pub mod image;
pub mod path;
pub mod raw_el;
pub mod registry;
pub mod row;
pub mod s_var;
pub mod server;
pub mod wasm_pack;
pub mod watch;
