//! A sandboxed, repository-aware file engine that never touches a file.
//!
//! The engine serves listing, finding, searching, reading, inspecting and
//! changing files below one root directory. Its rules are those of a sandbox:
//! a relative path must stay under the root once it is resolved, and an
//! absolute path is served only inside a repository.
//!
//! Every operation is a machine. It is begun by a method of
//! [`backend::LocalGitAwareFs`], which returns the first [`io::Step`]: either
//! an [`io::FsAction`] to perform, with the state to resume, or the result. The
//! caller performs the action and resumes the state with the [`io::FsEvent`]
//! that came of it, until the operation is finished. An event that is no
//! answer to the action changes nothing: the action is asked for again.
//!
//! What each step does is stated as a relation `follows` between a state, an
//! event and the step that results, and proved of the code. What holds of
//! whole operations is proved from those relations: that a page is never
//! longer than was asked for, that finding returns its page in the order of
//! the paths and the same page for any two walks that gathered the same
//! matches, that a relative path which escapes the root is refused.
//!
//! Globs are compiled and matched by `globset` and patterns by `regex`; what
//! they accept and match is taken on trust and spoken of by name.

pub mod backend;
pub mod error;
pub mod find;
pub mod glob;
pub mod guard;
pub mod inspect;
pub mod io;
pub mod lines;
pub mod list;
pub mod mutate;
pub mod order;
pub mod paging;
pub mod path;
pub mod pattern;
pub mod read;
pub mod repo;
pub mod search;
pub mod text;
pub mod transfer;
pub mod traverse;
pub mod types;
