//! Locates the `design-tokens-language-server` executable for a host
//! editor and reports the command that launches it.
//!
//! Resolution tries, in order: a binary already on the shell search
//! path, a path cached from an earlier resolution in the same process,
//! a copy of a project-local binary into the user's state directory,
//! and a versioned download of the latest release, pruning stale
//! version directories after a successful install.
//!
//! The decisions are made by [`resolver::Resolver`], a step machine
//! over plain values: the caller performs each requested
//! [`resolver::Action`] (a lookup, a copy, a download) and feeds the
//! outcome back as a [`resolver::Event`] until the machine finishes.
pub mod assets;
pub mod model;
pub mod paths;
pub mod resolver;
