//! A minimal process-isolation bootstrap library.
//!
//! The library models the data and the decisions of a single-shot container
//! bootstrap: a parent (the launcher) asks the kernel for a child that lives
//! in fresh hostname, process-ID and mount namespaces and then waits for it;
//! the child (the initializer) mounts a private procfs over `/proc` and
//! replaces its own process image with an interactive shell.
//!
//! The kernel calls themselves (process creation, mount, image replacement,
//! wait) are performed by an unverified front end; this crate decides what to
//! request, in what order, and what each kernel answer means, and proves those
//! decisions correct.

pub mod config;
pub mod flags;
pub mod initializer;
pub mod launcher;
pub mod outcome;
