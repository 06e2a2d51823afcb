//! A verified core for a desktop command bridge: a UI process asks a
//! privileged host for filesystem operations and modal prompts by name,
//! and receives a success value or a single failure string back.
//!
//! The crate models the host filesystem as a map from path to node, states
//! each operation's behaviour and failure conditions over that model, and
//! verifies the boundary logic (command lookup, argument arity, error
//! rendering, directory-listing aggregation, path parenting, and the modal
//! prompt state machine). The thin I/O shell that performs the real system
//! calls lives outside the verified crate and reuses these contracts.

pub mod dialog;
pub mod error;
pub mod fs;
pub mod laws;
pub mod node;
pub mod paths;
pub mod registry;
