//! Platform decisions of an application installer, stated and proved over plain values.
//!
//! Every function here is pure: it takes what the host reported and says what to
//! ask of the host next, or what the final answer is. The caller performs the
//! operating-system calls between two steps.

pub mod arch;
pub mod error;
pub mod hook;
pub mod mutex;
pub mod path_laws;
pub mod paths;
pub mod process;
pub mod text;
pub mod version;
