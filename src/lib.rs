//! The ArceOS hypervisor workspace bundle: the registry of its component crates, and the
//! decisions of the two commands that run a target through a sibling shell script.

pub mod launcher;
pub mod registry;
