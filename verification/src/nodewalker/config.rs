//! The settings of a walker program.
use vstd::prelude::*;

verus! {

/// Where a walker program finds its first nodes and keeps what it learns.
pub struct Config {
    /// The DNS seeds that name the first nodes.
    pub dns_seeds: Vec<String>,
    /// The path of the SQLite database of the nodes found.
    pub sqlite_path: &'static str,
}

} // verus!
