//! Where the database keeps its files.

use vstd::prelude::*;
use vstd::string::StringExecFns;

verus! {

/// The settings of one database.
#[derive(Debug, Clone)]
pub struct Config {
    /// The directory that holds everything the database stores.
    pub data_dir: String,
    /// The directory of the script package manager, if one is used.
    pub luarocks_path: Option<String>,
}

impl Default for Config {
    /// The settings of a database that keeps its files in `./data`.
    fn default() -> (out: Self)
        ensures
            out.data_dir@ == "./data"@,
            out.luarocks_path is None,
    {
        Config { data_dir: String::from_str("./data"), luarocks_path: None }
    }
}

} // verus!
