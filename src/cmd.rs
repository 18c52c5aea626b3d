//! Where the configuration file is found.
use vstd::prelude::*;

verus! {

/// The command-line arguments.
#[derive(Clone, Debug)]
pub struct Args {
    /// Path of the configuration file (`-f`, `--file-path`).
    pub file_path: Option<String>,
}

/// The configuration path that a session was started with.
#[derive(Clone, Debug)]
pub struct PathState(pub String);

impl PathState {
    /// The path.
    pub fn path(&self) -> (r: String)
        ensures
            r@ == self.0@,
    {
        self.0.clone()
    }
}

/// The path of the configuration file: the one given, else
/// `.config/simple_modbusclient/config.yaml` under the home directory `home`.
pub fn get_path(file_path: Option<String>, home: &str) -> (r: String)
    ensures
        r@ == match file_path {
            Some(p) => p@,
            None => home@ + "/.config/simple_modbusclient/config.yaml"@,
        },
{
    match file_path {
        Some(path) => path,
        None => String::from_str(home).concat("/.config/simple_modbusclient/config.yaml"),
    }
}

} // verus!
