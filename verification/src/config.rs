//! Where the list of hint images is looked for.

use vstd::prelude::*;

verus! {

/// Path of the list of hint images, from the directory that holds the plugin.
pub const RELATIVE_CONFIG_PATH: &'static str = "../hints/config.toml";

/// Where the path of the list of hint images comes from.
#[derive(Debug, Clone, Copy, PartialEq, Eq, Structural)]
pub enum ConfigLocation {
    /// It is the one argument of the program.
    FromArgs,
    /// It is [`RELATIVE_CONFIG_PATH`], from the directory that holds the plugin.
    RelativeToPlugin,
}

/// The path of the list of hint images among the arguments of the program, the first of
/// which is the program's own name: it is the one argument after that.
pub fn path_from_args(args: &Vec<String>) -> (path: &String)
    requires
        args@.len() == 2,
    ensures
        *path == args@[1],
{
    &args[1]
}

} // verus!
