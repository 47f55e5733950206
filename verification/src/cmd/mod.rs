//! Logic behind the compiler's command-line subcommands; reading files,
//! the environment and printing happen in the program around the library.

use vstd::prelude::*;

pub mod env;
pub mod init;
pub mod symbol;
pub mod typelist;

use crate::cmd::env::CompilerEnv;

verus! {

/// The standard library path: the one given on the command line, else the
/// environment's `STD_LIB_PATH`, else the system-wide default.
pub fn resolve_std_path(cli_std_path: Option<String>, env: &CompilerEnv) -> (r: String)
    ensures
        cli_std_path matches Some(p) ==> r@ == p@,
        cli_std_path is None ==> r@ == env.std_lib_path@,
{
    match cli_std_path {
        Some(p) => p,
        None => env.std_lib_path.clone(),
    }
}

} // verus!
