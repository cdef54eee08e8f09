//! Launch-command construction: joins the working directory with the server
//! entry point and lays out the argument list for the language-server
//! process.

use vstd::prelude::*;
use vstd::string::StrSliceExecFns;
use vstd::string::StringExecFns;

verus! {

/// Joining a directory with a relative path: an empty directory leaves the
/// path as it is, and a separator is inserted only where one is missing.
pub open spec fn joined_path(dir: Seq<char>, rel: Seq<char>) -> Seq<char> {
    if dir.len() == 0 {
        rel
    } else if dir.last() == '/' {
        dir + rel
    } else {
        dir + "/"@ + rel
    }
}

/// Joins a directory with a relative path.
pub fn join_path(dir: &str, rel: &str) -> (r: String)
    ensures
        r@ == joined_path(dir@, rel@),
{
    if dir.is_empty() {
        rel.to_owned()
    } else {
        let n = dir.unicode_len();
        let lastc = dir.get_char(n - 1);
        if lastc == '/' {
            dir.to_owned().concat(rel)
        } else {
            dir.to_owned().concat("/").concat(rel)
        }
    }
}

/// The command line that launches the language server: an executable, its
/// argument list, and the environment handed to the process.
#[derive(Debug, PartialEq, Eq)]
pub struct LaunchCommand {
    pub command: String,
    pub args: Vec<String>,
    pub env: Vec<(String, String)>,
}

/// The transport flag handed to the server: speak the protocol over standard
/// input and output.
pub open spec fn stdio_flag_spec() -> Seq<char> {
    "--stdio"@
}

/// The dependency directory both probe flags point at, under the working
/// directory.
pub open spec fn probe_dir_spec(current_dir: Seq<char>) -> Seq<char> {
    joined_path(current_dir, "node_modules"@)
}

/// Builds the launch command for the server: the entry-point script made
/// absolute against the working directory, the standard-input/output
/// transport flag, and one probe-location flag each for TypeScript and
/// Angular tooling, both carrying the dependency directory. No environment
/// variables are set.
pub fn launch_command(node_binary: String, current_dir: &str, server_path: &str) -> (c:
    LaunchCommand)
    ensures
        c.command@ == node_binary@,
        c.args@.len() == 4,
        c.args@[0]@ == joined_path(current_dir@, server_path@),
        c.args@[1]@ == stdio_flag_spec(),
        c.args@[2]@ == "--tsProbeLocations "@ + probe_dir_spec(current_dir@),
        c.args@[3]@ == "--ngProbeLocations "@ + probe_dir_spec(current_dir@),
        c.env@.len() == 0,
{
    let full_path = join_path(current_dir, server_path);
    let probe_dir = join_path(current_dir, "node_modules");
    let ts_arg = String::from_str("--tsProbeLocations ").concat(probe_dir.as_str());
    let ng_arg = String::from_str("--ngProbeLocations ").concat(probe_dir.as_str());
    let mut args: Vec<String> = Vec::new();
    args.push(full_path);
    args.push(String::from_str("--stdio"));
    args.push(ts_arg);
    args.push(ng_arg);
    LaunchCommand { command: node_binary, args, env: Vec::new() }
}

/// The options handed to the server at initialization: the TypeScript SDK
/// library directory, relative to the dependency directory.
#[derive(Debug, PartialEq, Eq)]
pub struct InitializationOptions {
    pub typescript_tsdk: String,
}

/// The fixed TypeScript SDK library path the initialization options carry.
pub open spec fn tsdk_path_spec() -> Seq<char> {
    "node_modules/typescript/lib"@
}

/// Builds the fixed initialization options: always present, always pointing
/// the server at the local TypeScript SDK.
pub fn initialization_options() -> (r: Option<InitializationOptions>)
    ensures
        r matches Some(options) && options.typescript_tsdk@ == tsdk_path_spec(),
{
    Some(InitializationOptions { typescript_tsdk: String::from_str("node_modules/typescript/lib") })
}

} // verus!
