//! The launch coordinator's fixed values: the emulator application paths,
//! the arguments handed to the OS `open` call, and the confirmation line.
use vstd::prelude::*;

use crate::text::join_with;
use crate::text::join_strings;

verus! {

/// The emulator's application bundle path.
pub open spec fn ghostty_app_spec() -> Seq<char> {
    "/Applications/Ghostty.app"@
}

/// The emulator's application bundle path, executably.
pub fn ghostty_app_path() -> (r: String)
    ensures
        r@ == ghostty_app_spec(),
{
    String::from_str("/Applications/Ghostty.app")
}

/// The emulator binary inside the application bundle.
pub open spec fn ghostty_binary_spec() -> Seq<char> {
    ghostty_app_spec() + "/Contents/MacOS/Ghostty"@
}

/// The emulator binary path, executably.
pub fn ghostty_binary_path() -> (r: String)
    ensures
        r@ == ghostty_binary_spec(),
{
    let mut s = String::from_str("/Applications/Ghostty.app");
    s.append("/Contents/MacOS/Ghostty");
    s
}

/// The arguments handed to the OS `open` call: a new emulator instance with
/// default config files disabled, forced fullscreen, and the generated
/// configuration file.
pub open spec fn open_args_spec(ghostty_conf: Seq<char>) -> Seq<Seq<char>> {
    seq![
        "-na"@,
        ghostty_app_spec(),
        "--args"@,
        "--config-default-files=false"@,
        "--fullscreen=true"@,
        "--macos-non-native-fullscreen=true"@,
        "--maximize=true"@,
        "--config-file="@ + ghostty_conf,
    ]
}

/// Builds the `open` argument list for the generated emulator config.
pub fn open_args(ghostty_conf: &str) -> (v: Vec<String>)
    ensures
        v.deep_view() == open_args_spec(ghostty_conf@),
{
    let mut v: Vec<String> = Vec::new();
    v.push(String::from_str("-na"));
    v.push(String::from_str("/Applications/Ghostty.app"));
    v.push(String::from_str("--args"));
    v.push(String::from_str("--config-default-files=false"));
    v.push(String::from_str("--fullscreen=true"));
    v.push(String::from_str("--macos-non-native-fullscreen=true"));
    v.push(String::from_str("--maximize=true"));
    let mut conf_arg = String::from_str("--config-file=");
    conf_arg.append(ghostty_conf);
    v.push(conf_arg);
    proof {
        assert(v.deep_view() =~= open_args_spec(ghostty_conf@));
    }
    v
}

/// The external tools the launcher requires, in the order they are located.
pub open spec fn required_tools_spec() -> Seq<Seq<char>> {
    seq!["tmux"@, "unimatrix"@, "rliamp"@, "open"@]
}

/// The required external tools, executably.
pub fn required_tools() -> (v: Vec<String>)
    ensures
        v.deep_view() == required_tools_spec(),
{
    let mut v: Vec<String> = Vec::new();
    v.push(String::from_str("tmux"));
    v.push(String::from_str("unimatrix"));
    v.push(String::from_str("rliamp"));
    v.push(String::from_str("open"));
    proof {
        assert(v.deep_view() =~= required_tools_spec());
    }
    v
}

/// The confirmation line printed after a successful launch: the resolved
/// inputs, or the provider-mode notice when none were given.
pub open spec fn launch_message_spec(resolved: Seq<Seq<char>>) -> Seq<char> {
    if resolved.len() == 0 {
        "arliamp launched: provider mode (no input args)"@
    } else {
        "arliamp launched: "@ + join_with(resolved, " "@)
    }
}

/// Builds the confirmation line for a Resolved Input List.
pub fn launch_message(resolved: &Vec<String>) -> (r: String)
    ensures
        r@ == launch_message_spec(resolved.deep_view()),
{
    if resolved.len() == 0 {
        String::from_str("arliamp launched: provider mode (no input args)")
    } else {
        let mut s = String::from_str("arliamp launched: ");
        let joined = join_strings(resolved, " ");
        s.append(joined.as_str());
        s
    }
}

} // verus!
