//! How the interpreter is started for a script.
//!
//! The script is written to a file of its own in the directory for
//! temporary files, and the interpreter is started on that file with
//! unbuffered output, an empty module search path and no writing of
//! bytecode. The caller creates the file before the start and removes it
//! after the run, however the run ends.

use vstd::prelude::*;
use vstd::string::*;
use crate::ai_script::host::fresh_id;

verus! {

/// A command line with its environment.
#[derive(Clone, Debug, PartialEq, Eq)]
pub struct Launch {
    pub program: String,
    pub args: Vec<String>,
    /// Variables that are set for the process, name and value.
    pub env: Vec<(String, String)>,
}

/// The name of the script file for the token `token`.
pub open spec fn script_name(token: Seq<char>) -> Seq<char> {
    "csv_script_"@ + token + ".py"@
}

/// The arguments of the interpreter for the script at `path`.
pub open spec fn interpreter_args(path: Seq<char>) -> Seq<Seq<char>> {
    seq!["-u"@, path]
}

/// The environment of the interpreter.
pub open spec fn interpreter_env() -> Seq<(Seq<char>, Seq<char>)> {
    seq![("PYTHONPATH"@, ""@), ("PYTHONDONTWRITEBYTECODE"@, "1"@)]
}

/// The name of the script file for the token `token`.
pub fn script_file_name(token: &str) -> (name: String)
    ensures
        name@ == script_name(token@),
{
    let mut name = String::from_str("csv_script_");
    name.append(token);
    name.append(".py");
    name
}

/// The name of a script file that no earlier call has named, as far as
/// chance allows.
pub fn new_script_file_name() -> (name: String)
    ensures
        exists|token: Seq<char>| name@ == script_name(token),
{
    let token = fresh_id();
    let name = script_file_name(token.as_str());
    assert(name@ == script_name(token@));
    name
}

/// The command that runs the script at `script_path`.
pub fn interpreter_launch(script_path: &str) -> (launch: Launch)
    ensures
        launch.program@ == "python3"@,
        launch.args.deep_view() == interpreter_args(script_path@),
        launch.env.deep_view() == interpreter_env(),
{
    let args: Vec<String> = vec![String::from_str("-u"), String::from_str(script_path)];
    let env: Vec<(String, String)> = vec![
        (String::from_str("PYTHONPATH"), String::from_str("")),
        (String::from_str("PYTHONDONTWRITEBYTECODE"), String::from_str("1")),
    ];
    assert(args.deep_view() =~= interpreter_args(script_path@));
    assert(env.deep_view() =~= interpreter_env());
    Launch { program: String::from_str("python3"), args, env }
}

} // verus!
