//! A located binary, and the command that launches it as a language server.

use vstd::prelude::*;

verus! {

/// Where the binary was found, and the environment it must be started in.
#[derive(Clone, Debug, PartialEq, Eq)]
pub struct ResolvedBinary {
    /// The path of the executable.
    pub path: String,
    /// The environment variables to start it with, where the ambient
    /// environment of the editor is not enough.
    pub env: Option<Vec<(String, String)>>,
}

/// The mathematical value of a [`ResolvedBinary`].
pub struct ResolvedBinaryView {
    pub path: Seq<char>,
    pub env: Option<Seq<(Seq<char>, Seq<char>)>>,
}

impl View for ResolvedBinary {
    type V = ResolvedBinaryView;

    open spec fn view(&self) -> ResolvedBinaryView {
        ResolvedBinaryView { path: self.path@, env: self.env.deep_view() }
    }
}

/// What the editor needs to start the language server.
#[derive(Clone, Debug, PartialEq, Eq)]
pub struct LaunchCommand {
    /// The path of the executable.
    pub command: String,
    /// The arguments to pass to it.
    pub args: Vec<String>,
    /// The environment variables to set for it.
    pub env: Vec<(String, String)>,
}

/// The mathematical value of a [`LaunchCommand`].
pub struct LaunchCommandView {
    pub command: Seq<char>,
    pub args: Seq<Seq<char>>,
    pub env: Seq<(Seq<char>, Seq<char>)>,
}

impl View for LaunchCommand {
    type V = LaunchCommandView;

    open spec fn view(&self) -> LaunchCommandView {
        LaunchCommandView {
            command: self.command@,
            args: self.args.deep_view(),
            env: self.env.deep_view(),
        }
    }
}

/// The command that starts `binary` as a language server.
pub open spec fn spec_launch_command(binary: ResolvedBinaryView) -> LaunchCommandView {
    LaunchCommandView {
        command: binary.path,
        args: seq!["server"@],
        env: match binary.env {
            Some(env) => env,
            None => Seq::empty(),
        },
    }
}

/// The command that starts `binary` as a language server: the binary itself
/// with the single argument `server`, in the environment that was resolved
/// with it, or with no variable set where none was.
pub fn launch_command(binary: ResolvedBinary) -> (command: LaunchCommand)
    ensures
        command@ == spec_launch_command(binary@),
{
    let mut args: Vec<String> = Vec::new();
    args.push(String::from_str("server"));
    let env: Vec<(String, String)> = match binary.env {
        Some(env) => env,
        None => Vec::new(),
    };
    let command = LaunchCommand { command: binary.path, args, env };
    assert(command@.args =~= seq!["server"@]);
    assert(command@.env =~= spec_launch_command(binary@).env);
    command
}

} // verus!
