//! Deciding the effect of a parsed command.
//!
//! Execution here is a pure decision: which line to print, whether the
//! read loop continues, which exit code it stops with, and which child
//! process to spawn. The embedding program performs the printing, the
//! spawning and the waiting.

use vstd::prelude::*;
use vstd::string::StringExecFns;
use crate::command::{BuiltInCommand, BuiltInCommandV, Command, CommandType, CommandTypeV, CommandV};
use crate::input::views_of;

verus! {

/// A child process to spawn: the command name, looked up by the
/// system's own search-path rule, and its argument vector.
pub struct SpawnRequest {
    pub name: String,
    pub args: Vec<String>,
}

/// The decided effect of one command: the line to print (without its
/// trailing newline), whether the read loop continues, the exit code
/// when it stops, and the child process to spawn and wait for.
pub struct ExecOutcome {
    pub output: Option<String>,
    pub is_continue: bool,
    pub exit_code: i32,
    pub spawn: Option<SpawnRequest>,
}

/// The image of an optional output line.
pub open spec fn opt_str_view(o: Option<String>) -> Option<Seq<char>> {
    match o {
        Some(s) => Some(s@),
        None => None,
    }
}

/// The image of an optional spawn request.
pub open spec fn opt_spawn_view(o: Option<SpawnRequest>) -> Option<(Seq<char>, Seq<Seq<char>>)> {
    match o {
        Some(sp) => Some((sp.name@, views_of(sp.args@))),
        None => None,
    }
}

/// The suffix the `type` built-in appends after the queried name.
pub open spec fn type_suffix(ct: CommandTypeV) -> Seq<char> {
    match ct {
        CommandTypeV::BuiltIn => " is a shell builtin"@,
        CommandTypeV::Other(p) => " is "@ + p,
        CommandTypeV::Invalid => ": not found"@,
    }
}

/// The line a command prints, if any.
pub open spec fn output_of(c: CommandV) -> Option<Seq<char>> {
    match c {
        CommandV::Empty => None,
        CommandV::NotFound(name) => Some(name + ": command not found"@),
        CommandV::External { .. } => None,
        CommandV::BuiltIn(b) => match b {
            BuiltInCommandV::Exit { .. } => None,
            BuiltInCommandV::Echo { content } => Some(content),
            BuiltInCommandV::Type { command_name, command_type } => Some(
                command_name + type_suffix(command_type),
            ),
        },
    }
}

/// Whether the read loop goes on after the command: everything
/// continues but `exit`.
pub open spec fn continues(c: CommandV) -> bool {
    match c {
        CommandV::BuiltIn(BuiltInCommandV::Exit { .. }) => false,
        _ => true,
    }
}

/// The exit code the process stops with when the loop stops.
pub open spec fn exit_code_of(c: CommandV) -> int {
    match c {
        CommandV::BuiltIn(BuiltInCommandV::Exit { exit_code }) => exit_code,
        _ => 0,
    }
}

/// The child process a command spawns, if any.
pub open spec fn spawn_of(c: CommandV) -> Option<(Seq<char>, Seq<Seq<char>>)> {
    match c {
        CommandV::External { name, args } => Some((name, args)),
        _ => None,
    }
}

/// Copies a vector of strings.
fn clone_strings(v: &Vec<String>) -> (r: Vec<String>)
    ensures
        views_of(r@) == views_of(v@),
{
    let mut r: Vec<String> = Vec::new();
    let mut i: usize = 0;
    proof {
        assert(views_of(r@) =~= views_of(v@).subrange(0, 0));
    }
    while i < v.len()
        invariant
            i <= v@.len(),
            views_of(r@) == views_of(v@).subrange(0, i as int),
        decreases v@.len() - i,
    {
        let s = v[i].clone();
        proof {
            assert(views_of(v@)[i as int] == v@[i as int]@);
            assert(views_of(r@.push(s)) =~= views_of(r@).push(s@));
            assert(views_of(v@).subrange(0, i as int + 1) =~= views_of(v@).subrange(
                0,
                i as int,
            ).push(views_of(v@)[i as int]));
        }
        r.push(s);
        i += 1;
    }
    proof {
        assert(views_of(v@).subrange(0, v@.len() as int) =~= views_of(v@));
    }
    r
}

impl CommandType {
    /// The text the `type` built-in appends after the queried name.
    pub fn render(&self) -> (r: String)
        ensures
            r@ == type_suffix(self@),
    {
        match self {
            CommandType::BuiltIn => " is a shell builtin".to_owned(),
            CommandType::Other(path) => {
                let mut r = " is ".to_owned();
                r.append(path.as_str());
                r
            },
            CommandType::Invalid => ": not found".to_owned(),
        }
    }
}

impl BuiltInCommand {
    /// Decides the effect of a built-in command: `exit` stops the loop
    /// with its code; `echo` prints its content; `type` prints the
    /// queried name with the suffix its resolution earned.
    pub fn handle(&self) -> (r: ExecOutcome)
        ensures
            opt_str_view(r.output) == output_of(CommandV::BuiltIn(self@)),
            r.is_continue == continues(CommandV::BuiltIn(self@)),
            r.exit_code as int == exit_code_of(CommandV::BuiltIn(self@)),
            r.spawn is None,
    {
        match self {
            BuiltInCommand::Exit { exit_code } => ExecOutcome {
                output: None,
                is_continue: false,
                exit_code: *exit_code,
                spawn: None,
            },
            BuiltInCommand::Echo { content } => ExecOutcome {
                output: Some(content.clone()),
                is_continue: true,
                exit_code: 0,
                spawn: None,
            },
            BuiltInCommand::Type { command_name, command_type } => {
                let mut line = command_name.clone();
                let suffix = command_type.render();
                line.append(suffix.as_str());
                ExecOutcome { output: Some(line), is_continue: true, exit_code: 0, spawn: None }
            },
        }
    }
}

impl Command {
    /// Decides the effect of a command: an empty line does nothing; an
    /// unknown name prints `<name>: command not found`; a built-in has
    /// its own effect; an external command asks for a child process to
    /// be spawned and waited for. Everything but `exit` continues.
    pub fn handle(&self) -> (r: ExecOutcome)
        ensures
            opt_str_view(r.output) == output_of(self@),
            r.is_continue == continues(self@),
            r.exit_code as int == exit_code_of(self@),
            opt_spawn_view(r.spawn) == spawn_of(self@),
    {
        match self {
            Command::Empty => ExecOutcome {
                output: None,
                is_continue: true,
                exit_code: 0,
                spawn: None,
            },
            Command::CommandNotFound { unknown_command_name } => {
                let mut line = unknown_command_name.clone();
                line.append(": command not found");
                ExecOutcome { output: Some(line), is_continue: true, exit_code: 0, spawn: None }
            },
            Command::CommandBuiltIn { builtin_command } => builtin_command.handle(),
            Command::CommandExternal { command_name, args } => ExecOutcome {
                output: None,
                is_continue: true,
                exit_code: 0,
                spawn: Some(
                    SpawnRequest { name: command_name.clone(), args: clone_strings(args) },
                ),
            },
        }
    }
}

} // verus!
