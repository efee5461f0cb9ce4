//! Classifying a tokenized input line into a typed command.

use vstd::prelude::*;
use vstd::string::StrSliceExecFns;
use crate::input::{Input, tokens_spec, trim_spec, str_eq, views_of};
use crate::numbers::{parse_i32, parse_i32_spec};
use crate::resolve::{ExecutableCandidate, first_runnable, resolve_first};

verus! {

/// The resolution result the `type` built-in reports for a name.
pub enum CommandType {
    /// The name is one of the shell's own built-ins.
    BuiltIn,
    /// The name resolved to a runnable file at this path.
    Other(String),
    /// The name resolved nowhere.
    Invalid,
}

/// A command implemented inside the shell itself.
pub enum BuiltInCommand {
    /// Stop the read loop and exit with this code.
    Exit { exit_code: i32 },
    /// Print this content, exactly as typed after the `echo ` prefix.
    Echo { content: String },
    /// Report what the queried name resolves to.
    Type { command_name: String, command_type: CommandType },
}

/// What one input line was classified as.
pub enum Command {
    /// A built-in command.
    CommandBuiltIn { builtin_command: BuiltInCommand },
    /// No built-in matched and the search path held no runnable file;
    /// the payload is the trimmed input line.
    CommandNotFound { unknown_command_name: String },
    /// An external command to spawn, with the tokens after its name.
    CommandExternal { command_name: String, args: Vec<String> },
    /// A blank line, or a `type` query with no argument: nothing to do.
    Empty,
}

/// A malformed argument: the `exit` built-in was given something other
/// than an integer exit code.
#[derive(Clone, Copy, Debug, PartialEq, Eq)]
pub enum ParseError {
    InvalidExitCode,
}

/// Mathematical image of `CommandType`.
pub ghost enum CommandTypeV {
    BuiltIn,
    Other(Seq<char>),
    Invalid,
}

/// Mathematical image of `BuiltInCommand`.
pub ghost enum BuiltInCommandV {
    Exit { exit_code: int },
    Echo { content: Seq<char> },
    Type { command_name: Seq<char>, command_type: CommandTypeV },
}

/// Mathematical image of `Command`.
pub ghost enum CommandV {
    BuiltIn(BuiltInCommandV),
    NotFound(Seq<char>),
    External { name: Seq<char>, args: Seq<Seq<char>> },
    Empty,
}

impl View for CommandType {
    type V = CommandTypeV;

    open spec fn view(&self) -> CommandTypeV {
        match self {
            CommandType::BuiltIn => CommandTypeV::BuiltIn,
            CommandType::Other(p) => CommandTypeV::Other(p@),
            CommandType::Invalid => CommandTypeV::Invalid,
        }
    }
}

impl View for BuiltInCommand {
    type V = BuiltInCommandV;

    open spec fn view(&self) -> BuiltInCommandV {
        match self {
            BuiltInCommand::Exit { exit_code } => BuiltInCommandV::Exit {
                exit_code: *exit_code as int,
            },
            BuiltInCommand::Echo { content } => BuiltInCommandV::Echo { content: content@ },
            BuiltInCommand::Type { command_name, command_type } => BuiltInCommandV::Type {
                command_name: command_name@,
                command_type: command_type@,
            },
        }
    }
}

impl View for Command {
    type V = CommandV;

    open spec fn view(&self) -> CommandV {
        match self {
            Command::CommandBuiltIn { builtin_command } => CommandV::BuiltIn(builtin_command@),
            Command::CommandNotFound { unknown_command_name } => CommandV::NotFound(
                unknown_command_name@,
            ),
            Command::CommandExternal { command_name, args } => CommandV::External {
                name: command_name@,
                args: views_of(args@),
            },
            Command::Empty => CommandV::Empty,
        }
    }
}

/// The names of the shell's built-in commands.
pub open spec fn is_builtin_name(t: Seq<char>) -> bool {
    t == "exit"@ || t == "echo"@ || t == "type"@
}

/// What `echo` prints: the trimmed line with the first occurrence of the
/// literal prefix `echo ` removed, keeping the remainder's spacing as
/// typed; a line without that literal prefix is kept whole.
pub open spec fn echo_content(t: Seq<char>) -> Seq<char> {
    if t.len() >= 5 && t.take(5) == "echo "@ {
        t.skip(5)
    } else {
        t
    }
}

/// What building a built-in command from the trimmed line `t`, its tokens
/// `toks`, and the probe results for the `type` target yields:
/// `Ok(None)` when the name builds nothing (a bare `type`, or a name that
/// is no built-in), `Err` when `exit` is given a malformed code.
pub open spec fn construct_builtin_spec(
    t: Seq<char>,
    toks: Seq<Seq<char>>,
    builtin: Seq<char>,
    probes: Seq<ExecutableCandidate>,
) -> Result<Option<CommandV>, ParseError> {
    if builtin == "exit"@ {
        if toks.len() >= 2 {
            match parse_i32_spec(toks[1]) {
                Some(v) => Ok(
                    Some(CommandV::BuiltIn(BuiltInCommandV::Exit { exit_code: v })),
                ),
                None => Err(ParseError::InvalidExitCode),
            }
        } else {
            Ok(Some(CommandV::BuiltIn(BuiltInCommandV::Exit { exit_code: 0 })))
        }
    } else if builtin == "echo"@ {
        Ok(Some(CommandV::BuiltIn(BuiltInCommandV::Echo { content: echo_content(t) })))
    } else if builtin == "type"@ {
        if toks.len() < 2 {
            Ok(None)
        } else if is_builtin_name(toks[1]) {
            Ok(
                Some(
                    CommandV::BuiltIn(
                        BuiltInCommandV::Type {
                            command_name: toks[1],
                            command_type: CommandTypeV::BuiltIn,
                        },
                    ),
                ),
            )
        } else {
            match first_runnable(probes) {
                Some(p) => Ok(
                    Some(
                        CommandV::BuiltIn(
                            BuiltInCommandV::Type {
                                command_name: toks[1],
                                command_type: CommandTypeV::Other(p),
                            },
                        ),
                    ),
                ),
                None => Ok(
                    Some(
                        CommandV::BuiltIn(
                            BuiltInCommandV::Type {
                                command_name: toks[1],
                                command_type: CommandTypeV::Invalid,
                            },
                        ),
                    ),
                ),
            }
        }
    } else {
        Ok(None)
    }
}

/// What building an external command yields: the command when some
/// search-path directory holds a runnable file of the name, else `None`.
pub open spec fn external_command_spec(
    toks: Seq<Seq<char>>,
    probes: Seq<ExecutableCandidate>,
) -> Option<CommandV> {
    match first_runnable(probes) {
        Some(_) => Some(CommandV::External { name: toks[0], args: toks.drop_first() }),
        None => None,
    }
}

/// What parsing one raw line yields, given the probe results for its
/// lookup target (see `probe_target_spec`): exactly one command per line.
/// A bare `type` is a silent no-op and parses to `Empty`, as a blank
/// line does.
pub open spec fn parse_spec(line: Seq<char>, probes: Seq<ExecutableCandidate>) -> Result<
    CommandV,
    ParseError,
> {
    let t = trim_spec(line);
    let toks = tokens_spec(t);
    if toks.len() == 0 {
        Ok(CommandV::Empty)
    } else if is_builtin_name(toks[0]) {
        match construct_builtin_spec(t, toks, toks[0], probes) {
            Ok(Some(c)) => Ok(c),
            Ok(None) => Ok(CommandV::Empty),
            Err(e) => Err(e),
        }
    } else {
        match external_command_spec(toks, probes) {
            Some(c) => Ok(c),
            None => Ok(CommandV::NotFound(t)),
        }
    }
}

/// The name whose search-path resolution parsing the line needs:
/// the `type` query's argument, or a non-built-in command name.
pub open spec fn probe_target_spec(line: Seq<char>) -> Option<Seq<char>> {
    let toks = tokens_spec(trim_spec(line));
    if toks.len() == 0 {
        None
    } else if toks[0] == "exit"@ || toks[0] == "echo"@ {
        None
    } else if toks[0] == "type"@ {
        if toks.len() >= 2 && !is_builtin_name(toks[1]) {
            Some(toks[1])
        } else {
            None
        }
    } else {
        Some(toks[0])
    }
}

/// The image of an optional command.
pub open spec fn opt_cmd_view(r: Option<Command>) -> Option<CommandV> {
    match r {
        Some(c) => Some(c@),
        None => None,
    }
}

/// The image of a built-in construction result.
pub open spec fn built_res_view(r: Result<Option<Command>, ParseError>) -> Result<
    Option<CommandV>,
    ParseError,
> {
    match r {
        Ok(o) => Ok(opt_cmd_view(o)),
        Err(e) => Err(e),
    }
}

/// The image of a parse result.
pub open spec fn cmd_res_view(r: Result<Command, ParseError>) -> Result<CommandV, ParseError> {
    match r {
        Ok(c) => Ok(c@),
        Err(e) => Err(e),
    }
}

/// True when the token names one of the built-ins.
pub fn is_builtin_str(s: &str) -> (r: bool)
    ensures
        r == is_builtin_name(s@),
{
    str_eq(s, "exit") || str_eq(s, "echo") || str_eq(s, "type")
}

/// Builds the built-in command the line asks for, `builtin` being the
/// first token; `probes` are the probe results for the `type` query's
/// argument, in search-path order, and matter only to `type`.
pub fn construct_builtin(input: &Input, builtin: &str, probes: &Vec<ExecutableCandidate>) -> (r:
    Result<Option<Command>, ParseError>)
    requires
        input.wf(),
    ensures
        built_res_view(r) == construct_builtin_spec(
            input.trimmed@,
            tokens_spec(input.trimmed@),
            builtin@,
            probes@,
        ),
{
    proof {
        assert(views_of(input.tokens@) == tokens_spec(input.trimmed@));
    }
    if str_eq(builtin, "exit") {
        if input.tokens.len() >= 2 {
            proof {
                assert(views_of(input.tokens@)[1] == input.tokens@[1]@);
            }
            match parse_i32(input.tokens[1].as_str()) {
                Some(v) => Ok(
                    Some(
                        Command::CommandBuiltIn {
                            builtin_command: BuiltInCommand::Exit { exit_code: v },
                        },
                    ),
                ),
                None => Err(ParseError::InvalidExitCode),
            }
        } else {
            Ok(
                Some(
                    Command::CommandBuiltIn {
                        builtin_command: BuiltInCommand::Exit { exit_code: 0 },
                    },
                ),
            )
        }
    } else if str_eq(builtin, "echo") {
        let t = input.trimmed.as_str();
        let tl = t.unicode_len();
        let content: String = if tl >= 5 && str_eq(t.substring_char(0, 5), "echo ") {
            proof {
                assert(t@.subrange(0, 5) =~= t@.take(5));
                assert(t@.subrange(5, t@.len() as int) =~= t@.skip(5));
            }
            t.substring_char(5, tl).to_owned()
        } else {
            proof {
                if tl >= 5 {
                    assert(t@.subrange(0, 5) =~= t@.take(5));
                }
            }
            input.trimmed.clone()
        };
        Ok(
            Some(
                Command::CommandBuiltIn { builtin_command: BuiltInCommand::Echo { content } },
            ),
        )
    } else if str_eq(builtin, "type") {
        if input.tokens.len() < 2 {
            Ok(None)
        } else {
            proof {
                assert(views_of(input.tokens@)[1] == input.tokens@[1]@);
            }
            let arg = &input.tokens[1];
            if is_builtin_str(arg.as_str()) {
                Ok(
                    Some(
                        Command::CommandBuiltIn {
                            builtin_command: BuiltInCommand::Type {
                                command_name: arg.clone(),
                                command_type: CommandType::BuiltIn,
                            },
                        },
                    ),
                )
            } else {
                match resolve_first(probes) {
                    Some(p) => Ok(
                        Some(
                            Command::CommandBuiltIn {
                                builtin_command: BuiltInCommand::Type {
                                    command_name: arg.clone(),
                                    command_type: CommandType::Other(p),
                                },
                            },
                        ),
                    ),
                    None => Ok(
                        Some(
                            Command::CommandBuiltIn {
                                builtin_command: BuiltInCommand::Type {
                                    command_name: arg.clone(),
                                    command_type: CommandType::Invalid,
                                },
                            },
                        ),
                    ),
                }
            }
        }
    } else {
        Ok(None)
    }
}

/// Builds the external command for the line's first token when the
/// search path resolves it, `probes` being the per-directory probe
/// results for that token; the arguments are the remaining tokens.
pub fn construct_external_command(input: &Input, probes: &Vec<ExecutableCandidate>) -> (r: Option<
    Command,
>)
    requires
        input.wf(),
        input.tokens.len() > 0,
    ensures
        opt_cmd_view(r) == external_command_spec(tokens_spec(input.trimmed@), probes@),
{
    proof {
        assert(views_of(input.tokens@) == tokens_spec(input.trimmed@));
        assert(views_of(input.tokens@)[0] == input.tokens@[0]@);
    }
    match resolve_first(probes) {
        Some(_path) => {
            let command_name = input.tokens[0].clone();
            let mut args: Vec<String> = Vec::new();
            let mut k: usize = 1;
            proof {
                assert(views_of(args@) =~= views_of(input.tokens@).subrange(1, 1));
            }
            while k < input.tokens.len()
                invariant
                    1 <= k <= input.tokens@.len(),
                    views_of(args@) == views_of(input.tokens@).subrange(1, k as int),
                decreases input.tokens@.len() - k,
            {
                let tok = input.tokens[k].clone();
                proof {
                    assert(views_of(input.tokens@)[k as int] == input.tokens@[k as int]@);
                    assert(views_of(args@.push(tok)) =~= views_of(args@).push(tok@));
                    assert(views_of(input.tokens@).subrange(1, k as int + 1) =~= views_of(
                        input.tokens@,
                    ).subrange(1, k as int).push(views_of(input.tokens@)[k as int]));
                }
                args.push(tok);
                k += 1;
            }
            proof {
                assert(views_of(input.tokens@).subrange(1, input.tokens@.len() as int) =~= views_of(
                    input.tokens@,
                ).drop_first());
            }
            Some(Command::CommandExternal { command_name, args })
        },
        None => None,
    }
}

impl Command {
    /// Classifies one input line: a blank line is `Empty`; a first token
    /// naming a built-in builds that built-in (a bare `type` is a silent
    /// no-op); any other first token is looked up on the search path and
    /// becomes an external command or `CommandNotFound` with the trimmed
    /// line. `probes` are the probe results for the line's lookup target
    /// (see `probe_target`), one per search-path directory in order.
    pub fn from_input(input: &Input, probes: &Vec<ExecutableCandidate>) -> (r: Result<
        Command,
        ParseError,
    >)
        requires
            input.wf(),
        ensures
            cmd_res_view(r) == parse_spec(input.raw@, probes@),
    {
        proof {
            assert(trim_spec(input.raw@) == input.trimmed@);
            assert(views_of(input.tokens@) == tokens_spec(input.trimmed@));
        }
        if input.tokens.len() == 0 {
            return Ok(Command::Empty);
        }
        proof {
            assert(views_of(input.tokens@)[0] == input.tokens@[0]@);
        }
        let t0 = input.tokens[0].as_str();
        if is_builtin_str(t0) {
            match construct_builtin(input, t0, probes) {
                Ok(Some(c)) => Ok(c),
                Ok(None) => Ok(Command::Empty),
                Err(e) => Err(e),
            }
        } else {
            match construct_external_command(input, probes) {
                Some(c) => Ok(c),
                None => Ok(
                    Command::CommandNotFound { unknown_command_name: input.trimmed.clone() },
                ),
            }
        }
    }
}

/// The name whose search-path resolution this line's parse will need,
/// or `None` when built-ins settle the line without the filesystem.
pub fn probe_target(input: &Input) -> (r: Option<String>)
    requires
        input.wf(),
    ensures
        match r {
            Some(nm) => probe_target_spec(input.raw@) == Some(nm@),
            None => probe_target_spec(input.raw@) is None,
        },
{
    proof {
        assert(trim_spec(input.raw@) == input.trimmed@);
        assert(views_of(input.tokens@) == tokens_spec(input.trimmed@));
    }
    if input.tokens.len() == 0 {
        return None;
    }
    proof {
        assert(views_of(input.tokens@)[0] == input.tokens@[0]@);
    }
    let t0 = input.tokens[0].as_str();
    if str_eq(t0, "exit") || str_eq(t0, "echo") {
        None
    } else if str_eq(t0, "type") {
        if input.tokens.len() >= 2 {
            proof {
                assert(views_of(input.tokens@)[1] == input.tokens@[1]@);
            }
            let arg = &input.tokens[1];
            if is_builtin_str(arg.as_str()) {
                None
            } else {
                Some(arg.clone())
            }
        } else {
            None
        }
    } else {
        Some(input.tokens[0].clone())
    }
}

} // verus!
