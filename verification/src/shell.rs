//! The read-eval loop's per-iteration decision, and the laws the whole
//! pipeline obeys.

use vstd::prelude::*;
use crate::command::{
    BuiltInCommandV, Command, CommandTypeV, CommandV, ParseError, is_builtin_name, parse_spec,
};
use crate::executor::{
    ExecOutcome, continues, exit_code_of, opt_spawn_view, opt_str_view, output_of, spawn_of,
};
use crate::input::{
    Input, is_space, lemma_token_end_unique, lemma_trim_all_space, lemma_trim_no_ends_space,
    tokens_spec, trim_spec,
};
use crate::resolve::{
    ExecutableCandidate, lemma_first_runnable_index, lemma_first_runnable_none,
};

verus! {

/// One iteration of the read loop, after the line has been read and the
/// probe results for its lookup target have been gathered: parse the
/// line, then decide its effect. A parse failure is handed back for the
/// loop to stop on.
pub fn shell_step(line: &str, probes: &Vec<ExecutableCandidate>) -> (r: Result<
    ExecOutcome,
    ParseError,
>)
    ensures
        match r {
            Ok(o) => parse_spec(line@, probes@) matches Ok(c) && opt_str_view(o.output)
                == output_of(c) && o.is_continue == continues(c) && o.exit_code as int
                == exit_code_of(c) && opt_spawn_view(o.spawn) == spawn_of(c),
            Err(e) => parse_spec(line@, probes@) == Err::<CommandV, ParseError>(e),
        },
{
    let input = Input::new(line);
    match Command::from_input(&input, probes) {
        Ok(c) => Ok(c.handle()),
        Err(e) => Err(e),
    }
}

/// The printed output of one command, with its trailing newline.
pub open spec fn printed_of(c: CommandV) -> Seq<char> {
    match output_of(c) {
        Some(o) => o + "\n"@,
        None => Seq::empty(),
    }
}

/// The whole transcript printed when the given lines are fed to the
/// loop one per iteration, `probes[i]` being the probe results for
/// `lines[i]`'s lookup target: each command's output with a trailing
/// newline, stopping at the first parse failure or exit request.
pub open spec fn run_outputs(
    lines: Seq<Seq<char>>,
    probes: Seq<Seq<ExecutableCandidate>>,
) -> Seq<char>
    decreases lines.len(),
{
    if lines.len() == 0 {
        Seq::empty()
    } else {
        match parse_spec(lines[0], probes[0]) {
            Err(_) => Seq::empty(),
            Ok(c) => if continues(c) {
                printed_of(c) + run_outputs(lines.drop_first(), probes.drop_first())
            } else {
                printed_of(c)
            },
        }
    }
}

/// A line of nothing but whitespace parses to `Empty`, which prints
/// nothing and lets the loop continue, whatever the probes report.
pub proof fn law_blank_line_no_effect(line: Seq<char>, probes: Seq<ExecutableCandidate>)
    requires
        forall|i: int| 0 <= i < line.len() ==> is_space(line[i]),
    ensures
        parse_spec(line, probes) == Ok::<CommandV, ParseError>(CommandV::Empty),
        output_of(CommandV::Empty) is None,
        continues(CommandV::Empty),
{
    lemma_trim_all_space(line);
    assert(tokens_spec(trim_spec(line)) =~= Seq::<Seq<char>>::empty());
}

/// No state is shared between iterations: when every line of the first
/// batch parses and continues, the transcript of the two batches fed in
/// one run is the two transcripts, one after the other. In particular
/// feeding the same line twice prints its output twice.
pub proof fn law_iterations_independent(
    lines1: Seq<Seq<char>>,
    probes1: Seq<Seq<ExecutableCandidate>>,
    lines2: Seq<Seq<char>>,
    probes2: Seq<Seq<ExecutableCandidate>>,
)
    requires
        lines1.len() == probes1.len(),
        forall|i: int| 0 <= i < lines1.len() ==> (#[trigger] parse_spec(lines1[i], probes1[i])
            matches Ok(c) && continues(c)),
    ensures
        run_outputs(lines1 + lines2, probes1 + probes2) == run_outputs(lines1, probes1)
            + run_outputs(lines2, probes2),
    decreases lines1.len(),
{
    if lines1.len() == 0 {
        assert(lines1 + lines2 =~= lines2);
        assert(probes1 + probes2 =~= probes2);
        assert(run_outputs(lines1, probes1) + run_outputs(lines2, probes2) =~= run_outputs(
            lines2,
            probes2,
        ));
    } else {
        let all_lines = lines1 + lines2;
        let all_probes = probes1 + probes2;
        assert(all_lines[0] == lines1[0]);
        assert(all_probes[0] == probes1[0]);
        assert(parse_spec(lines1[0], probes1[0]) matches Ok(c) && continues(c));
        assert(all_lines.drop_first() =~= lines1.drop_first() + lines2);
        assert(all_probes.drop_first() =~= probes1.drop_first() + probes2);
        assert forall|i: int| 0 <= i < lines1.drop_first().len() implies #[trigger] parse_spec(
            lines1.drop_first()[i],
            probes1.drop_first()[i],
        ) matches Ok(c) && continues(c) by {
            assert(lines1.drop_first()[i] == lines1[i + 1]);
            assert(probes1.drop_first()[i] == probes1[i + 1]);
            assert(parse_spec(lines1[i + 1], probes1[i + 1]) matches Ok(c) && continues(c));
        }
        law_iterations_independent(lines1.drop_first(), probes1.drop_first(), lines2, probes2);
        let c0 = parse_spec(lines1[0], probes1[0])->Ok_0;
        assert(printed_of(c0) + (run_outputs(lines1.drop_first(), probes1.drop_first())
            + run_outputs(lines2, probes2)) =~= (printed_of(c0) + run_outputs(
            lines1.drop_first(),
            probes1.drop_first(),
        )) + run_outputs(lines2, probes2));
    }
}

/// A single word, bare of whitespace, tokenizes to itself alone.
pub proof fn lemma_tokens_one_word(a: Seq<char>)
    requires
        a.len() > 0,
        forall|i: int| 0 <= i < a.len() ==> !is_space(a[i]),
    ensures
        tokens_spec(a) == seq![a],
{
    lemma_token_end_unique(a, a.len() as int);
    assert(!is_space(a[0]));
    assert(a.take(a.len() as int) =~= a);
    assert(a.skip(a.len() as int) =~= Seq::<char>::empty());
    assert(tokens_spec(a) == seq![a] + tokens_spec(Seq::<char>::empty()));
    assert(seq![a] + Seq::<Seq<char>>::empty() =~= seq![a]);
}

/// Two words joined by a single space tokenize to exactly those words.
pub proof fn lemma_tokens_two_words(a: Seq<char>, b: Seq<char>)
    requires
        a.len() > 0,
        b.len() > 0,
        forall|i: int| 0 <= i < a.len() ==> !is_space(a[i]),
        forall|i: int| 0 <= i < b.len() ==> !is_space(b[i]),
    ensures
        tokens_spec(a + " "@ + b) == seq![a, b],
{
    reveal_strlit(" ");
    let s = a + " "@ + b;
    assert(s.len() == a.len() + 1 + b.len());
    assert forall|i: int| 0 <= i < a.len() implies s[i] == a[i] by {}
    assert(s[a.len() as int] == ' ');
    assert forall|i: int| 0 <= i < b.len() implies s[a.len() + 1 + i] == b[i] by {}
    assert(is_space(' '));
    lemma_token_end_unique(s, a.len() as int);
    assert(!is_space(s[0]));
    assert(s.take(a.len() as int) =~= a);
    let rest = s.skip(a.len() as int);
    assert(rest[0] == ' ');
    assert(rest.drop_first() =~= b);
    lemma_tokens_one_word(b);
    assert(tokens_spec(s) == seq![a] + tokens_spec(rest));
    assert(tokens_spec(rest) == tokens_spec(b));
    assert(seq![a] + seq![b] =~= seq![a, b]);
}

/// The literal views this module's laws reason over.
proof fn lemma_literals()
    ensures
        "type"@ == seq!['t', 'y', 'p', 'e'],
        "type "@ == seq!['t', 'y', 'p', 'e', ' '],
        "exit"@ == seq!['e', 'x', 'i', 't'],
        "echo"@ == seq!['e', 'c', 'h', 'o'],
        " "@ == seq![' '],
{
    reveal_strlit("type");
    reveal_strlit("type ");
    reveal_strlit("exit");
    reveal_strlit("echo");
    reveal_strlit(" ");
}

/// `type <name>`, for a non-built-in name bare of whitespace that some
/// search-path directory resolves, prints `<name> is <path>` with the
/// path from the earliest directory whose probe is runnable.
pub proof fn law_type_resolved(name: Seq<char>, probes: Seq<ExecutableCandidate>, i: int)
    requires
        name.len() > 0,
        forall|j: int| 0 <= j < name.len() ==> !is_space(name[j]),
        !is_builtin_name(name),
        0 <= i < probes.len(),
        probes[i] is Runnable,
        forall|k: int| 0 <= k < i ==> !(probes[k] is Runnable),
    ensures
        parse_spec("type "@ + name, probes) == Ok::<CommandV, ParseError>(
            CommandV::BuiltIn(
                BuiltInCommandV::Type {
                    command_name: name,
                    command_type: CommandTypeV::Other(probes[i]->Runnable_0@),
                },
            ),
        ),
        output_of(parse_spec("type "@ + name, probes)->Ok_0) == Some(
            name + " is "@ + probes[i]->Runnable_0@,
        ),
{
    lemma_literals();
    let line = "type "@ + name;
    assert(line =~= "type"@ + " "@ + name);
    lemma_tokens_two_words("type"@, name);
    assert(!is_space(line[0]));
    assert(!is_space(line[line.len() - 1]));
    lemma_trim_no_ends_space(line);
    lemma_first_runnable_index(probes, i);
    let toks = tokens_spec(trim_spec(line));
    assert(toks == seq!["type"@, name]);
    assert(toks[0] == "type"@);
    assert(toks[1] == name);
    assert(is_builtin_name(toks[0]));
}

/// `type <name>`, for a non-built-in name bare of whitespace that no
/// search-path directory resolves, prints `<name>: not found`.
pub proof fn law_type_unresolved(name: Seq<char>, probes: Seq<ExecutableCandidate>)
    requires
        name.len() > 0,
        forall|j: int| 0 <= j < name.len() ==> !is_space(name[j]),
        !is_builtin_name(name),
        forall|k: int| 0 <= k < probes.len() ==> !(probes[k] is Runnable),
    ensures
        parse_spec("type "@ + name, probes) == Ok::<CommandV, ParseError>(
            CommandV::BuiltIn(
                BuiltInCommandV::Type {
                    command_name: name,
                    command_type: CommandTypeV::Invalid,
                },
            ),
        ),
        output_of(parse_spec("type "@ + name, probes)->Ok_0) == Some(name + ": not found"@),
{
    lemma_literals();
    let line = "type "@ + name;
    assert(line =~= "type"@ + " "@ + name);
    lemma_tokens_two_words("type"@, name);
    assert(!is_space(line[0]));
    assert(!is_space(line[line.len() - 1]));
    lemma_trim_no_ends_space(line);
    lemma_first_runnable_none(probes);
    let toks = tokens_spec(trim_spec(line));
    assert(toks[0] == "type"@);
    assert(toks[1] == name);
}

/// A lone non-built-in name that no search-path directory resolves
/// prints `<name>: command not found`, and the loop continues.
pub proof fn law_unknown_command(name: Seq<char>, probes: Seq<ExecutableCandidate>)
    requires
        name.len() > 0,
        forall|j: int| 0 <= j < name.len() ==> !is_space(name[j]),
        !is_builtin_name(name),
        forall|k: int| 0 <= k < probes.len() ==> !(probes[k] is Runnable),
    ensures
        parse_spec(name, probes) == Ok::<CommandV, ParseError>(CommandV::NotFound(name)),
        output_of(CommandV::NotFound(name)) == Some(name + ": command not found"@),
        continues(CommandV::NotFound(name)),
{
    lemma_trim_no_ends_space(name);
    lemma_tokens_one_word(name);
    lemma_first_runnable_none(probes);
    let toks = tokens_spec(trim_spec(name));
    assert(toks[0] == name);
}

} // verus!
