//! Runs of external commands, and what they printed.
//!
//! A command is one line of the form `binary argument`. The commands are run
//! while the snapshot of the context is taken; what each of them printed is
//! kept as an [`Execution`], and the modules ask for it here.

use crate::text::{chars_before, chars_of, count_before, lemma_count_before, text_view};
use vstd::prelude::*;
use vstd::string::*;
use vstd::utf8::{decode_utf8, valid_utf8};

verus! {

/// One run of an external command.
#[derive(Debug, PartialEq, Eq)]
pub struct Execution {
    /// The executable that was asked for.
    pub binary: String,
    /// The one argument that it was given.
    pub arg: String,
    /// The bytes it wrote to its standard output, or `None` where it could
    /// not be started at all.
    pub stdout: Option<Vec<u8>>,
}

/// The executable that a command line names: what stands before its first
/// space.
pub open spec fn binary_of(command: Seq<char>) -> Seq<char> {
    command.take(count_before(command, ' ') as int)
}

/// The argument that a command line gives: what stands behind its first
/// space.
pub open spec fn arg_of(command: Seq<char>) -> Seq<char> {
    command.skip(count_before(command, ' ') as int + 1)
}

/// A command line with a space is its executable, one space and its
/// argument, and the executable holds no space.
pub proof fn lemma_command_parts(command: Seq<char>)
    requires
        command.contains(' '),
    ensures
        command == binary_of(command) + seq![' '] + arg_of(command),
        !binary_of(command).contains(' '),
{
    lemma_count_before(command, ' ');
    assert(command =~= binary_of(command) + seq![' '] + arg_of(command));
}

/// Splits a command line into the executable and its argument.
pub fn split_command(command: &str) -> (parts: (String, String))
    requires
        command@.contains(' '),
    ensures
        parts.0@ == binary_of(command@),
        parts.1@ == arg_of(command@),
{
    let chars = chars_of(command);
    let at = chars_before(&chars, ' ');
    proof {
        lemma_count_before(command@, ' ');
    }
    let binary = command.substring_char(0, at).to_owned();
    let arg = command.substring_char(at + 1, chars.len()).to_owned();
    proof {
        assert(command@.subrange(0, at as int) =~= command@.take(at as int));
        assert(command@.subrange(at + 1, chars.len() as int) =~= command@.skip(at + 1));
    }
    (binary, arg)
}

/// The first run on record of the given executable with the given argument.
pub open spec fn recorded(executions: Seq<Execution>, binary: Seq<char>, arg: Seq<char>) -> Option<
    Execution,
>
    decreases executions.len(),
{
    if executions.len() == 0 {
        None
    } else if executions.first().binary@ == binary && executions.first().arg@ == arg {
        Some(executions.first())
    } else {
        recorded(executions.drop_first(), binary, arg)
    }
}

/// The text that a run printed: there is one where the command could be
/// started and what it wrote is valid UTF-8.
pub open spec fn printed(stdout: Option<Vec<u8>>) -> Option<Seq<char>> {
    match stdout {
        Some(bytes) => if valid_utf8(bytes@) {
            Some(decode_utf8(bytes@))
        } else {
            None
        },
        None => None,
    }
}

/// What a command line gives against the runs on record: the text that the
/// first run of its executable with its argument printed.
pub open spec fn output_of(executions: Seq<Execution>, command: Seq<char>) -> Option<Seq<char>> {
    match recorded(executions, binary_of(command), arg_of(command)) {
        Some(execution) => printed(execution.stdout),
        None => None,
    }
}

/// Reads bytes as UTF-8 with `std::str::from_utf8`. There is a text exactly
/// when the bytes are valid UTF-8, and it is the text that they encode.
#[verifier::external_body]
fn text_from_utf8(bytes: &Vec<u8>) -> (text: Option<&str>)
    ensures
        text is Some <==> valid_utf8(bytes@),
        text matches Some(text) ==> text@ == decode_utf8(bytes@),
{
    std::str::from_utf8(bytes).ok()
}

/// The text that a run printed.
pub fn decode_output(stdout: &Option<Vec<u8>>) -> (text: Option<String>)
    ensures
        text_view(text) == printed(*stdout),
{
    match stdout {
        Some(bytes) => match text_from_utf8(bytes) {
            Some(text) => Some(text.to_owned()),
            None => None,
        },
        None => None,
    }
}

/// The output of a command: the text that its run printed. There is none
/// where the command was not run, could not be started, or wrote something
/// that is not valid UTF-8. A missing tool is no fault, only an absent
/// output.
pub fn execute(command: &str, executions: &Vec<Execution>) -> (output: Option<String>)
    requires
        command@.contains(' '),
    ensures
        text_view(output) == output_of(executions@, command@),
{
    let (binary, arg) = split_command(command);
    let mut i: usize = 0;
    assert(executions@.skip(0) == executions@);
    while i < executions.len()
        invariant
            i <= executions.len(),
            binary@ == binary_of(command@),
            arg@ == arg_of(command@),
            recorded(executions@, binary@, arg@) == recorded(
                executions@.skip(i as int),
                binary@,
                arg@,
            ),
        decreases executions.len() - i,
    {
        assert(executions@.skip(i as int).first() == executions@[i as int]);
        assert(executions@.skip(i as int).drop_first() == executions@.skip(i + 1));
        if executions[i].binary == binary && executions[i].arg == arg {
            return decode_output(&executions[i].stdout);
        }
        i += 1;
    }
    None
}

} // verus!
