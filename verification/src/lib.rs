pub mod args;
pub mod client;
pub mod commands;
pub mod error;
pub mod format;
pub mod laws;
pub mod mem_client;

use vstd::prelude::*;
use crate::args::CmdArgs;
use crate::client::{RedisClient, str_lookup, hash_lookup};
use crate::commands::{Cmd, hgetall_output};
use crate::error::{CmdError, is_missing_arg};
use crate::format::value_line;

verus! {

/// The line printed for an unrecognized command name.
pub open spec fn unexpected_line(name: Seq<char>) -> Seq<char> {
    "Unexpected command: "@ + name
}

/// What one whole invocation must produce, given the command name, the
/// tokens after it, the client state before and after, and the outcome:
/// which handler ran, which storage operation it performed with exactly
/// the tokens supplied, and which lines came back.
pub open spec fn run_post(
    name: Seq<char>,
    rest: Seq<Seq<char>>,
    pre_strings: Map<Seq<char>, Seq<char>>,
    pre_hashes: Map<Seq<char>, Seq<Seq<char>>>,
    post_strings: Map<Seq<char>, Seq<char>>,
    post_hashes: Map<Seq<char>, Seq<Seq<char>>>,
    r: Result<Vec<String>, CmdError>,
) -> bool {
    if name == "GET"@ {
        &&& post_strings == pre_strings && post_hashes == pre_hashes
        &&& rest.len() == 0 ==> (r matches Err(e) && is_missing_arg(e, "key"@, "GET"@))
        &&& rest.len() > 0 ==> {
            &&& r matches Ok(lines) ==> lines.deep_view() == seq![
                value_line("GET"@, rest[0], str_lookup(pre_strings, rest[0])),
            ]
            &&& r matches Err(e) ==> e matches CmdError::Client(_)
        }
    } else if name == "SET"@ {
        &&& rest.len() == 0 ==> (r matches Err(e) && is_missing_arg(e, "key"@, "SET"@)
            && post_strings == pre_strings && post_hashes == pre_hashes)
        &&& rest.len() == 1 ==> (r matches Err(e) && is_missing_arg(e, "value"@, "SET"@)
            && post_strings == pre_strings && post_hashes == pre_hashes)
        &&& rest.len() >= 2 ==> {
            &&& r matches Ok(lines) ==> (lines.deep_view() == Seq::<Seq<char>>::empty()
                && post_strings == pre_strings.insert(rest[0], rest[1])
                && post_hashes == pre_hashes)
            &&& r matches Err(e) ==> e matches CmdError::Client(_)
        }
    } else if name == "HGET"@ {
        &&& post_strings == pre_strings && post_hashes == pre_hashes
        &&& rest.len() == 0 ==> (r matches Err(e) && is_missing_arg(e, "key"@, "HGET"@))
        &&& rest.len() == 1 ==> (r matches Err(e) && is_missing_arg(e, "field"@, "HGET"@))
        &&& rest.len() >= 2 ==> {
            &&& r matches Ok(lines) ==> lines.deep_view() == seq![
                value_line("HGET"@, rest[0], hash_lookup(pre_hashes, rest[0], rest[1])),
            ]
            &&& r matches Err(e) ==> e matches CmdError::Client(_)
        }
    } else if name == "HGETALL"@ {
        &&& post_strings == pre_strings && post_hashes == pre_hashes
        &&& rest.len() == 0 ==> (r matches Err(e) && is_missing_arg(e, "key"@, "HGETALL"@))
        &&& rest.len() > 0 ==> {
            &&& r matches Ok(lines) ==> lines.deep_view() == hgetall_output(pre_hashes, rest[0])
            &&& r matches Err(e) ==> e matches CmdError::Client(_)
        }
    } else {
        &&& post_strings == pre_strings && post_hashes == pre_hashes
        &&& r matches Ok(lines) && lines.deep_view() == seq![unexpected_line(name)]
    }
}

/// One whole invocation, minus the process edges: parses the token
/// sequence (program name included), dispatches to the handler matching
/// the command variant against `client`, and returns the lines to print —
/// or the single error to report, after which the caller terminates with
/// failure.
pub fn run<A: CmdArgs, C: RedisClient>(args: A, client: &mut C) -> (r: Result<
    Vec<String>,
    CmdError,
>)
    ensures
        args.remaining().len() <= 1 ==> (r == Err::<Vec<String>, CmdError>(CmdError::NoCommand)
            && final(client).strings() == old(client).strings()
            && final(client).hashes() == old(client).hashes()),
        args.remaining().len() >= 2 ==> run_post(
            args.remaining()[1],
            args.remaining().skip(2),
            old(client).strings(),
            old(client).hashes(),
            final(client).strings(),
            final(client).hashes(),
            r,
        ),
{
    match Cmd::from(args) {
        Err(e) => Err(e),
        Ok(cmd) => match cmd {
            Cmd::Get(mut a) => match commands::get(&mut a, client) {
                Ok(line) => {
                    let mut lines: Vec<String> = Vec::new();
                    lines.push(line);
                    proof {
                        assert(lines.deep_view() =~= seq![
                            value_line(
                                "GET"@,
                                args.remaining().skip(2)[0],
                                str_lookup(old(client).strings(), args.remaining().skip(2)[0]),
                            ),
                        ]);
                    }
                    Ok(lines)
                },
                Err(e) => Err(e),
            },
            Cmd::SetCmd(mut a) => match commands::set(&mut a, client) {
                Ok(_) => {
                    let lines: Vec<String> = Vec::new();
                    proof {
                        assert(lines.deep_view() =~= Seq::<Seq<char>>::empty());
                    }
                    Ok(lines)
                },
                Err(e) => Err(e),
            },
            Cmd::HGet(mut a) => match commands::hget(&mut a, client) {
                Ok(line) => {
                    let mut lines: Vec<String> = Vec::new();
                    lines.push(line);
                    proof {
                        assert(lines.deep_view() =~= seq![
                            value_line(
                                "HGET"@,
                                args.remaining().skip(2)[0],
                                hash_lookup(
                                    old(client).hashes(),
                                    args.remaining().skip(2)[0],
                                    args.remaining().skip(2)[1],
                                ),
                            ),
                        ]);
                    }
                    Ok(lines)
                },
                Err(e) => Err(e),
            },
            Cmd::HGetAll(mut a) => match commands::hgetall(&mut a, client) {
                Ok(lines) => Ok(lines),
                Err(e) => Err(e),
            },
            Cmd::NotFound(name) => {
                let mut line = "Unexpected command: ".to_owned();
                line.append(name.as_str());
                let mut lines: Vec<String> = Vec::new();
                lines.push(line);
                proof {
                    assert(line@ =~= unexpected_line(name@));
                    assert(lines.deep_view() =~= seq![unexpected_line(name@)]);
                }
                Ok(lines)
            },
        },
    }
}

} // verus!
