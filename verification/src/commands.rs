use vstd::prelude::*;
use crate::args::CmdArgs;
use crate::client::{RedisClient, str_lookup, hash_lookup, hash_pairs};
use crate::error::{CmdError, is_missing_arg};
use crate::format::{render_value_line, format_hgetall, value_line, hgetall_lines};

verus! {

/// A parsed command: one of the recognized operations carrying its
/// still-unconsumed argument tokens, or the unrecognized command name.
pub enum Cmd<T: CmdArgs> {
    Get(T),
    SetCmd(T),
    HGet(T),
    HGetAll(T),
    NotFound(String),
}

/// What parsing a token sequence `ts` (program name included) must yield
/// when a command token is present: the variant named by `ts[1]`, carrying
/// the rest of the tokens — or `NotFound` with the unrecognized name.
pub open spec fn parsed_cmd<T: CmdArgs>(c: Cmd<T>, ts: Seq<Seq<char>>) -> bool
    recommends
        ts.len() >= 2,
{
    let name = ts[1];
    let rest = ts.skip(2);
    if name == "GET"@ {
        c matches Cmd::Get(a) && a.remaining() == rest
    } else if name == "SET"@ {
        c matches Cmd::SetCmd(a) && a.remaining() == rest
    } else if name == "HGET"@ {
        c matches Cmd::HGet(a) && a.remaining() == rest
    } else if name == "HGETALL"@ {
        c matches Cmd::HGetAll(a) && a.remaining() == rest
    } else {
        c matches Cmd::NotFound(n) && n@ == name
    }
}

impl<T: CmdArgs> Cmd<T> {
    /// Parses the token stream: the first token (the program name) is
    /// discarded, the next is read as the command name, and the remaining
    /// tokens are attached unconsumed to the matching variant. Argument
    /// counts are deliberately not checked here: that is the handlers'
    /// job, so that a missing command and a missing argument stay distinct
    /// failures.
    pub fn from(args: T) -> (r: Result<Cmd<T>, CmdError>)
        ensures
            args.remaining().len() <= 1 ==> r == Err::<Cmd<T>, CmdError>(CmdError::NoCommand),
            args.remaining().len() >= 2 ==> (r matches Ok(c) && parsed_cmd(c, args.remaining())),
    {
        let mut rest = args;
        let _prog = rest.get_arg();
        match rest.get_arg() {
            None => Err(CmdError::NoCommand),
            Some(name) => {
                proof {
                    if args.remaining().len() >= 2 {
                        assert(rest.remaining() =~= args.remaining().skip(2));
                    }
                }
                if name == "GET".to_owned() {
                    Ok(Cmd::Get(rest))
                } else if name == "SET".to_owned() {
                    Ok(Cmd::SetCmd(rest))
                } else if name == "HGET".to_owned() {
                    Ok(Cmd::HGet(rest))
                } else if name == "HGETALL".to_owned() {
                    Ok(Cmd::HGetAll(rest))
                } else {
                    Ok(Cmd::NotFound(name))
                }
            },
        }
    }
}

/// Handles `GET`: consumes one token as the key, asks the client for it,
/// and renders the response line.
pub fn get<A: CmdArgs, C: RedisClient>(args: &mut A, client: &mut C) -> (r: Result<
    String,
    CmdError,
>)
    ensures
        final(client).strings() == old(client).strings(),
        final(client).hashes() == old(client).hashes(),
        old(args).remaining().len() == 0 ==> (r matches Err(e)
            && is_missing_arg(e, "key"@, "GET"@)
            && final(args).remaining() == old(args).remaining()),
        old(args).remaining().len() > 0 ==> {
            &&& final(args).remaining() == old(args).remaining().drop_first()
            &&& r matches Ok(line) ==> line@ == value_line(
                "GET"@,
                old(args).remaining()[0],
                str_lookup(old(client).strings(), old(args).remaining()[0]),
            )
            &&& r matches Err(e) ==> e matches CmdError::Client(_)
        },
{
    let key = match args.get_arg() {
        Some(key) => key,
        None => {
            return Err(CmdError::MissingArgument("key", "GET"));
        },
    };
    match client.get(key.as_str()) {
        Ok(maybe_val) => Ok(render_value_line("GET", key.as_str(), &maybe_val)),
        Err(e) => Err(CmdError::Client(e)),
    }
}

/// Handles `SET`: consumes the key and then the value, in that order, and
/// writes the pair through the client. Success produces no output.
pub fn set<A: CmdArgs, C: RedisClient>(args: &mut A, client: &mut C) -> (r: Result<(), CmdError>)
    ensures
        old(args).remaining().len() == 0 ==> (r matches Err(e)
            && is_missing_arg(e, "key"@, "SET"@)
            && final(args).remaining() == old(args).remaining()
            && final(client).strings() == old(client).strings()
            && final(client).hashes() == old(client).hashes()),
        old(args).remaining().len() == 1 ==> (r matches Err(e)
            && is_missing_arg(e, "value"@, "SET"@)
            && final(args).remaining().len() == 0
            && final(client).strings() == old(client).strings()
            && final(client).hashes() == old(client).hashes()),
        old(args).remaining().len() >= 2 ==> {
            &&& final(args).remaining() == old(args).remaining().skip(2)
            &&& r is Ok ==> final(client).strings() == old(client).strings().insert(
                old(args).remaining()[0],
                old(args).remaining()[1],
            ) && final(client).hashes() == old(client).hashes()
            &&& r matches Err(e) ==> e matches CmdError::Client(_)
        },
{
    let key = match args.get_arg() {
        Some(key) => key,
        None => {
            return Err(CmdError::MissingArgument("key", "SET"));
        },
    };
    let value = match args.get_arg() {
        Some(value) => value,
        None => {
            return Err(CmdError::MissingArgument("value", "SET"));
        },
    };
    proof {
        assert(args.remaining() =~= old(args).remaining().skip(2));
    }
    match client.set(key.as_str(), value.as_str()) {
        Ok(_) => Ok(()),
        Err(e) => Err(CmdError::Client(e)),
    }
}

/// Handles `HGET`: consumes the key and then the field, asks the client,
/// and renders the response line.
pub fn hget<A: CmdArgs, C: RedisClient>(args: &mut A, client: &mut C) -> (r: Result<
    String,
    CmdError,
>)
    ensures
        final(client).strings() == old(client).strings(),
        final(client).hashes() == old(client).hashes(),
        old(args).remaining().len() == 0 ==> (r matches Err(e)
            && is_missing_arg(e, "key"@, "HGET"@)
            && final(args).remaining() == old(args).remaining()),
        old(args).remaining().len() == 1 ==> (r matches Err(e)
            && is_missing_arg(e, "field"@, "HGET"@)
            && final(args).remaining().len() == 0),
        old(args).remaining().len() >= 2 ==> {
            &&& final(args).remaining() == old(args).remaining().skip(2)
            &&& r matches Ok(line) ==> line@ == value_line(
                "HGET"@,
                old(args).remaining()[0],
                hash_lookup(
                    old(client).hashes(),
                    old(args).remaining()[0],
                    old(args).remaining()[1],
                ),
            )
            &&& r matches Err(e) ==> e matches CmdError::Client(_)
        },
{
    let key = match args.get_arg() {
        Some(key) => key,
        None => {
            return Err(CmdError::MissingArgument("key", "HGET"));
        },
    };
    let field = match args.get_arg() {
        Some(field) => field,
        None => {
            return Err(CmdError::MissingArgument("field", "HGET"));
        },
    };
    proof {
        assert(args.remaining() =~= old(args).remaining().skip(2));
    }
    match client.hget(key.as_str(), field.as_str()) {
        Ok(maybe_val) => Ok(render_value_line("HGET", key.as_str(), &maybe_val)),
        Err(e) => Err(CmdError::Client(e)),
    }
}

/// The lines printed for a successful `HGETALL`: the aligned table when
/// the key exists, and the `nil` line when it does not.
pub open spec fn hgetall_output(m: Map<Seq<char>, Seq<Seq<char>>>, k: Seq<char>) -> Seq<
    Seq<char>,
> {
    match hash_pairs(m, k) {
        Some(pairs) => hgetall_lines(pairs, k),
        None => seq![value_line("HGETALL"@, k, None)],
    }
}

/// Handles `HGETALL`: consumes one token as the key, asks the client for
/// the whole hash, and renders either the aligned table or the `nil` line.
pub fn hgetall<A: CmdArgs, C: RedisClient>(args: &mut A, client: &mut C) -> (r: Result<
    Vec<String>,
    CmdError,
>)
    ensures
        final(client).strings() == old(client).strings(),
        final(client).hashes() == old(client).hashes(),
        old(args).remaining().len() == 0 ==> (r matches Err(e)
            && is_missing_arg(e, "key"@, "HGETALL"@)
            && final(args).remaining() == old(args).remaining()),
        old(args).remaining().len() > 0 ==> {
            &&& final(args).remaining() == old(args).remaining().drop_first()
            &&& r matches Ok(lines) ==> lines.deep_view() == hgetall_output(
                old(client).hashes(),
                old(args).remaining()[0],
            )
            &&& r matches Err(e) ==> e matches CmdError::Client(_)
        },
{
    let key = match args.get_arg() {
        Some(key) => key,
        None => {
            return Err(CmdError::MissingArgument("key", "HGETALL"));
        },
    };
    match client.hgetall(key.as_str()) {
        Ok(Some(res)) => Ok(format_hgetall(key.as_str(), &res)),
        Ok(None) => {
            let line = render_value_line("HGETALL", key.as_str(), &None);
            let mut lines: Vec<String> = Vec::new();
            lines.push(line);
            proof {
                assert(lines.deep_view() =~= hgetall_output(
                    old(client).hashes(),
                    old(args).remaining()[0],
                ));
            }
            Ok(lines)
        },
        Err(e) => Err(CmdError::Client(e)),
    }
}

} // verus!
