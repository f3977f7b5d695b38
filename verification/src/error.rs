use vstd::prelude::*;

verus! {

/// An opaque failure reported by the storage client: a message describing
/// what went wrong. The command layer never inspects it beyond carrying it
/// to the caller.
#[derive(Debug)]
pub struct Er {
    msg: String,
}

impl View for Er {
    type V = Seq<char>;

    closed spec fn view(&self) -> Seq<char> {
        self.msg@
    }
}

impl Er {
    pub fn new(msg: &'static str) -> (r: Box<Er>)
        ensures
            r@ == msg@,
    {
        Box::new(Er { msg: msg.to_owned() })
    }

    pub fn from_string(msg: String) -> (r: Er)
        ensures
            r@ == msg@,
    {
        Er { msg }
    }

    pub fn msg(&self) -> (r: &str)
        ensures
            r@ == self@,
    {
        self.msg.as_str()
    }
}

/// Everything that can make one command invocation fail.
///
/// An unrecognized command name is deliberately not here: it is a valid
/// terminal outcome, not an error.
#[derive(Debug)]
pub enum CmdError {
    /// No command token was supplied at all.
    NoCommand,
    /// A required positional argument was missing: the argument's name and
    /// the command that needed it.
    MissingArgument(&'static str, &'static str),
    /// A failure raised by the storage client, propagated unchanged.
    Client(Er),
}

/// The message printed for each error, as a sequence of characters.
pub open spec fn error_message(e: CmdError) -> Seq<char> {
    match e {
        CmdError::NoCommand => "No command line args were passed"@,
        CmdError::MissingArgument(name, cmd) => "No "@ + name@ + " argument provided for "@
            + cmd@ + " command"@,
        CmdError::Client(er) => er@,
    }
}

/// Does `e` report that argument `name` was missing for command `cmd`?
pub open spec fn is_missing_arg(e: CmdError, name: Seq<char>, cmd: Seq<char>) -> bool {
    e matches CmdError::MissingArgument(n, c) && n@ == name && c@ == cmd
}

impl CmdError {
    pub fn message(&self) -> (r: String)
        ensures
            r@ == error_message(*self),
    {
        match self {
            CmdError::NoCommand => "No command line args were passed".to_owned(),
            CmdError::MissingArgument(name, cmd) => {
                let mut s = "No ".to_owned();
                s.append(name);
                s.append(" argument provided for ");
                s.append(cmd);
                s.append(" command");
                proof {
                    assert(s@ =~= error_message(*self));
                }
                s
            },
            CmdError::Client(er) => er.msg().to_owned(),
        }
    }
}

} // verus!
