use vstd::prelude::*;

verus! {

/// An ordered, consumed-exactly-once source of argument tokens.
///
/// `remaining` is the sequence of tokens not yet handed out. `get_arg`
/// yields the front token and advances, or returns `None` once the source
/// is exhausted; a handler asks only for the tokens its command needs, so
/// excess tokens simply stay unconsumed.
pub trait CmdArgs {
    spec fn remaining(&self) -> Seq<Seq<char>>;

    fn get_arg(&mut self) -> (r: Option<String>)
        ensures
            old(self).remaining().len() == 0 ==> r is None && final(self).remaining() == old(self).remaining(),
            old(self).remaining().len() > 0 ==> (r matches Some(t)
                && t@ == old(self).remaining()[0]
                && final(self).remaining() == old(self).remaining().drop_first()),
    ;
}

/// A concrete argument source: a vector of tokens consumed front to back.
pub struct ArgList {
    toks: Vec<String>,
}

impl ArgList {
    pub fn new(toks: Vec<String>) -> (r: ArgList)
        ensures
            r.remaining() == toks.deep_view(),
    {
        ArgList { toks }
    }
}

impl CmdArgs for ArgList {
    closed spec fn remaining(&self) -> Seq<Seq<char>> {
        self.toks.deep_view()
    }

    fn get_arg(&mut self) -> (r: Option<String>) {
        if self.toks.len() == 0 {
            None
        } else {
            let t = self.toks.remove(0);
            proof {
                assert(self.toks.deep_view() =~= old(self).toks.deep_view().drop_first());
            }
            Some(t)
        }
    }
}

} // verus!
