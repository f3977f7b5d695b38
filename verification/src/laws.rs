use vstd::prelude::*;
use crate::client::{str_lookup, hash_lookup};
use crate::commands::hgetall_output;
use crate::error::CmdError;
use crate::format::{value_line, hgetall_lines, header_line};
use crate::run_post;

verus! {

/// A recognized command with sufficient arguments, handled successfully,
/// performs its storage operation with exactly the tokens supplied, in
/// the order given: `SET` stores `rest[0] |-> rest[1]` and nothing else,
/// and each read reports precisely what the prior state held for its
/// tokens.
pub proof fn lemma_run_uses_exact_tokens(
    name: Seq<char>,
    rest: Seq<Seq<char>>,
    pre_strings: Map<Seq<char>, Seq<char>>,
    pre_hashes: Map<Seq<char>, Seq<Seq<char>>>,
    post_strings: Map<Seq<char>, Seq<char>>,
    post_hashes: Map<Seq<char>, Seq<Seq<char>>>,
    r: Result<Vec<String>, CmdError>,
)
    requires
        run_post(name, rest, pre_strings, pre_hashes, post_strings, post_hashes, r),
        r is Ok,
    ensures
        name == "GET"@ && rest.len() > 0 ==> (r matches Ok(lines) && lines.deep_view() == seq![
            value_line("GET"@, rest[0], str_lookup(pre_strings, rest[0])),
        ] && post_strings == pre_strings && post_hashes == pre_hashes),
        name == "SET"@ && rest.len() >= 2 ==> (post_strings == pre_strings.insert(
            rest[0],
            rest[1],
        ) && post_hashes == pre_hashes),
        name == "HGET"@ && rest.len() >= 2 ==> (r matches Ok(lines) && lines.deep_view() == seq![
            value_line("HGET"@, rest[0], hash_lookup(pre_hashes, rest[0], rest[1])),
        ] && post_strings == pre_strings && post_hashes == pre_hashes),
        name == "HGETALL"@ && rest.len() > 0 ==> (r matches Ok(lines) && lines.deep_view()
            == hgetall_output(pre_hashes, rest[0]) && post_strings == pre_strings && post_hashes
            == pre_hashes),
{
    broadcast use vstd::string::group_string_axioms;

    // The four command names are pairwise distinct: they differ in their
    // first character, or in length.
    reveal_strlit("GET");
    reveal_strlit("SET");
    reveal_strlit("HGET");
    reveal_strlit("HGETALL");
    assert("GET"@[0] == 'G');
    assert("SET"@[0] == 'S');
    assert("HGET"@[0] == 'H');
    assert("HGET"@.len() == 4);
    assert("HGETALL"@[0] == 'H');
    assert("HGETALL"@.len() == 7);
}

/// Formatting a single-value response is idempotent: the same label, key
/// and value always render as the identical line.
pub proof fn lemma_value_line_deterministic(
    label: Seq<char>,
    key: Seq<char>,
    v: Option<Seq<char>>,
    l1: Seq<char>,
    l2: Seq<char>,
)
    requires
        l1 == value_line(label, key, v),
        l2 == value_line(label, key, v),
    ensures
        l1 == l2,
{
}

/// A hash result with no pairs renders as the header line alone: no field
/// rows follow it.
pub proof fn lemma_hgetall_empty_only_header(key: Seq<char>)
    ensures
        hgetall_lines(Seq::empty(), key).len() == 1,
        hgetall_lines(Seq::empty(), key)[0] == header_line(key),
{
}

/// Reading a key the store does not hold renders the `nil` line: a
/// missing value is a normal outcome, not an error.
pub proof fn lemma_get_missing_key_is_nil(m: Map<Seq<char>, Seq<char>>, k: Seq<char>)
    requires
        !m.contains_key(k),
    ensures
        value_line("GET"@, k, str_lookup(m, k)) == "GET"@ + "("@ + k + "): nil"@,
{
}

} // verus!
