use vstd::prelude::*;

verus! {

/// The single output line for a value-returning command: the command label,
/// the key in parentheses, then either the value in quotes or `nil`.
pub open spec fn value_line(label: Seq<char>, key: Seq<char>, v: Option<Seq<char>>) -> Seq<char> {
    match v {
        Some(val) => label + "("@ + key + "): \""@ + val + "\""@,
        None => label + "("@ + key + "): nil"@,
    }
}

/// Renders `value_line` executably: the one place the printed shape of a
/// single-value response is produced.
pub fn render_value_line(label: &str, key: &str, v: &Option<String>) -> (r: String)
    ensures
        r@ == value_line(label@, key@, v.deep_view()),
{
    let mut s = label.to_owned();
    s.append("(");
    s.append(key);
    match v {
        Some(val) => {
            s.append("): \"");
            s.append(val.as_str());
            s.append("\"");
        },
        None => {
            s.append("): nil");
        },
    }
    proof {
        assert(s@ =~= value_line(label@, key@, v.deep_view()));
    }
    s
}

/// `n` spaces.
pub open spec fn spaces(n: nat) -> Seq<char>
    decreases n,
{
    if n == 0 {
        Seq::empty()
    } else {
        spaces((n - 1) as nat) + " "@
    }
}

/// The widest field name among the even-indexed entries of `pairs` at or
/// after index `i`.
pub open spec fn width_from(pairs: Seq<Seq<char>>, i: int) -> nat
    decreases pairs.len() - i + 1,
{
    if 0 <= i < pairs.len() {
        let rest = width_from(pairs, i + 2);
        if pairs[i].len() > rest {
            pairs[i].len()
        } else {
            rest
        }
    } else {
        0
    }
}

/// The field column width of a result: the widest field name in it.
pub open spec fn field_width(pairs: Seq<Seq<char>>) -> nat {
    width_from(pairs, 0)
}

/// One table row: the field name in quotes, padded with spaces to width
/// `w`, an arrow, then the value in quotes.
pub open spec fn row_line(field: Seq<char>, value: Seq<char>, w: nat) -> Seq<char>
    recommends
        field.len() <= w,
{
    "\""@ + field + "\""@ + spaces((w - field.len()) as nat) + " -> \""@ + value + "\""@
}

/// The value paired with field number `j`, or the empty sequence when the
/// final field of an odd-length result has no paired value.
pub open spec fn pair_value(pairs: Seq<Seq<char>>, j: int) -> Seq<char> {
    if 2 * j + 1 < pairs.len() {
        pairs[2 * j + 1]
    } else {
        Seq::empty()
    }
}

/// How many rows a result of `n` entries yields: one per pair, plus one
/// for a trailing unpaired field.
pub open spec fn row_count(n: nat) -> nat {
    (n + 1) / 2
}

/// The header line of a hash result.
pub open spec fn header_line(key: Seq<char>) -> Seq<char> {
    "HGETALL("@ + key + ")"@
}

/// Every line printed for a hash result: the header, then one aligned row
/// per field/value pair.
pub open spec fn hgetall_lines(pairs: Seq<Seq<char>>, key: Seq<char>) -> Seq<Seq<char>> {
    Seq::new(
        1 + row_count(pairs.len()),
        |i: int|
            if i == 0 {
                header_line(key)
            } else {
                row_line(pairs[2 * (i - 1)], pair_value(pairs, i - 1), field_width(pairs))
            },
    )
}

/// Every field name of a result is no wider than the column width measured
/// from index `i` on, for even offsets.
proof fn lemma_width_from_bound(pairs: Seq<Seq<char>>, i: int, j: int)
    requires
        0 <= i <= j < pairs.len(),
        (j - i) % 2 == 0,
    ensures
        pairs[j].len() <= width_from(pairs, i),
    decreases j - i,
{
    if i < j {
        lemma_width_from_bound(pairs, i + 2, j);
    }
}

/// Appends `n` spaces to `s`.
fn push_spaces(s: &mut String, n: usize)
    ensures
        final(s)@ == old(s)@ + spaces(n as nat),
{
    let mut k: usize = 0;
    proof {
        assert(s@ =~= old(s)@ + spaces(0));
    }
    while k < n
        invariant
            k <= n,
            s@ == old(s)@ + spaces(k as nat),
        decreases n - k,
    {
        s.append(" ");
        k = k + 1;
        proof {
            assert(s@ =~= old(s)@ + spaces(k as nat));
        }
    }
}

/// Renders the aligned table for a hash result: the header line first,
/// then one row per field/value pair, each field padded to the width of
/// the widest field name. A trailing field with no paired value — a
/// malformed odd-length result — is rendered with the empty value rather
/// than dropped.
pub fn format_hgetall(key: &str, pairs: &Vec<String>) -> (r: Vec<String>)
    ensures
        r.deep_view() == hgetall_lines(pairs.deep_view(), key@),
{
    let ghost pv = pairs.deep_view();
    // First pass: measure the widest field name (even indices).
    let mut w: usize = 0;
    let mut i: usize = 0;
    while i < pairs.len()
        invariant
            i <= pairs.len(),
            pv == pairs.deep_view(),
            field_width(pv) == if w as nat > width_from(pv, i as int) {
                w as nat
            } else {
                width_from(pv, i as int)
            },
        decreases pairs.len() - i,
    {
        let fl = pairs[i].as_str().unicode_len();
        proof {
            assert(pv[i as int] == pairs@[i as int]@);
            assert(width_from(pv, i as int) == (if pv[i as int].len() > width_from(
                pv,
                i as int + 2,
            ) {
                pv[i as int].len()
            } else {
                width_from(pv, i as int + 2)
            }));
            if pairs@.len() - i < 2 {
                assert(width_from(pv, i as int + 2) == 0);
                assert(width_from(pv, pv.len() as int) == 0);
            }
        }
        if fl > w {
            w = fl;
        }
        if pairs.len() - i >= 2 {
            i = i + 2;
        } else {
            i = pairs.len();
        }
    }
    assert(w as nat == field_width(pv));

    // Second pass: the header, then one aligned row per pair.
    let mut out: Vec<String> = Vec::new();
    let mut header = "HGETALL(".to_owned();
    header.append(key);
    header.append(")");
    proof {
        assert(header@ =~= header_line(key@));
    }
    out.push(header);
    let mut i: usize = 0;
    while i < pairs.len()
        invariant
            i <= pairs.len(),
            i % 2 == 0 || i == pairs.len(),
            pv == pairs.deep_view(),
            w as nat == field_width(pv),
            out@.len() == 1 + (i + 1) / 2,
            forall|m: int|
                0 <= m < out@.len() ==> out@[m]@ == hgetall_lines(pv, key@)[m],
        decreases pairs.len() - i,
    {
        let field = &pairs[i];
        let fl = field.as_str().unicode_len();
        proof {
            lemma_width_from_bound(pv, 0, i as int);
        }
        let mut line = "\"".to_owned();
        line.append(field.as_str());
        line.append("\"");
        push_spaces(&mut line, w - fl);
        line.append(" -> \"");
        if i + 1 < pairs.len() {
            line.append(pairs[i + 1].as_str());
        }
        line.append("\"");
        proof {
            let j = i as int / 2;
            if i + 1 < pairs.len() {
                assert(line@ =~= row_line(pv[i as int], pair_value(pv, j), w as nat));
            } else {
                assert(pair_value(pv, j) =~= Seq::<char>::empty());
                assert(line@ =~= row_line(pv[i as int], pair_value(pv, j), w as nat));
            }
            assert(hgetall_lines(pv, key@)[j + 1] == line@);
        }
        out.push(line);
        if pairs.len() - i >= 2 {
            i = i + 2;
        } else {
            i = pairs.len();
        }
    }
    proof {
        assert(out.deep_view() =~= hgetall_lines(pv, key@));
    }
    out
}

} // verus!
