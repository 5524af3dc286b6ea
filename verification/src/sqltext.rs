use vstd::prelude::*;
use vstd::string::StrSliceExecFns;

verus! {

/// Number of positional placeholders in `sql` starting from a scan state:
/// a `?` counts only outside a single-quoted text literal, and a quote
/// character toggles the literal state. (A doubled quote inside a literal
/// reads as leaving and re-entering the literal, which counts the same
/// placeholders.)
pub open spec fn placeholders_from(sql: Seq<char>, in_literal: bool) -> nat
    decreases sql.len(),
{
    if sql.len() == 0 {
        0
    } else {
        let rest = sql.drop_first();
        if in_literal {
            if sql.first() == '\'' {
                placeholders_from(rest, false)
            } else {
                placeholders_from(rest, true)
            }
        } else if sql.first() == '\'' {
            placeholders_from(rest, true)
        } else if sql.first() == '?' {
            1 + placeholders_from(rest, false)
        } else {
            placeholders_from(rest, false)
        }
    }
}

/// Number of positional placeholders (`?` outside single-quoted text
/// literals) in a statement.
pub open spec fn placeholder_count(sql: Seq<char>) -> nat {
    placeholders_from(sql, false)
}

/// Counts the positional placeholders of a statement.
pub fn count_placeholders(sql: &String) -> (n: usize)
    ensures
        n == placeholder_count(sql@),
{
    let s = sql.as_str();
    let len = s.unicode_len();
    let mut n: usize = 0;
    let mut in_literal = false;
    let mut i: usize = 0;
    proof {
        assert(sql@.subrange(0, sql@.len() as int) =~= sql@);
    }
    while i < len
        invariant
            i <= len,
            len == sql@.len(),
            s@ == sql@,
            n <= i,
            n + placeholders_from(sql@.subrange(i as int, len as int), in_literal)
                == placeholder_count(sql@),
        decreases len - i,
    {
        let c = s.get_char(i);
        proof {
            let tail = sql@.subrange(i as int, len as int);
            assert(tail.first() == c);
            assert(tail.drop_first() =~= sql@.subrange(i as int + 1, len as int));
        }
        if in_literal {
            if c == '\'' {
                in_literal = false;
            }
        } else if c == '\'' {
            in_literal = true;
        } else if c == '?' {
            n = n + 1;
        }
        i = i + 1;
    }
    proof {
        assert(sql@.subrange(len as int, len as int) =~= Seq::<char>::empty());
    }
    n
}

} // verus!
