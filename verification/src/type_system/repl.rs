use vstd::prelude::*;

verus! {

/// A line without the line break at its end: without a final `\n`, and
/// without the `\r` before that `\n`.
pub open spec fn without_newline(s: Seq<char>) -> Seq<char> {
    if s.len() > 0 && s.last() == '\n' {
        let cut = s.drop_last();
        if cut.len() > 0 && cut.last() == '\r' {
            cut.drop_last()
        } else {
            cut
        }
    } else {
        s
    }
}

/// The line without the line break at its end.
pub fn trim_newline<'a>(line: &'a str) -> (trimmed: &'a str)
    ensures
        trimmed@ == without_newline(line@),
{
    let n = line.unicode_len();
    proof {
        assert(line@.subrange(0, n as int) =~= line@);
    }
    if n > 0 && line.get_char(n - 1) == '\n' {
        proof {
            assert(line@.drop_last() =~= line@.subrange(0, n - 1));
        }
        if n > 1 && line.get_char(n - 2) == '\r' {
            proof {
                assert(line@.subrange(0, n - 1).drop_last() =~= line@.subrange(0, n - 2));
            }
            line.substring_char(0, n - 2)
        } else {
            line.substring_char(0, n - 1)
        }
    } else {
        line
    }
}

} // verus!
