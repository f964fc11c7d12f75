//! Parsing the self-listing output of a test binary.
//!
//! The listing protocol: the binary, invoked in list mode, prints one line
//! per test of the form `NAME: test`. Empty lines are allowed and carry
//! nothing; any other line is a parse failure. Names are the line with the
//! `: test` suffix removed, and must be nonempty.

use vstd::prelude::*;

verus! {

/// The fixed suffix that every test line carries.
pub open spec fn list_suffix() -> Seq<char> {
    seq![':', ' ', 't', 'e', 's', 't']
}

/// Parse one nonempty line: the name before the `: test` suffix, or None
/// when the suffix is missing or the name would be empty.
pub open spec fn spec_parse_line(l: Seq<char>) -> Option<Seq<char>> {
    if l.len() > 6 && l.subrange(l.len() - 6, l.len() as int) == list_suffix() {
        Some(l.subrange(0, l.len() - 6))
    } else {
        None
    }
}

/// Parse a whole listing, character by character: `cur` is the line being
/// read, `acc` the names already parsed. A newline closes the current line
/// (an empty one is skipped); the final line needs no trailing newline.
pub open spec fn spec_parse_lines(s: Seq<char>, cur: Seq<char>, acc: Seq<Seq<char>>) -> Option<
    Seq<Seq<char>>,
>
    decreases s.len(),
{
    if s.len() == 0 {
        if cur.len() == 0 {
            Some(acc)
        } else {
            match spec_parse_line(cur) {
                Some(nm) => Some(acc.push(nm)),
                None => None,
            }
        }
    } else if s[0] == '\n' {
        if cur.len() == 0 {
            spec_parse_lines(s.skip(1), Seq::empty(), acc)
        } else {
            match spec_parse_line(cur) {
                Some(nm) => spec_parse_lines(s.skip(1), Seq::empty(), acc.push(nm)),
                None => None,
            }
        }
    } else {
        spec_parse_lines(s.skip(1), cur.push(s[0]), acc)
    }
}

/// The test names declared by a listing, in declaration order, or None when
/// the listing does not follow the protocol.
pub open spec fn spec_parse_list(s: Seq<char>) -> Option<Seq<Seq<char>>> {
    spec_parse_lines(s, Seq::empty(), Seq::empty())
}

/// Close the line `out[line_start..end)`: when it follows the protocol,
/// push its test name onto `names` and succeed, otherwise change nothing
/// and fail.
fn close_line(out: &str, line_start: usize, end: usize, names: &mut Vec<String>) -> (ok: bool)
    requires
        line_start < end <= out@.len(),
    ensures
        ({
            let l = out@.subrange(line_start as int, end as int);
            &&& ok ==> spec_parse_line(l) == Some(l.subrange(0, l.len() - 6)) && final(
                names).deep_view() == old(names).deep_view().push(l.subrange(0, l.len() - 6))
            &&& !ok ==> spec_parse_line(l) is None && final(names).deep_view() == old(
                names).deep_view()
        }),
{
    let ghost l = out@.subrange(line_start as int, end as int);
    let llen = end - line_start;
    if llen <= 6 {
        return false;
    }
    proof {
        assert(l[llen - 6] == out@[end - 6]);
        assert(l[llen - 5] == out@[end - 5]);
        assert(l[llen - 4] == out@[end - 4]);
        assert(l[llen - 3] == out@[end - 3]);
        assert(l[llen - 2] == out@[end - 2]);
        assert(l[llen - 1] == out@[end - 1]);
    }
    let suffix_ok = out.get_char(end - 6) == ':' && out.get_char(end - 5) == ' ' && out.get_char(
        end - 4) == 't' && out.get_char(end - 3) == 'e' && out.get_char(end - 2) == 's'
        && out.get_char(end - 1) == 't';
    if !suffix_ok {
        proof {
            if spec_parse_line(l) is Some {
                assert(l.subrange(llen - 6, llen as int) == list_suffix());
                assert(l.subrange(llen - 6, llen as int)[0] == l[llen - 6]);
                assert(l.subrange(llen - 6, llen as int)[1] == l[llen - 5]);
                assert(l.subrange(llen - 6, llen as int)[2] == l[llen - 4]);
                assert(l.subrange(llen - 6, llen as int)[3] == l[llen - 3]);
                assert(l.subrange(llen - 6, llen as int)[4] == l[llen - 2]);
                assert(l.subrange(llen - 6, llen as int)[5] == l[llen - 1]);
            }
        }
        return false;
    }
    proof {
        assert(l.subrange(llen - 6, llen as int) =~= list_suffix());
        assert(l.subrange(0, llen - 6) =~= out@.subrange(line_start as int, end - 6));
    }
    let name = out.substring_char(line_start, end - 6).to_owned();
    let ghost old_dv = names.deep_view();
    let ghost nm = name@;
    names.push(name);
    proof {
        assert(names.deep_view() =~= old_dv.push(nm));
    }
    true
}

/// Parse a whole listing into its test names, in declaration order.
/// Succeeds exactly when the listing follows the protocol.
pub fn parse_test_list(out: &str) -> (r: Option<Vec<String>>)
    ensures
        r matches Some(names) ==> spec_parse_list(out@) == Some(names.deep_view()),
        r is None ==> spec_parse_list(out@) is None,
{
    let n = out.unicode_len();
    let mut names: Vec<String> = Vec::new();
    let mut line_start: usize = 0;
    let mut i: usize = 0;
    proof {
        assert(out@.skip(0) =~= out@);
        assert(out@.subrange(0, 0) =~= Seq::<char>::empty());
        assert(names.deep_view() =~= Seq::<Seq<char>>::empty());
    }
    while i < n
        invariant
            n == out@.len(),
            line_start <= i <= n,
            spec_parse_list(out@) == spec_parse_lines(out@.skip(i as int), out@.subrange(
                line_start as int, i as int), names.deep_view()),
        decreases n - i,
    {
        let ghost rest = out@.skip(i as int);
        let ghost cur = out@.subrange(line_start as int, i as int);
        proof {
            assert(rest[0] == out@[i as int]);
            assert(rest.skip(1) =~= out@.skip(i + 1));
        }
        let c = out.get_char(i);
        if c == '\n' {
            if i == line_start {
                proof {
                    assert(cur =~= Seq::<char>::empty());
                    assert(out@.subrange(i + 1, i + 1) =~= Seq::<char>::empty());
                }
            } else {
                let ok = close_line(out, line_start, i, &mut names);
                if !ok {
                    return None;
                }
                proof {
                    assert(out@.subrange(i + 1, i + 1) =~= Seq::<char>::empty());
                }
            }
            line_start = i + 1;
        } else {
            proof {
                assert(cur.push(out@[i as int]) =~= out@.subrange(line_start as int, i + 1));
            }
        }
        i = i + 1;
    }
    proof {
        assert(out@.skip(n as int) =~= Seq::<char>::empty());
    }
    if line_start < n {
        let ghost cur = out@.subrange(line_start as int, n as int);
        let ok = close_line(out, line_start, n, &mut names);
        if !ok {
            return None;
        }
    } else {
        proof {
            assert(out@.subrange(line_start as int, n as int) =~= Seq::<char>::empty());
        }
    }
    Some(names)
}

} // verus!
