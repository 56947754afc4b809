//! Vulnerability scan over a line-oriented listing.
//!
//! The listing text is split into lines at `'\n'` (a trailing `'\r'` belongs
//! to the line break, not the line); a location counts as weak when its line
//! ends with the literal marker `"weak"`. A listing that could not be read at
//! all yields an unknown outcome rather than an error.

use vstd::prelude::*;
use vstd::string::*;

verus! {

/// Whether `line` ends with the marker "weak".
pub open spec fn ends_with_weak(line: Seq<char>) -> bool {
    &&& line.len() >= 4
    &&& line[line.len() - 4] == 'w'
    &&& line[line.len() - 3] == 'e'
    &&& line[line.len() - 2] == 'a'
    &&& line[line.len() - 1] == 'k'
}

/// Number of characters of `s` before its first line break.
pub open spec fn line_len(s: Seq<char>) -> int
    decreases s.len(),
{
    if s.len() == 0 || s[0] == '\n' {
        0
    } else {
        1 + line_len(s.drop_first())
    }
}

pub proof fn lemma_line_len_bounds(s: Seq<char>)
    ensures
        0 <= line_len(s) <= s.len(),
    decreases s.len(),
{
    if s.len() > 0 && s[0] != '\n' {
        lemma_line_len_bounds(s.drop_first());
    }
}

/// A trailing carriage return is part of the line break, not of the line.
pub open spec fn strip_carriage(line: Seq<char>) -> Seq<char> {
    if line.len() > 0 && line.last() == '\r' {
        line.drop_last()
    } else {
        line
    }
}

/// The lines of `s`: separated at `'\n'`, each stripped of a trailing
/// `'\r'`; empty content has no lines, and a final line break does not
/// open an empty last line.
pub open spec fn split_lines(s: Seq<char>) -> Seq<Seq<char>>
    decreases s.len(),
    via split_lines_decreases
{
    if s.len() == 0 {
        seq![]
    } else if line_len(s) == s.len() {
        seq![strip_carriage(s)]
    } else {
        seq![strip_carriage(s.take(line_len(s)))] + split_lines(s.skip(line_len(s) + 1))
    }
}

#[via_fn]
proof fn split_lines_decreases(s: Seq<char>) {
    lemma_line_len_bounds(s);
}

/// Whether some line of `content` ends with the marker "weak".
pub open spec fn has_weak_line(content: Seq<char>) -> bool {
    exists|i: int|
        0 <= i < split_lines(content).len() && ends_with_weak(split_lines(content)[i])
}

fn first_line_len(s: &str) -> (l: usize)
    ensures
        l == line_len(s@),
    decreases s@.len(),
{
    let n = s.unicode_len();
    if n == 0 {
        0
    } else if s.get_char(0) == '\n' {
        0
    } else {
        let rest = s.substring_char(1, n);
        proof {
            assert(rest@ =~= s@.drop_first());
            lemma_line_len_bounds(s@.drop_first());
        }
        1 + first_line_len(rest)
    }
}

fn strip_carriage_exec(line: &str) -> (r: String)
    ensures
        r@ == strip_carriage(line@),
{
    let n = line.unicode_len();
    if n > 0 && line.get_char(n - 1) == '\r' {
        let r = line.substring_char(0, n - 1).to_owned();
        proof {
            assert(r@ =~= line@.drop_last());
        }
        r
    } else {
        line.to_owned()
    }
}

/// Splits the listing text into its lines, in order.
pub fn lines_of(content: &str) -> (v: Vec<String>)
    ensures
        v@.len() == split_lines(content@).len(),
        forall|i: int| 0 <= i < v@.len() ==> v@[i]@ == split_lines(content@)[i],
    decreases content@.len(),
{
    let n = content.unicode_len();
    if n == 0 {
        Vec::new()
    } else {
        let l = first_line_len(content);
        proof {
            lemma_line_len_bounds(content@);
        }
        if l == n {
            let line = strip_carriage_exec(content);
            let mut v = Vec::new();
            v.push(line);
            v
        } else {
            let head = content.substring_char(0, l);
            let line = strip_carriage_exec(head);
            let rest = content.substring_char(l + 1, n);
            let mut v = lines_of(rest);
            proof {
                assert(head@ =~= content@.take(line_len(content@)));
                assert(rest@ =~= content@.skip(line_len(content@) + 1));
            }
            let ghost pre = v@;
            v.insert(0, line);
            proof {
                let all = split_lines(content@);
                let rec = split_lines(rest@);
                assert(all == seq![strip_carriage(content@.take(line_len(content@)))] + rec);
                assert(v@ == pre.insert(0, line));
                assert forall|i: int| 0 <= i < v@.len() implies v@[i]@ == all[i] by {
                    if i == 0 {
                        assert(v@[0] == line);
                    } else {
                        assert(v@[i] == pre[i - 1]);
                        assert(all[i] == rec[i - 1]);
                    }
                }
            }
            v
        }
    }
}

/// Whether `line` ends with the marker "weak".
pub fn line_is_weak(line: &str) -> (b: bool)
    ensures
        b == ends_with_weak(line@),
{
    let n = line.unicode_len();
    if n < 4 {
        false
    } else {
        line.get_char(n - 4) == 'w' && line.get_char(n - 3) == 'e' && line.get_char(n - 2) == 'a'
            && line.get_char(n - 1) == 'k'
    }
}

/// Scans the listing text for a line that ends with "weak", stopping at the
/// first match.
pub fn scan_listing(content: &str) -> (b: bool)
    ensures
        b == has_weak_line(content@),
{
    let lines = lines_of(content);
    let mut j: usize = 0;
    while j < lines.len()
        invariant
            j <= lines@.len(),
            lines@.len() == split_lines(content@).len(),
            forall|i: int| 0 <= i < lines@.len() ==> lines@[i]@ == split_lines(content@)[i],
            forall|i: int| 0 <= i < j ==> !ends_with_weak(split_lines(content@)[i]),
        decreases lines@.len() - j,
    {
        if line_is_weak(lines[j].as_str()) {
            proof {
                assert(ends_with_weak(split_lines(content@)[j as int]));
            }
            return true;
        }
        j += 1;
    }
    false
}

/// The scan outcome for a listing that was read in full (`Some`) or could
/// not be read at all (`None`): unknown stays unknown, and otherwise the
/// report says whether some line ends with "weak".
pub fn weak_location_report(content: Option<&str>) -> (r: Option<bool>)
    ensures
        content is None ==> r is None,
        content matches Some(c) ==> (r matches Some(b) && b == has_weak_line(c@)),
{
    match content {
        None => None,
        Some(c) => Some(scan_listing(c)),
    }
}

} // verus!
