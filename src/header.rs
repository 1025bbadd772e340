//! Title-header extraction: a first line underlined by a run of dashes is taken
//! out of the document and becomes the title shown in the first page's margin.
use vstd::prelude::*;
use vstd::string::*;
use crate::text::{chars_of, string_of, trim, trim_bounds};

verus! {

/// `l` without one trailing carriage return.
pub open spec fn strip_cr(l: Seq<char>) -> Seq<char> {
    if l.len() > 0 && l.last() == '\r' {
        l.drop_last()
    } else {
        l
    }
}

/// The unfinished line after reading `p`: the characters since the last newline.
pub open spec fn pending_line(p: Seq<char>) -> Seq<char>
    decreases p.len(),
{
    if p.len() == 0 || p.last() == '\n' {
        Seq::empty()
    } else {
        pending_line(p.drop_last()).push(p.last())
    }
}

/// The lines finished after reading `p`: one per newline, each without its
/// newline and without a carriage return just before it.
pub open spec fn finished_lines(p: Seq<char>) -> Seq<Seq<char>>
    decreases p.len(),
{
    if p.len() == 0 {
        Seq::empty()
    } else if p.last() == '\n' {
        finished_lines(p.drop_last()).push(strip_cr(pending_line(p.drop_last())))
    } else {
        finished_lines(p.drop_last())
    }
}

/// The lines of `s`, as `str::lines` yields them: split at each newline, a
/// carriage return before a newline dropped, and no empty line after a final
/// newline.
pub open spec fn lines_of(s: Seq<char>) -> Seq<Seq<char>> {
    if pending_line(s).len() == 0 {
        finished_lines(s)
    } else {
        finished_lines(s).push(pending_line(s))
    }
}

/// The lines `ls` joined with a newline between each two.
pub open spec fn join_lines(ls: Seq<Seq<char>>) -> Seq<char>
    decreases ls.len(),
{
    if ls.len() == 0 {
        Seq::empty()
    } else if ls.len() == 1 {
        ls[0]
    } else {
        join_lines(ls.drop_last()) + seq!['\n'] + ls.last()
    }
}

/// `l`, once trimmed, is a run of at least three dashes.
pub open spec fn is_underline(l: Seq<char>) -> bool {
    let t = trim(l);
    t.len() >= 3 && forall|k: int| 0 <= k < t.len() ==> t[k] == '-'
}

/// The header and body of `md`: where its second line is a dash underline, the
/// trimmed first line and the lines from the third on; otherwise no header and
/// `md` unchanged.
pub open spec fn split_header(md: Seq<char>) -> (Seq<char>, Seq<char>) {
    let ls = lines_of(md);
    if ls.len() >= 2 && is_underline(ls[1]) {
        (trim(ls[0]), join_lines(ls.subrange(2, ls.len() as int)))
    } else {
        (Seq::empty(), md)
    }
}

/// The views of `v`.
pub open spec fn views(v: Seq<String>) -> Seq<Seq<char>> {
    v.map_values(|l: String| l@)
}

/// The lines of `text`.
pub fn split_lines(text: &str) -> (r: Vec<String>)
    ensures
        views(r@) == lines_of(text@),
{
    let chars = chars_of(text);
    let n = chars.len();
    let mut lines: Vec<String> = Vec::new();
    let mut start: usize = 0;
    let mut i: usize = 0;
    while i < n
        invariant
            n == chars@.len(),
            chars@ == text@,
            start <= i <= n,
            pending_line(chars@.take(i as int)) == chars@.subrange(start as int, i as int),
            views(lines@) == finished_lines(chars@.take(i as int)),
        decreases n - i,
    {
        let ghost p = chars@.take(i as int);
        assert(chars@.take(i + 1).drop_last() =~= p);
        if chars[i] == '\n' {
            let end = if i > start && chars[i - 1] == '\r' {
                i - 1
            } else {
                i
            };
            let line = string_of(&chars, start, end);
            assert(line@ =~= strip_cr(pending_line(p)));
            lines.push(line);
            assert(views(lines@) =~= finished_lines(chars@.take(i + 1)));
            start = i + 1;
            assert(pending_line(chars@.take(i + 1)) =~= chars@.subrange(start as int, i + 1));
        } else {
            assert(pending_line(chars@.take(i + 1)) =~= chars@.subrange(start as int, i + 1));
        }
        i = i + 1;
    }
    assert(chars@.take(n as int) =~= text@);
    if start < n {
        let line = string_of(&chars, start, n);
        lines.push(line);
        assert(views(lines@) =~= lines_of(text@));
    }
    lines
}

/// `ls[from..]` joined with newlines.
pub fn join_from(ls: &Vec<String>, from: usize) -> (r: String)
    requires
        from <= ls@.len(),
    ensures
        r@ == join_lines(views(ls@).subrange(from as int, ls@.len() as int)),
{
    let n = ls.len();
    let mut out = String::new();
    let mut i = from;
    while i < n
        invariant
            n == ls@.len(),
            from <= i <= n,
            out@ == join_lines(views(ls@).subrange(from as int, i as int)),
        decreases n - i,
    {
        let ghost before = views(ls@).subrange(from as int, i as int);
        let ghost after = views(ls@).subrange(from as int, i + 1);
        assert(after.drop_last() =~= before);
        if i > from {
            out.append("\n");
            proof {
                reveal_strlit("\n");
            }
            out.append(ls[i].as_str());
            assert(out@ =~= join_lines(after));
        } else {
            out.append(ls[i].as_str());
            assert(out@ =~= join_lines(after));
        }
        i = i + 1;
    }
    out
}

/// Whether `chars[from..to]` is a run of at least three dashes.
fn is_dash_run(chars: &Vec<char>, from: usize, to: usize) -> (r: bool)
    requires
        from <= to <= chars@.len(),
    ensures
        r == (to - from >= 3 && forall|k: int| from <= k < to ==> chars@[k] == '-'),
{
    if to - from < 3 {
        return false;
    }
    let mut i = from;
    while i < to
        invariant
            from <= i <= to <= chars@.len(),
            forall|k: int| from <= k < i ==> chars@[k] == '-',
        decreases to - i,
    {
        if chars[i] != '-' {
            return false;
        }
        i = i + 1;
    }
    true
}

/// Whether `line`, once trimmed, is a run of at least three dashes.
pub fn is_underline_line(line: &str) -> (r: bool)
    ensures
        r == is_underline(line@),
{
    let chars = chars_of(line);
    let (a, b) = trim_bounds(&chars, 0, chars.len());
    assert(chars@.subrange(0, chars@.len() as int) =~= line@);
    let r = is_dash_run(&chars, a, b);
    let ghost t = chars@.subrange(a as int, b as int);
    assert(r == (t.len() >= 3 && forall|k: int| 0 <= k < t.len() ==> t[k] == '-')) by {
        if t.len() >= 3 && !r {
            let k = choose|k: int| a <= k < b && chars@[k] != '-';
            assert(t[k - a] != '-');
        }
    }
    r
}

/// Splits a title header off `markdown`: where the second line is a dash
/// underline, returns the trimmed first line and the lines from the third on
/// joined with newlines; otherwise an empty header and `markdown` unchanged.
pub fn extract_header(markdown: &str) -> (r: (String, String))
    ensures
        (r.0@, r.1@) == split_header(markdown@),
{
    let lines = split_lines(markdown);
    if lines.len() >= 2 && is_underline_line(lines[1].as_str()) {
        let header = crate::text::trim_str(lines[0].as_str());
        let body = join_from(&lines, 2);
        return (header, body);
    }
    (String::new(), String::from_str(markdown))
}

} // verus!
