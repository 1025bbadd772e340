//! Path and URL rules: the file URL handed to the rendering engine, and the
//! sibling paths derived from the source file's path.
use vstd::prelude::*;
use vstd::string::*;
use crate::text::{chars_of, push_char, string_of};

verus! {

/// The marker that opens an extended-length path: a backslash, a backslash, a
/// question mark and a backslash.
pub open spec fn verbatim_marker() -> Seq<char> {
    seq!['\\', '\\', '?', '\\']
}

/// `p` without a leading extended-length marker.
pub open spec fn strip_verbatim(p: Seq<char>) -> Seq<char> {
    if p.len() >= 4 && p.take(4) == verbatim_marker() {
        p.skip(4)
    } else {
        p
    }
}

/// `p` with every backslash turned into a forward slash.
pub open spec fn forward_slashes(p: Seq<char>) -> Seq<char> {
    p.map_values(|c: char| if c == '\\' { '/' } else { c })
}

/// The `file` URL of the absolute path `p`: the marker stripped, separators
/// turned into forward slashes, and the result placed after `file://` with
/// exactly one slash opening the URL's path.
pub open spec fn file_url(p: Seq<char>) -> Seq<char> {
    let q = forward_slashes(strip_verbatim(p));
    if q.len() > 0 && q[0] == '/' {
        seq!['f', 'i', 'l', 'e', ':', '/', '/'] + q
    } else {
        seq!['f', 'i', 'l', 'e', ':', '/', '/', '/'] + q
    }
}

/// A path separator: a slash or a backslash.
pub open spec fn is_separator(c: char) -> bool {
    c == '/' || c == '\\'
}

/// The index just past the last separator of `p`, or 0 where it has none: the
/// index where the file name starts.
pub open spec fn name_start(p: Seq<char>) -> int
    decreases p.len(),
{
    if p.len() == 0 {
        0
    } else if is_separator(p.last()) {
        p.len() as int
    } else {
        name_start(p.drop_last())
    }
}

/// The file name of `p`: what follows its last separator.
pub open spec fn file_name_of(p: Seq<char>) -> Seq<char> {
    p.skip(name_start(p))
}

/// The index of the last dot in `s`, or -1 where it has none.
pub open spec fn last_dot(s: Seq<char>) -> int
    decreases s.len(),
{
    if s.len() == 0 {
        -1
    } else if s.last() == '.' {
        s.len() - 1
    } else {
        last_dot(s.drop_last())
    }
}

/// The length of the stem of the file name `name`: up to its last dot, unless
/// that dot opens the name or there is none, in which case the whole name.
pub open spec fn stem_len(name: Seq<char>) -> int {
    if last_dot(name) > 0 {
        last_dot(name)
    } else {
        name.len() as int
    }
}

/// `p` with the extension of its file name replaced by `ext`, in the same
/// directory. A path whose file name is empty, `.` or `..` is left unchanged.
pub open spec fn with_extension(p: Seq<char>, ext: Seq<char>) -> Seq<char> {
    let name = file_name_of(p);
    if name.len() == 0 || name == seq!['.'] || name == seq!['.', '.'] {
        p
    } else {
        let kept = p.take(name_start(p) + stem_len(name));
        if ext.len() == 0 {
            kept
        } else {
            kept + seq!['.'] + ext
        }
    }
}

/// A file URL holds no backslash, so no extended-length marker survives in it;
/// it opens with `file://`; and a path carrying the marker has the same URL as
/// the path without it (where that path does not itself open with the marker).
pub proof fn lemma_file_url_clean(p: Seq<char>)
    ensures
        forall|i: int| 0 <= i < file_url(p).len() ==> file_url(p)[i] != '\\',
        file_url(p).take(7) == seq!['f', 'i', 'l', 'e', ':', '/', '/'],
        strip_verbatim(p) == p ==> file_url(verbatim_marker() + p) == file_url(p),
{
    let m = verbatim_marker() + p;
    assert(m.take(4) =~= verbatim_marker());
    assert(m.skip(4) =~= p);
    assert(file_url(p).take(7) =~= seq!['f', 'i', 'l', 'e', ':', '/', '/']);
}

/// The file name starts within `p`.
proof fn lemma_name_start_bounds(p: Seq<char>)
    ensures
        0 <= name_start(p) <= p.len(),
    decreases p.len(),
{
    if p.len() > 0 {
        lemma_name_start_bounds(p.drop_last());
    }
}

/// The last dot of `s`, where there is one, is an index of `s`.
proof fn lemma_last_dot_bounds(s: Seq<char>)
    ensures
        -1 <= last_dot(s) < s.len(),
    decreases s.len(),
{
    if s.len() > 0 {
        lemma_last_dot_bounds(s.drop_last());
    }
}

/// The index just past the last separator in `chars[..to]`, or 0.
fn find_name_start(chars: &Vec<char>, to: usize) -> (r: usize)
    requires
        to <= chars@.len(),
    ensures
        r as int == name_start(chars@.take(to as int)),
        r <= to,
{
    let mut j = to;
    while j > 0 && !(chars[j - 1] == '/' || chars[j - 1] == '\\')
        invariant
            j <= to <= chars@.len(),
            name_start(chars@.take(to as int)) == name_start(chars@.take(j as int)),
        decreases j,
    {
        assert(chars@.take(j as int).drop_last() =~= chars@.take(j - 1));
        j = j - 1;
    }
    proof {
        lemma_name_start_bounds(chars@.take(to as int));
    }
    j
}

/// The index of the last dot in `chars[from..to]`, relative to `from`, or -1.
fn find_last_dot(chars: &Vec<char>, from: usize, to: usize) -> (r: Option<usize>)
    requires
        from <= to <= chars@.len(),
    ensures
        match r {
            Some(k) => k as int == last_dot(chars@.subrange(from as int, to as int)),
            None => last_dot(chars@.subrange(from as int, to as int)) == -1,
        },
{
    let mut j = to;
    while j > from && chars[j - 1] != '.'
        invariant
            from <= j <= to <= chars@.len(),
            last_dot(chars@.subrange(from as int, to as int)) == last_dot(
                chars@.subrange(from as int, j as int),
            ),
        decreases j,
    {
        assert(chars@.subrange(from as int, j as int).drop_last() =~= chars@.subrange(
            from as int,
            j - 1,
        ));
        j = j - 1;
    }
    if j > from {
        Some(j - 1 - from)
    } else {
        None
    }
}

/// The file name of `path`: what follows its last separator.
pub fn file_name(path: &str) -> (r: String)
    ensures
        r@ == file_name_of(path@),
{
    let chars = chars_of(path);
    let n = chars.len();
    assert(chars@.take(n as int) =~= path@);
    let s = find_name_start(&chars, n);
    string_of(&chars, s, n)
}

/// `path` with the extension of its file name replaced by `ext`.
pub fn replace_extension(path: &str, ext: &str) -> (r: String)
    ensures
        r@ == with_extension(path@, ext@),
{
    let chars = chars_of(path);
    let n = chars.len();
    assert(chars@.take(n as int) =~= path@);
    let s = find_name_start(&chars, n);
    let ghost name = path@.skip(s as int);
    assert(chars@.subrange(s as int, n as int) =~= name);
    let name_len = n - s;
    let is_dot = name_len == 1 && chars[s] == '.';
    let is_dot_dot = name_len == 2 && chars[s] == '.' && chars[s + 1] == '.';
    assert(is_dot == (name == seq!['.'])) by {
        if name == seq!['.'] {
            assert(name[0] == '.');
        }
        if is_dot {
            assert(name =~= seq!['.']);
        }
    }
    assert(is_dot_dot == (name == seq!['.', '.'])) by {
        if name == seq!['.', '.'] {
            assert(name[0] == '.' && name[1] == '.');
        }
        if is_dot_dot {
            assert(name =~= seq!['.', '.']);
        }
    }
    if name_len == 0 || is_dot || is_dot_dot {
        return String::from_str(path);
    }
    let d = find_last_dot(&chars, s, n);
    proof {
        lemma_last_dot_bounds(name);
    }
    let stem: usize = match d {
        Some(k) if k > 0 => k,
        _ => name_len,
    };
    let mut out = string_of(&chars, 0, s + stem);
    assert(chars@.subrange(0, s + stem) =~= path@.take(s + stem));
    if ext.unicode_len() > 0 {
        proof {
            reveal_strlit(".");
        }
        out.append(".");
        out.append(ext);
    }
    out
}

/// The PDF written for the source file `source`: the same path with the `pdf`
/// extension.
pub fn derive_output_path(source: &str) -> (r: String)
    ensures
        r@ == with_extension(source@, "pdf"@),
{
    replace_extension(source, "pdf")
}

/// The temporary HTML artifact for the source file `source`: the same path with
/// the `temp.html` extension.
pub fn temp_artifact_path(source: &str) -> (r: String)
    ensures
        r@ == with_extension(source@, "temp.html"@),
{
    replace_extension(source, "temp.html")
}

/// The `file` URL of the absolute path `path`, for the rendering engine.
pub fn to_file_url(path: &str) -> (r: String)
    ensures
        r@ == file_url(path@),
{
    let chars = chars_of(path);
    let n = chars.len();
    let marked = n >= 4 && chars[0] == '\\' && chars[1] == '\\' && chars[2] == '?' && chars[3]
        == '\\';
    assert(marked == (path@.len() >= 4 && path@.take(4) == verbatim_marker())) by {
        if path@.len() >= 4 && path@.take(4) == verbatim_marker() {
            assert(path@.take(4)[0] == '\\' && path@.take(4)[1] == '\\');
            assert(path@.take(4)[2] == '?' && path@.take(4)[3] == '\\');
        }
        if marked {
            assert(path@.take(4) =~= verbatim_marker());
        }
    }
    let start: usize = if marked {
        4
    } else {
        0
    };
    let ghost q = forward_slashes(strip_verbatim(path@));
    assert(strip_verbatim(path@) =~= chars@.subrange(start as int, n as int));
    let rooted = start < n && (chars[start] == '/' || chars[start] == '\\');
    let mut out = if rooted {
        String::from_str("file://")
    } else {
        String::from_str("file:///")
    };
    proof {
        reveal_strlit("file://");
        reveal_strlit("file:///");
    }
    let ghost head = out@;
    let mut i = start;
    while i < n
        invariant
            start <= i <= n == chars@.len(),
            out@ == head + forward_slashes(chars@.subrange(start as int, i as int)),
        decreases n - i,
    {
        let c = chars[i];
        push_char(&mut out, if c == '\\' { '/' } else { c });
        assert(forward_slashes(chars@.subrange(start as int, i + 1)) =~= forward_slashes(
            chars@.subrange(start as int, i as int),
        ).push(if c == '\\' { '/' } else { c }));
        i = i + 1;
    }
    assert(rooted == (q.len() > 0 && q[0] == '/'));
    assert(head =~= if rooted {
        seq!['f', 'i', 'l', 'e', ':', '/', '/']
    } else {
        seq!['f', 'i', 'l', 'e', ':', '/', '/', '/']
    });
    out
}

} // verus!
