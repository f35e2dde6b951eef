//! Character-level helpers over strings: searching for a character, the stem
//! of a file name, and the extension that a URL's path ends in.

use vstd::prelude::*;
use vstd::string::*;

verus! {

/// The least index `i >= from` with `s[i] == c`, or `s.len()` when there is none.
pub open spec fn first_index_from(s: Seq<char>, c: char, from: int) -> int
    decreases s.len() - from,
{
    if from >= s.len() {
        s.len() as int
    } else if 0 <= from && s[from] == c {
        from
    } else {
        first_index_from(s, c, from + 1)
    }
}

/// The greatest index `i < end` with `s[i] == c`, or `-1` when there is none.
pub open spec fn last_index_before(s: Seq<char>, c: char, end: int) -> int
    decreases end,
{
    if end <= 0 {
        -1
    } else if end <= s.len() && s[end - 1] == c {
        end - 1
    } else {
        last_index_before(s, c, end - 1)
    }
}

/// `first_index_from` finds an occurrence of `c`, and nothing before it is `c`.
pub proof fn lemma_first_index_from(s: Seq<char>, c: char, from: int)
    requires
        0 <= from <= s.len(),
    ensures
        from <= first_index_from(s, c, from) <= s.len(),
        first_index_from(s, c, from) < s.len() ==> s[first_index_from(s, c, from)] == c,
        forall|j: int| from <= j < first_index_from(s, c, from) ==> s[j] != c,
    decreases s.len() - from,
{
    if from < s.len() && s[from] != c {
        lemma_first_index_from(s, c, from + 1);
    }
}

/// `last_index_before` finds an occurrence of `c`, and nothing after it, up to
/// `end`, is `c`.
pub proof fn lemma_last_index_before(s: Seq<char>, c: char, end: int)
    requires
        0 <= end <= s.len(),
    ensures
        -1 <= last_index_before(s, c, end) < end,
        last_index_before(s, c, end) >= 0 ==> s[last_index_before(s, c, end)] == c,
        forall|j: int| last_index_before(s, c, end) < j < end ==> s[j] != c,
    decreases end,
{
    if end > 0 && s[end - 1] != c {
        lemma_last_index_before(s, c, end - 1);
    }
}

/// An index `i < end` that holds `c`, with no `c` between it and `end`, is the
/// one that `last_index_before` finds.
pub proof fn lemma_last_index_is(s: Seq<char>, c: char, end: int, i: int)
    requires
        0 <= i < end <= s.len(),
        s[i] == c,
        forall|j: int| i < j < end ==> s[j] != c,
    ensures
        last_index_before(s, c, end) == i,
    decreases end,
{
    if end - 1 > i {
        lemma_last_index_is(s, c, end - 1, i);
    }
}

/// The characters of `s`, in order.
pub fn chars_of(s: &str) -> (out: Vec<char>)
    ensures
        out@ == s@,
{
    broadcast use vstd::string::group_string_axioms;

    let mut out: Vec<char> = Vec::new();
    for c in it: s.chars()
        invariant
            it.seq() == s@,
            out@ == it.seq().take(it.index()),
    {
        out.push(c);
    }
    out
}

/// Whether two string slices hold the same characters.
pub fn same_text(a: &str, b: &str) -> (r: bool)
    ensures
        r == (a@ == b@),
{
    let x: String = a.to_owned();
    let y: String = b.to_owned();
    x == y
}

/// Searches `s` forward from `from` for `c`.
pub fn find_from(s: &Vec<char>, c: char, from: usize) -> (r: usize)
    requires
        from <= s.len(),
    ensures
        r == first_index_from(s@, c, from as int),
{
    let mut i: usize = from;
    while i < s.len()
        invariant
            from <= i <= s.len(),
            first_index_from(s@, c, from as int) == first_index_from(s@, c, i as int),
        decreases s.len() - i,
    {
        if s[i] == c {
            return i;
        }
        i = i + 1;
    }
    i
}

/// Searches `s` backward from just before `end` for `c`.
pub fn rfind_before(s: &Vec<char>, c: char, end: usize) -> (r: Option<usize>)
    requires
        end <= s.len(),
    ensures
        match r {
            Some(i) => i == last_index_before(s@, c, end as int),
            None => last_index_before(s@, c, end as int) == -1,
        },
{
    let mut i: usize = end;
    while i > 0
        invariant
            i <= end <= s.len(),
            last_index_before(s@, c, end as int) == last_index_before(s@, c, i as int),
        decreases i,
    {
        if s[i - 1] == c {
            return Some(i - 1);
        }
        i = i - 1;
    }
    None
}

/// A file name without its trailing extension: what stands before the last
/// `.`, or the whole name when it holds no `.`.
pub open spec fn stem(name: Seq<char>) -> Seq<char> {
    let dot = last_index_before(name, '.', name.len() as int);
    if dot < 0 {
        name
    } else {
        name.subrange(0, dot)
    }
}

/// Strips the trailing extension from a file name.
pub fn strip_extension(name: &str) -> (r: String)
    ensures
        r@ == stem(name@),
{
    let chars = chars_of(name);
    proof {
        lemma_last_index_before(name@, '.', name@.len() as int);
    }
    match rfind_before(&chars, '.', chars.len()) {
        Some(dot) => name.substring_char(0, dot).to_owned(),
        None => name.to_owned(),
    }
}

/// Whether `ext` is a dot followed by at least one character, none of which is
/// another dot.
pub open spec fn is_extension(ext: Seq<char>) -> bool {
    &&& ext.len() >= 2
    &&& ext[0] == '.'
    &&& forall|j: int| 1 <= j < ext.len() ==> ext[j] != '.'
}

/// Stripping the extension from a name built as `title + ext` gives `title`
/// back, whatever dots the title holds.
pub proof fn lemma_stem_of_file_name(title: Seq<char>, ext: Seq<char>)
    requires
        is_extension(ext),
    ensures
        stem(title + ext) == title,
{
    let name = title + ext;
    let dot = title.len() as int;
    assert(name[dot] == ext[0]);
    assert forall|j: int| dot < j < name.len() implies name[j] != '.' by {
        assert(name[j] == ext[j - dot]);
    }
    lemma_last_index_is(name, '.', name.len() as int, dot);
    assert(name.subrange(0, dot) =~= title);
}

/// Where the path of `url` ends: at the first `?` or `#`, or at the end of the
/// text.
pub open spec fn path_end(url: Seq<char>) -> int {
    let query = first_index_from(url, '?', 0);
    let fragment = first_index_from(url, '#', 0);
    if query < fragment {
        query
    } else {
        fragment
    }
}

/// Where the path of `url` starts. A URL that begins with a scheme and `://`
/// has its path start at the first `/` behind the authority (at the path's end
/// when there is none); any other text is a path from its first character.
pub open spec fn path_start(url: Seq<char>) -> int {
    let end = path_end(url);
    let colon = first_index_from(url, ':', 0);
    if colon + 2 < end && url[colon + 1] == '/' && url[colon + 2] == '/' && colon
        < first_index_from(url, '/', 0) {
        let slash = first_index_from(url, '/', colon + 3);
        if slash < end {
            slash
        } else {
            end
        }
    } else {
        0
    }
}

/// The extension that the path of `url` ends in: the last `.` of the path's
/// last segment together with the characters behind it, if there are any.
pub open spec fn url_extension(url: Seq<char>) -> Option<Seq<char>> {
    let end = path_end(url);
    let dot = last_index_before(url, '.', end);
    if path_start(url) <= dot && last_index_before(url, '/', end) < dot && dot + 1 < end {
        Some(url.subrange(dot, end))
    } else {
        None
    }
}

/// Every extension found in a URL is a dot followed by characters that hold
/// neither a dot nor a slash.
pub proof fn lemma_url_extension_shape(url: Seq<char>)
    ensures
        url_extension(url) matches Some(ext) ==> is_extension(ext) && forall|j: int|
            0 <= j < ext.len() ==> ext[j] != '/',
{
    lemma_first_index_from(url, '?', 0);
    lemma_first_index_from(url, '#', 0);
    let end = path_end(url);
    lemma_last_index_before(url, '.', end);
    lemma_last_index_before(url, '/', end);
    if let Some(ext) = url_extension(url) {
        let dot = last_index_before(url, '.', end);
        assert forall|j: int| 0 <= j < ext.len() implies ext[j] != '/' && (j >= 1 ==> ext[j]
            != '.') by {
            assert(ext[j] == url[dot + j]);
        }
    }
}

/// Finds the extension that the path of `url` ends in.
pub fn find_extension(url: &str) -> (r: Option<String>)
    ensures
        match r {
            Some(ext) => url_extension(url@) == Some(ext@),
            None => url_extension(url@) is None,
        },
{
    let chars = chars_of(url);
    let n: usize = chars.len();
    proof {
        lemma_first_index_from(url@, '?', 0);
        lemma_first_index_from(url@, '#', 0);
        lemma_first_index_from(url@, ':', 0);
        lemma_first_index_from(url@, '/', 0);
    }
    let query: usize = find_from(&chars, '?', 0);
    let fragment: usize = find_from(&chars, '#', 0);
    let end: usize = if query < fragment {
        query
    } else {
        fragment
    };
    let colon: usize = find_from(&chars, ':', 0);
    let mut start: usize = 0;
    if colon < end && end - colon > 2 && chars[colon + 1] == '/' && chars[colon + 2] == '/'
        && colon < find_from(&chars, '/', 0) {
        proof {
            lemma_first_index_from(url@, '/', colon + 3);
        }
        let slash: usize = find_from(&chars, '/', colon + 3);
        start = if slash < end {
            slash
        } else {
            end
        };
    }
    proof {
        lemma_last_index_before(url@, '.', end as int);
        lemma_last_index_before(url@, '/', end as int);
    }
    match rfind_before(&chars, '.', end) {
        Some(dot) => {
            let segment_ok: bool = match rfind_before(&chars, '/', end) {
                Some(slash) => slash < dot,
                None => true,
            };
            if start <= dot && segment_ok && end - dot > 1 {
                Some(url.substring_char(dot, end).to_owned())
            } else {
                None
            }
        },
        None => None,
    }
}

} // verus!
