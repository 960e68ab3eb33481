use vstd::prelude::*;

verus! {

/// The character sequences of a sequence of strings.
pub open spec fn strs(v: Seq<String>) -> Seq<Seq<char>> {
    v.map_values(|s: String| s@)
}

/// The parts written one after another, with `sep` between neighbours.
pub open spec fn joined(parts: Seq<Seq<char>>, sep: Seq<char>) -> Seq<char>
    decreases parts.len(),
{
    if parts.len() == 0 {
        Seq::empty()
    } else if parts.len() == 1 {
        parts[0]
    } else {
        joined(parts.drop_last(), sep) + sep + parts.last()
    }
}

/// Parts joined with `.`: a dotted name.
pub open spec fn dotted(parts: Seq<Seq<char>>) -> Seq<char> {
    joined(parts, "."@)
}

/// Parts joined with `/`: a POSIX path.
pub open spec fn slashed(parts: Seq<Seq<char>>) -> Seq<char> {
    joined(parts, "/"@)
}

/// Whether `s` ends with `suffix`.
pub open spec fn has_suffix(s: Seq<char>, suffix: Seq<char>) -> bool {
    suffix.len() <= s.len() && s.subrange(s.len() - suffix.len(), s.len() as int) == suffix
}

/// Whether `s` starts with `prefix`.
pub open spec fn has_prefix(s: Seq<char>, prefix: Seq<char>) -> bool {
    prefix.len() <= s.len() && s.subrange(0, prefix.len() as int) == prefix
}

/// Index of the last `.` in `s`, or -1 when there is none.
pub open spec fn last_dot(s: Seq<char>) -> int
    decreases s.len(),
{
    if s.len() == 0 {
        -1
    } else if s.last() == '.' {
        s.len() - 1
    } else {
        last_dot(s.drop_last())
    }
}

/// The stem of a file name: what precedes its last `.`, unless that `.` leads the name.
pub open spec fn file_stem(name: Seq<char>) -> Seq<char> {
    let d = last_dot(name);
    if d <= 0 {
        name
    } else {
        name.subrange(0, d)
    }
}

/// The extension of a file name: what follows its last `.`, unless that `.` leads the name.
pub open spec fn file_ext(name: Seq<char>) -> Option<Seq<char>> {
    let d = last_dot(name);
    if d <= 0 {
        None
    } else {
        Some(name.subrange(d + 1, name.len() as int))
    }
}

/// The dot-separated segments of `s` but the last, joined again with `.`;
/// empty when `s` holds no `.`.
pub open spec fn without_last_segment(s: Seq<char>) -> Seq<char> {
    let d = last_dot(s);
    if d < 0 {
        Seq::empty()
    } else {
        s.subrange(0, d)
    }
}

/// Relies on itertools::join: the `Display` text of each element, with `sep`
/// between neighbours.
#[verifier::external_body]
pub(crate) fn join_parts(parts: &Vec<String>, sep: &str) -> (r: String)
    ensures
        r@ == joined(strs(parts@), sep@),
{
    itertools::join(parts.iter(), sep)
}

/// Whether two strings hold the same characters.
pub fn str_eq(a: &str, b: &str) -> (r: bool)
    ensures
        r == (a@ == b@),
{
    let x = a.to_owned();
    let y = b.to_owned();
    x == y
}

/// Whether `suffix` is a suffix of `s`.
pub fn str_ends_with(s: &str, suffix: &str) -> (r: bool)
    ensures
        r == has_suffix(s@, suffix@),
{
    let n = s.unicode_len();
    let m = suffix.unicode_len();
    if m > n {
        false
    } else {
        str_eq(s.substring_char(n - m, n), suffix)
    }
}

/// Whether `prefix` is a prefix of `s`.
pub fn str_starts_with(s: &str, prefix: &str) -> (r: bool)
    ensures
        r == has_prefix(s@, prefix@),
{
    let n = s.unicode_len();
    let m = prefix.unicode_len();
    if m > n {
        false
    } else {
        str_eq(s.substring_char(0, m), prefix)
    }
}

/// A copy of a list of strings.
pub fn copy_strings(v: &Vec<String>) -> (r: Vec<String>)
    ensures
        r@ == v@,
{
    let mut r: Vec<String> = Vec::new();
    let mut i: usize = 0;
    while i < v.len()
        invariant
            i <= v@.len(),
            r@ == v@.subrange(0, i as int),
        decreases v@.len() - i,
    {
        r.push(v[i].clone());
        i = i + 1;
        assert(r@ =~= v@.subrange(0, i as int));
    }
    assert(r@ =~= v@);
    r
}

/// Position of the last `.` in `s`, if any.
pub fn find_last_dot(s: &str) -> (r: Option<usize>)
    ensures
        match r {
            None => last_dot(s@) == -1,
            Some(i) => i == last_dot(s@) && 0 <= i < s@.len(),
        },
{
    let n = s.unicode_len();
    let mut i: usize = n;
    assert(s@.subrange(0, n as int) =~= s@);
    while i > 0
        invariant
            i <= n == s@.len(),
            last_dot(s@) == last_dot(s@.subrange(0, i as int)),
        decreases i,
    {
        let c = s.get_char(i - 1);
        if c == '.' {
            return Some(i - 1);
        }
        assert(s@.subrange(0, i as int).drop_last() =~= s@.subrange(0, i - 1));
        i = i - 1;
    }
    None
}

/// The stem and extension of a file name.
pub fn split_file_name(name: &str) -> (r: (String, Option<String>))
    ensures
        r.0@ == file_stem(name@),
        match r.1 {
            None => file_ext(name@) is None,
            Some(e) => file_ext(name@) == Some(e@),
        },
{
    let n = name.unicode_len();
    match find_last_dot(name) {
        Some(d) if d > 0 => {
            let stem = name.substring_char(0, d).to_owned();
            let ext = name.substring_char(d + 1, n).to_owned();
            (stem, Some(ext))
        },
        _ => (name.to_owned(), None),
    }
}

/// `s` without its last dot-separated segment.
pub fn strip_last_segment(s: &str) -> (r: String)
    ensures
        r@ == without_last_segment(s@),
{
    match find_last_dot(s) {
        Some(d) => s.substring_char(0, d).to_owned(),
        None => String::new(),
    }
}

/// `s` without its last `n` characters.
pub fn drop_chars(s: &str, n: usize) -> (r: String)
    requires
        n <= s@.len(),
    ensures
        r@ == s@.subrange(0, s@.len() - n),
{
    let len = s.unicode_len();
    s.substring_char(0, len - n).to_owned()
}

} // verus!
