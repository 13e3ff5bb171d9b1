//! String primitives over the character view of `str` and `String`.

use vstd::prelude::*;

verus! {

/// The character view of an optional string.
pub open spec fn opt_view(o: Option<String>) -> Option<Seq<char>> {
    match o {
        Some(s) => Some(s@),
        None => None,
    }
}

/// Unicode `White_Space` property, the notion of whitespace that `str::trim` uses.
pub open spec fn is_white_space(c: char) -> bool {
    let u = c as u32;
    ||| 0x09 <= u <= 0x0D
    ||| u == 0x20
    ||| u == 0x85
    ||| u == 0xA0
    ||| u == 0x1680
    ||| 0x2000 <= u <= 0x200A
    ||| u == 0x2028
    ||| u == 0x2029
    ||| u == 0x202F
    ||| u == 0x205F
    ||| u == 0x3000
}

/// Drops the leading whitespace of `s`.
pub open spec fn trim_start_seq(s: Seq<char>) -> Seq<char>
    decreases s.len(),
{
    if s.len() > 0 && is_white_space(s[0]) {
        trim_start_seq(s.drop_first())
    } else {
        s
    }
}

/// Drops the trailing whitespace of `s`.
pub open spec fn trim_end_seq(s: Seq<char>) -> Seq<char>
    decreases s.len(),
{
    if s.len() > 0 && is_white_space(s.last()) {
        trim_end_seq(s.drop_last())
    } else {
        s
    }
}

/// `s` without its leading and trailing whitespace.
pub open spec fn trim_seq(s: Seq<char>) -> Seq<char> {
    trim_end_seq(trim_start_seq(s))
}

pub fn is_white_space_char(c: char) -> (b: bool)
    ensures
        b == is_white_space(c),
{
    let u = c as u32;
    (0x09 <= u && u <= 0x0D) || u == 0x20 || u == 0x85 || u == 0xA0 || u == 0x1680 || (0x2000
        <= u && u <= 0x200A) || u == 0x2028 || u == 0x2029 || u == 0x202F || u == 0x205F || u
        == 0x3000
}

/// Returns `s` with leading and trailing whitespace removed.
pub fn trim(s: &str) -> (res: String)
    ensures
        res@ == trim_seq(s@),
{
    let n = s.unicode_len();
    let mut lo: usize = 0;
    assert(s@.subrange(0, n as int) =~= s@);
    while lo < n && is_white_space_char(s.get_char(lo))
        invariant
            n == s@.len(),
            lo <= n,
            trim_start_seq(s@.subrange(lo as int, n as int)) == trim_start_seq(s@),
        decreases n - lo,
    {
        assert(s@.subrange(lo as int, n as int).drop_first() =~= s@.subrange(lo + 1, n as int));
        lo = lo + 1;
    }
    let ghost start = s@.subrange(lo as int, n as int);
    assert(trim_start_seq(start) == start);
    let mut hi: usize = n;
    while hi > lo && is_white_space_char(s.get_char(hi - 1))
        invariant
            n == s@.len(),
            lo <= hi <= n,
            start == s@.subrange(lo as int, n as int),
            trim_end_seq(s@.subrange(lo as int, hi as int)) == trim_end_seq(start),
        decreases hi - lo,
    {
        assert(s@.subrange(lo as int, hi as int).drop_last() =~= s@.subrange(
            lo as int,
            hi - 1,
        ));
        hi = hi - 1;
    }
    let ghost mid = s@.subrange(lo as int, hi as int);
    assert(trim_end_seq(mid) == mid);
    s.substring_char(lo, hi).to_owned()
}


/// An owned copy of `s`.
pub fn lit(s: &str) -> (res: String)
    ensures
        res@ == s@,
{
    String::from_str(s)
}

/// `a` followed by `b`.
pub fn cat(a: &str, b: &str) -> (res: String)
    ensures
        res@ == a@ + b@,
{
    String::from_str(a).concat(b)
}

/// Whether `c` separates path components: `/` everywhere, and `\\` too on
/// Windows.
pub open spec fn is_path_sep(c: char, windows: bool) -> bool {
    c == '/' || (windows && c == '\\')
}

/// The separator put between two path components.
pub open spec fn path_sep(windows: bool) -> char {
    if windows {
        '\\'
    } else {
        '/'
    }
}

/// A Windows drive with nothing after it, such as `C:`.
pub open spec fn is_bare_drive(s: Seq<char>) -> bool {
    &&& s.len() == 2
    &&& s[1] == ':'
    &&& (('a' <= s[0] && s[0] <= 'z') || ('A' <= s[0] && s[0] <= 'Z'))
}

/// `name` appended to the path `base` as one more component: the host's
/// separator goes between them unless `base` is empty, already ends in a
/// separator, or (on Windows) is a bare drive.
pub open spec fn join_path_seq(base: Seq<char>, name: Seq<char>, windows: bool) -> Seq<char> {
    if base.len() == 0 || is_path_sep(base.last(), windows) || (windows && is_bare_drive(base)) {
        base + name
    } else {
        base + seq![path_sep(windows)] + name
    }
}

/// `name` joined to `base` as one path component, with the separators of
/// Windows when `windows` holds and those of Unix otherwise. `name` is a plain
/// relative component here (no root, drive or separator of its own).
pub fn join_path(base: &str, name: &str, windows: bool) -> (res: String)
    ensures
        res@ == join_path_seq(base@, name@, windows),
{
    let n = base.unicode_len();
    let mut joined = n == 0;
    if n > 0 {
        let last = base.get_char(n - 1);
        if last == '/' || (windows && last == '\\') {
            joined = true;
        } else if windows && n == 2 && base.get_char(1) == ':' {
            let d = base.get_char(0);
            joined = ('a' <= d && d <= 'z') || ('A' <= d && d <= 'Z');
        }
    }
    if joined {
        cat(base, name)
    } else if windows {
        proof {
            reveal_strlit("\\");
        }
        assert("\\"@ =~= seq![path_sep(windows)]);
        cat(base, "\\").concat(name)
    } else {
        proof {
            reveal_strlit("/");
        }
        assert("/"@ =~= seq![path_sep(windows)]);
        cat(base, "/").concat(name)
    }
}


/// `s` without its trailing run of `c`.
pub open spec fn trim_end_char_seq(s: Seq<char>, c: char) -> Seq<char>
    decreases s.len(),
{
    if s.len() > 0 && s.last() == c {
        trim_end_char_seq(s.drop_last(), c)
    } else {
        s
    }
}

/// Returns `s` with every trailing `c` removed (as `str::trim_end_matches(c)`).
pub fn trim_end_char(s: &str, c: char) -> (res: String)
    ensures
        res@ == trim_end_char_seq(s@, c),
{
    let n = s.unicode_len();
    let mut hi: usize = n;
    assert(s@.subrange(0, n as int) =~= s@);
    while hi > 0 && s.get_char(hi - 1) == c
        invariant
            n == s@.len(),
            hi <= n,
            trim_end_char_seq(s@.subrange(0, hi as int), c) == trim_end_char_seq(s@, c),
        decreases hi,
    {
        assert(s@.subrange(0, hi as int).drop_last() =~= s@.subrange(0, hi - 1));
        hi = hi - 1;
    }
    s.substring_char(0, hi).to_owned()
}

pub open spec fn has_prefix(s: Seq<char>, p: Seq<char>) -> bool {
    p.len() <= s.len() && s.subrange(0, p.len() as int) == p
}

pub open spec fn has_suffix(s: Seq<char>, p: Seq<char>) -> bool {
    p.len() <= s.len() && s.subrange(s.len() - p.len(), s.len() as int) == p
}

/// Whether `s` begins with `prefix`.
pub fn starts_with(s: &str, prefix: &str) -> (b: bool)
    ensures
        b == has_prefix(s@, prefix@),
{
    let n = s.unicode_len();
    let m = prefix.unicode_len();
    if m > n {
        return false;
    }
    let mut i: usize = 0;
    while i < m
        invariant
            n == s@.len(),
            m == prefix@.len(),
            m <= n,
            i <= m,
            forall|k: int| 0 <= k < i ==> s@[k] == prefix@[k],
        decreases m - i,
    {
        if s.get_char(i) != prefix.get_char(i) {
            assert(s@.subrange(0, m as int)[i as int] != prefix@[i as int]);
            return false;
        }
        i = i + 1;
    }
    assert(s@.subrange(0, m as int) =~= prefix@);
    true
}

/// Whether `s` ends with `suffix`.
pub fn ends_with(s: &str, suffix: &str) -> (b: bool)
    ensures
        b == has_suffix(s@, suffix@),
{
    let n = s.unicode_len();
    let m = suffix.unicode_len();
    if m > n {
        return false;
    }
    let d = n - m;
    let mut i: usize = 0;
    while i < m
        invariant
            n == s@.len(),
            m == suffix@.len(),
            d == n - m,
            i <= m,
            forall|k: int| 0 <= k < i ==> s@[d + k] == suffix@[k],
        decreases m - i,
    {
        if s.get_char(d + i) != suffix.get_char(i) {
            assert(s@.subrange(d as int, n as int)[i as int] != suffix@[i as int]);
            return false;
        }
        i = i + 1;
    }
    assert(s@.subrange(d as int, n as int) =~= suffix@);
    true
}

/// `s` after `prefix`, when `s` begins with it.
pub fn strip_prefix(s: &str, prefix: &str) -> (res: Option<String>)
    ensures
        match res {
            Some(r) => has_prefix(s@, prefix@) && r@ == s@.subrange(
                prefix@.len() as int,
                s@.len() as int,
            ),
            None => !has_prefix(s@, prefix@),
        },
{
    if starts_with(s, prefix) {
        let n = s.unicode_len();
        let m = prefix.unicode_len();
        Some(s.substring_char(m, n).to_owned())
    } else {
        None
    }
}

/// The decimal digit for `d`.
pub open spec fn digit_char(d: int) -> char {
    (('0' as int) + d) as char
}

/// `n` in decimal, with at least two digits.
pub open spec fn two_digits(n: nat) -> Seq<char>
    recommends
        n < 100,
{
    seq![digit_char((n / 10) as int), digit_char((n % 10) as int)]
}

fn digit_str(d: u64) -> (s: &'static str)
    requires
        d < 10,
    ensures
        s@ == seq![digit_char(d as int)],
{
    proof {
        reveal_strlit("0");
        reveal_strlit("1");
        reveal_strlit("2");
        reveal_strlit("3");
        reveal_strlit("4");
        reveal_strlit("5");
        reveal_strlit("6");
        reveal_strlit("7");
        reveal_strlit("8");
        reveal_strlit("9");
    }
    let s = if d == 0 {
        "0"
    } else if d == 1 {
        "1"
    } else if d == 2 {
        "2"
    } else if d == 3 {
        "3"
    } else if d == 4 {
        "4"
    } else if d == 5 {
        "5"
    } else if d == 6 {
        "6"
    } else if d == 7 {
        "7"
    } else if d == 8 {
        "8"
    } else {
        "9"
    };
    assert(s@ =~= seq![digit_char(d as int)]);
    s
}

/// `n` as two decimal digits, zero-padded (`format!("{:02}", n)` for `n < 100`).
pub fn pad2(n: u64) -> (s: String)
    requires
        n < 100,
    ensures
        s@ == two_digits(n as nat),
{
    let s = cat(digit_str(n / 10), digit_str(n % 10));
    assert(s@ =~= two_digits(n as nat));
    s
}

} // verus!
