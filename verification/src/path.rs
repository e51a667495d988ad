//! Paths as text. A path is read as segments separated by `/`; empty segments
//! and `.` mean nothing, and `..` means the directory above. A path may start
//! at the root (`/`), at the current directory (`.` as its first segment), or
//! at neither.

use vstd::prelude::*;
use vstd::string::StringExecFns;

verus! {

/// The path starts at the root.
pub open spec fn is_rooted(p: Seq<char>) -> bool {
    p.len() > 0 && p[0] == '/'
}

/// The path starts with the segment `.`.
pub open spec fn is_led_by_current(p: Seq<char>) -> bool {
    p.len() > 0 && p[0] == '.' && (p.len() == 1 || p[1] == '/')
}

/// The length of what a path starts at: 1 for the root or a leading `.`,
/// else 0. No directory above the path is shorter than this.
pub open spec fn head_len(p: Seq<char>) -> int {
    if is_rooted(p) || is_led_by_current(p) {
        1
    } else {
        0
    }
}

/// The end of the segment that starts at `from`: the place of the next
/// separator, or the end of the path.
pub open spec fn segment_end(p: Seq<char>, from: int) -> int
    decreases p.len() - from,
{
    if from >= p.len() || p[from] == '/' {
        from
    } else {
        segment_end(p, from + 1)
    }
}

/// The segment `.`.
pub open spec fn is_current(seg: Seq<char>) -> bool {
    seg.len() == 1 && seg[0] == '.'
}

/// The segment `..`.
pub open spec fn is_parent(seg: Seq<char>) -> bool {
    seg.len() == 2 && seg[0] == '.' && seg[1] == '.'
}

/// The length of the first `n` characters of `t` without what means nothing
/// at their end: separators and `.` segments. What the path starts at stays.
pub open spec fn trimmed_len(t: Seq<char>, n: int) -> int
    decreases n,
{
    let h = head_len(t);
    if n <= h {
        n
    } else if t[n - 1] == '/' {
        trimmed_len(t, n - 1)
    } else if t[n - 1] == '.' && n - 1 == h {
        h
    } else if t[n - 1] == '.' && n - 2 >= h && t[n - 2] == '/' {
        trimmed_len(t, n - 2)
    } else {
        n
    }
}

/// The place of the last separator among the first `n` characters of `t`
/// behind what the path starts at, or -1.
pub open spec fn last_separator(t: Seq<char>, n: int) -> int
    decreases n,
{
    if n <= head_len(t) {
        -1
    } else if t[n - 1] == '/' {
        n - 1
    } else {
        last_separator(t, n - 1)
    }
}

/// The length of the directory above `t`. There is none above the root and
/// none above the empty path; above a path that is only a leading `.` lies the
/// empty path.
pub open spec fn parent_len(t: Seq<char>) -> Option<int> {
    let h = head_len(t);
    let u = trimmed_len(t, t.len() as int);
    if u <= h {
        if is_led_by_current(t) {
            Some(0)
        } else {
            None
        }
    } else {
        let cut = last_separator(t, u);
        Some(
            trimmed_len(
                t,
                if cut < 0 {
                    h
                } else {
                    cut
                },
            ),
        )
    }
}

/// The directory above `t`: `t` cut behind the segment before its last one.
pub open spec fn parent(t: Seq<char>) -> Option<Seq<char>> {
    match parent_len(t) {
        Some(n) => Some(t.take(n)),
        None => None,
    }
}

/// `t` with the segment `seg` behind it, and one separator between them.
pub open spec fn join(t: Seq<char>, seg: Seq<char>) -> Seq<char> {
    if t.len() > 0 && t.last() != '/' {
        t + seq!['/'] + seg
    } else {
        t + seg
    }
}

/// The directory reached from `base` by one segment. Where `up` holds, `..`
/// leads to the directory above, and there is none above the root; where it
/// does not, `..` is a segment like any other.
pub open spec fn enter(base: Seq<char>, seg: Seq<char>, up: bool) -> Option<Seq<char>> {
    if seg.len() == 0 || is_current(seg) {
        Some(base)
    } else if up && is_parent(seg) {
        parent(base)
    } else {
        Some(join(base, seg))
    }
}

/// The path reached from `base` by the segments of `p` from `from` on; none
/// if one of them leads above the root.
pub open spec fn walk_from(p: Seq<char>, from: int, base: Seq<char>, up: bool) -> Option<
    Seq<char>,
>
    decreases p.len() - from,
{
    let end = segment_end(p, from);
    match enter(base, p.subrange(from, end), up) {
        None => None,
        Some(next) => if end >= p.len() || end < from {
            Some(next)
        } else {
            walk_from(p, end + 1, next, up)
        },
    }
}

/// The path reached from `base` by following `p`.
pub open spec fn resolve(p: Seq<char>, base: Seq<char>) -> Option<Seq<char>> {
    walk_from(p, 0, base, true)
}

/// A rooted path stands for itself; any other is followed from `base`.
pub open spec fn expand(p: Seq<char>, base: Seq<char>) -> Option<Seq<char>> {
    if is_rooted(p) {
        Some(p)
    } else {
        resolve(p, base)
    }
}

/// What the path starts at, then its segments that mean something, with one
/// separator between them. Two paths start alike and name the same sequence
/// of segments if and only if they are written alike in this form.
pub open spec fn tidy(p: Seq<char>) -> Seq<char> {
    match walk_from(p, 0, p.take(head_len(p)), false) {
        Some(t) => t,
        None => p,
    }
}

/// The directory that the paths of a configuration start from: the directory
/// of the executable if the configuration file lies in it, else the directory
/// two above the configuration file (one above, if there is none higher).
pub open spec fn relative_base(config_file: Seq<char>, exe: Seq<char>) -> Seq<char> {
    match (parent(config_file), parent(exe)) {
        (Some(config_dir), Some(exe_dir)) => if tidy(config_dir) == tidy(exe_dir) {
            exe_dir
        } else {
            match parent(config_dir) {
                Some(above) => above,
                None => config_dir,
            }
        },
        _ => config_file,
    }
}

/// The text of a directory ends in a separator.
pub open spec fn directory_form(t: Seq<char>, is_dir: bool) -> Seq<char> {
    if is_dir && !(t.len() > 0 && t.last() == '/') {
        t.push('/')
    } else {
        t
    }
}

/// A stretch without separators that ends at a separator or at the end of the
/// path is a segment.
pub proof fn lemma_segment_found(p: Seq<char>, from: int, end: int)
    requires
        0 <= from <= end <= p.len(),
        forall|i: int| from <= i < end ==> p[i] != '/',
        end < p.len() ==> p[end] == '/',
    ensures
        segment_end(p, from) == end,
    decreases end - from,
{
    if from < end {
        lemma_segment_found(p, from + 1, end);
    }
}

/// Trimming keeps a length between that of what the path starts at and what
/// it was.
pub proof fn lemma_trimmed_len(t: Seq<char>, n: int)
    requires
        head_len(t) <= n <= t.len(),
    ensures
        head_len(t) <= trimmed_len(t, n) <= n,
    decreases n,
{
    let h = head_len(t);
    if n > h {
        if t[n - 1] == '/' {
            lemma_trimmed_len(t, n - 1);
        } else if t[n - 1] == '.' && n - 1 == h {
        } else if t[n - 1] == '.' && n - 2 >= h && t[n - 2] == '/' {
            lemma_trimmed_len(t, n - 2);
        }
    }
}

/// The last separator, if there is one, lies behind what the path starts at
/// and before `n`.
pub proof fn lemma_last_separator(t: Seq<char>, n: int)
    requires
        0 <= n <= t.len(),
    ensures
        -1 <= last_separator(t, n) < n,
        last_separator(t, n) >= 0 ==> t[last_separator(t, n)] == '/' && last_separator(t, n)
            >= head_len(t),
    decreases n,
{
    if n > head_len(t) && t[n - 1] != '/' {
        lemma_last_separator(t, n - 1);
    }
}

/// The directory above a path is a beginning of the path; above a rooted path
/// it is rooted.
pub proof fn lemma_parent(t: Seq<char>)
    ensures
        parent_len(t) matches Some(n) ==> 0 <= n <= t.len() && (is_rooted(t) ==> 1 <= n),
        parent(t) matches Some(u) ==> u.len() <= t.len() && (is_rooted(t) ==> is_rooted(u)),
{
    let h = head_len(t);
    lemma_trimmed_len(t, t.len() as int);
    let u = trimmed_len(t, t.len() as int);
    if u > h {
        lemma_last_separator(t, u);
        let cut = last_separator(t, u);
        let v = if cut < 0 {
            h
        } else {
            cut
        };
        lemma_trimmed_len(t, v);
    }
}

/// The length of what a path starts at.
pub fn head_length(t: &str) -> (h: usize)
    ensures
        h == head_len(t@),
        h <= t@.len(),
{
    let len = t.unicode_len();
    if len == 0 {
        return 0;
    }
    let first = t.get_char(0);
    if first == '/' {
        1
    } else if first == '.' && (len == 1 || t.get_char(1) == '/') {
        1
    } else {
        0
    }
}

/// The length of the first `n` characters of `t` without separators and `.`
/// segments at their end.
pub fn trimmed_length(t: &str, n: usize) -> (r: usize)
    requires
        head_len(t@) <= n <= t@.len(),
    ensures
        r == trimmed_len(t@, n as int),
        head_len(t@) <= r <= n,
{
    let h = head_length(t);
    let mut k: usize = n;
    loop
        invariant
            h == head_len(t@),
            h <= k <= n <= t@.len(),
            trimmed_len(t@, n as int) == trimmed_len(t@, k as int),
        ensures
            h <= k <= n,
            k == trimmed_len(t@, n as int),
        decreases k,
    {
        if k <= h {
            break ;
        }
        let last = t.get_char(k - 1);
        if last == '/' {
            k = k - 1;
        } else if last == '.' && k - 1 == h {
            k = h;
            break ;
        } else if last == '.' && t.get_char(k - 2) == '/' {
            k = k - 2;
        } else {
            break ;
        }
    }
    k
}

/// The length of the directory above a path, if there is one.
pub fn parent_length(t: &str) -> (r: Option<usize>)
    ensures
        match r {
            Some(n) => parent_len(t@) == Some(n as int) && n <= t@.len(),
            None => parent_len(t@) is None,
        },
{
    let len = t.unicode_len();
    let h = head_length(t);
    let u = trimmed_length(t, len);
    if u <= h {
        if h == 1 && t.get_char(0) == '.' {
            return Some(0);
        }
        return None;
    }
    let mut cut: usize = u;
    while cut > h && t.get_char(cut - 1) != '/'
        invariant
            h == head_len(t@),
            h <= cut <= u <= t@.len(),
            last_separator(t@, u as int) == last_separator(t@, cut as int),
        decreases cut,
    {
        cut = cut - 1;
    }
    // `cut` is one behind the last separator, if there is one.
    let v: usize = if cut > h {
        cut - 1
    } else {
        h
    };
    Some(trimmed_length(t, v))
}

/// Follows the segments of `path` from the directory `base`. Empty segments
/// and `.` stay where they are. Where `up` holds, `base` is rooted, `..` goes
/// to the directory above and the walk fails above the root; where it does
/// not, `..` goes down like any other segment.
pub fn walk(path: &str, base: String, up: bool) -> (r: Option<String>)
    requires
        up ==> is_rooted(base@),
    ensures
        match walk_from(path@, 0, base@, up) {
            Some(t) => r matches Some(s) && s@ == t && (is_rooted(base@) ==> is_rooted(t)),
            None => r is None,
        },
        !up ==> r is Some,
{
    let ghost start_text = base@;
    let len = path.unicode_len();
    let mut res = base;
    let mut start: usize = 0;
    loop
        invariant
            len == path@.len(),
            0 <= start <= len,
            is_rooted(start_text) ==> is_rooted(res@),
            up ==> is_rooted(start_text),
            start_text == base@,
            walk_from(path@, 0, start_text, up) == walk_from(path@, start as int, res@, up),
        decreases len - start,
    {
        let mut end: usize = start;
        while end < len && path.get_char(end) != '/'
            invariant
                len == path@.len(),
                start <= end <= len,
                forall|i: int| start <= i < end ==> path@[i] != '/',
            decreases len - end,
        {
            end = end + 1;
        }
        proof {
            lemma_segment_found(path@, start as int, end as int);
        }
        let ghost seg = path@.subrange(start as int, end as int);
        let ghost before = res@;
        assert(walk_from(path@, start as int, before, up) == (match enter(before, seg, up) {
            None => None,
            Some(next) => if end >= len {
                Some(next)
            } else {
                walk_from(path@, end + 1, next, up)
            },
        }));
        let size = end - start;
        let current = size == 1 && path.get_char(start) == '.';
        let above = size == 2 && path.get_char(start) == '.' && path.get_char(start + 1) == '.';
        assert(current == is_current(seg));
        assert(above == is_parent(seg));
        if size == 0 || current {
        } else if up && above {
            match parent_length(res.as_str()) {
                Some(n) => {
                    proof {
                        lemma_parent(res@);
                    }
                    res = String::from_str(res.as_str().substring_char(0, n));
                },
                None => {
                    return None;
                },
            }
        } else {
            let res_len = res.as_str().unicode_len();
            if res_len > 0 && res.as_str().get_char(res_len - 1) != '/' {
                proof {
                    reveal_strlit("/");
                    assert("/"@ =~= seq!['/']);
                }
                res.append("/");
            }
            res.append(path.substring_char(start, end));
        }
        assert(enter(before, seg, up) == Some(res@));
        if end >= len {
            return Some(res);
        }
        start = end + 1;
    }
}

/// Writes a path with what it starts at and its meaningful segments only.
pub fn tidy_path(path: &str) -> (r: String)
    ensures
        r@ == tidy(path@),
{
    let h = head_length(path);
    match walk(path, String::from_str(path.substring_char(0, h)), false) {
        Some(t) => t,
        None => String::from_str(path),
    }
}

/// The directory above a path, if there is one.
pub fn parent_path(path: &str) -> (r: Option<String>)
    ensures
        match parent(path@) {
            Some(t) => r matches Some(s) && s@ == t && (is_rooted(path@) ==> is_rooted(t)),
            None => r is None,
        },
{
    match parent_length(path) {
        Some(n) => {
            proof {
                lemma_parent(path@);
            }
            Some(String::from_str(path.substring_char(0, n)))
        },
        None => None,
    }
}

} // verus!
