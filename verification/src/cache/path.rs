//! How the image cache identifies a path: by its components, as paths compare. Separators that
//! repeat or end the path make no difference, and neither does a `.` component except at the
//! start of a relative path.
use vstd::prelude::*;

verus! {

/// The key after closing the segment `cur`: a nonempty segment other than `.` is added after a
/// separator (when a component is there already); a `.` is kept only as the first segment.
pub open spec fn close(out: Seq<char>, cur: Seq<char>, first: bool, any: bool) -> (Seq<char>, bool) {
    if cur.len() > 0 && (cur != seq!['.'] || first) {
        (out + (if any { seq!['/'] } else { Seq::empty() }) + cur, true)
    } else {
        (out, any)
    }
}

/// The key built from the first `i` characters of `p`, the start of the segment being read,
/// whether a separator was seen, and whether a component was added.
pub open spec fn scan(p: Seq<char>, i: int) -> (Seq<char>, int, bool, bool)
    decreases i,
{
    if i <= 0 {
        (Seq::empty(), 0, false, false)
    } else {
        let (out, start, seen, any) = scan(p, i - 1);
        if p[i - 1] == '/' {
            let cur = p.subrange(start, i - 1);
            let (closed, any2) = close(out, cur, !seen, any);
            let rooted = !seen && cur.len() == 0;
            (if rooted { seq!['/'] } else { closed }, i, true, any2)
        } else {
            (out, start, seen, any)
        }
    }
}

/// The path `p` written with its components only: a leading `/` for an absolute path, then the
/// components separated by single `/`.
pub open spec fn path_key(p: Seq<char>) -> Seq<char> {
    let (out, start, seen, any) = scan(p, p.len() as int);
    close(out, p.subrange(start, p.len() as int), !seen, any).0
}

proof fn lemma_scan_start(p: Seq<char>, i: int)
    requires
        0 <= i <= p.len(),
    ensures
        0 <= scan(p, i).1 <= i,
    decreases i,
{
    if i > 0 {
        lemma_scan_start(p, i - 1);
    }
}

/// Appends the segment `path[start..end]` as `close` does.
fn close_segment(out: &mut String, path: &str, start: usize, end: usize, first: bool, any: bool) -> (r: bool)
    requires
        start <= end <= path@.len(),
    ensures
        (final(out)@, r) == close(old(out)@, path@.subrange(start as int, end as int), first, any),
{
    let ghost cur = path@.subrange(start as int, end as int);
    let dot = end - start == 1 && path.get_char(start) == '.';
    assert(dot <==> cur == seq!['.']) by {
        if end - start == 1 {
            assert(cur.len() == 1 && cur[0] == path@[start as int]);
            if cur == seq!['.'] {
                assert(cur[0] == '.');
            }
            if path@[start as int] == '.' {
                assert(cur =~= seq!['.']);
            }
        } else if cur == seq!['.'] {
            assert(cur.len() == 1);
        }
    }
    if end > start && (!dot || first) {
        if any {
            out.append("/");
            proof {
                reveal_strlit("/");
                assert("/"@ =~= seq!['/']);
            }
        }
        out.append(path.substring_char(start, end));
        true
    } else {
        any
    }
}

/// The key of `path`.
pub fn key_of(path: &str) -> (r: String)
    ensures
        r@ == path_key(path@),
{
    let len = path.unicode_len();
    let mut out = String::new();
    let mut start: usize = 0;
    let mut seen = false;
    let mut any = false;
    let mut i: usize = 0;
    while i < len
        invariant
            len == path@.len(),
            i <= len,
            (out@, start as int, seen, any) == scan(path@, i as int),
        decreases len - i,
    {
        proof {
            lemma_scan_start(path@, i as int);
        }
        let c = path.get_char(i);
        if c == '/' {
            let rooted = !seen && start == i;
            let added = close_segment(&mut out, path, start, i, !seen, any);
            if rooted {
                out = "/".to_owned();
                proof {
                    reveal_strlit("/");
                    assert("/"@ =~= seq!['/']);
                }
            }
            any = added;
            seen = true;
            start = i + 1;
        }
        i = i + 1;
    }
    proof {
        lemma_scan_start(path@, i as int);
    }
    close_segment(&mut out, path, start, len, !seen, any);
    out
}

} // verus!
