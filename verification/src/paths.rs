//! Rules on the relative paths of archive entries: which paths name
//! sensitive files, and which stay inside the directory they are resolved
//! against.

use vstd::prelude::*;
use crate::text::{chars_of, contains, has_infix, occurs_at};

verus! {

/// The marker of the vault file.
pub open spec fn secret_marker() -> Seq<char> {
    ".webdav_secret"@
}

/// The marker of credential files.
pub open spec fn credentials_marker() -> Seq<char> {
    ".credentials"@
}

/// `path` holds one of the two markers of sensitive files.
pub open spec fn is_sensitive(path: Seq<char>) -> bool {
    contains(path, secret_marker()) || contains(path, credentials_marker())
}

/// The length of the first segment of `path`: the characters in front of
/// its first slash.
pub open spec fn segment_len(path: Seq<char>) -> nat
    decreases path.len(),
{
    if path.len() == 0 || path[0] == '/' {
        0
    } else {
        1 + segment_len(path.drop_first())
    }
}

/// How deep below the starting directory one stands after the segment
/// `segment`, having stood `depth` below it; `None` where the segment leads
/// above the starting directory. An empty segment and `.` stay, `..` goes
/// up, any other segment goes down.
pub open spec fn step(segment: Seq<char>, depth: nat) -> Option<nat> {
    if segment.len() == 0 || segment == seq!['.'] {
        Some(depth)
    } else if segment == seq!['.', '.'] {
        if depth == 0 {
            None
        } else {
            Some((depth - 1) as nat)
        }
    } else {
        Some(depth + 1)
    }
}

/// Walking the segments of `path` from `depth` below the starting directory
/// never leads above it.
pub open spec fn descends(path: Seq<char>, depth: nat) -> bool
    decreases path.len(),
{
    let n = segment_len(path);
    match step(path.take(n as int), depth) {
        None => false,
        Some(next) => if n >= path.len() {
            true
        } else {
            descends(path.skip(n as int + 1), next)
        },
    }
}

/// `path` holds no NUL character.
pub open spec fn no_nul(path: Seq<char>) -> bool {
    forall|i: int| 0 <= i < path.len() ==> #[trigger] path[i] != '\0'
}

/// `path`, resolved against a directory, stays inside it: it holds no NUL,
/// does not begin at the root, and at no point of the walk along its
/// segments stands above the directory.
pub open spec fn stays_inside(path: Seq<char>) -> bool {
    &&& no_nul(path)
    &&& !(path.len() > 0 && path[0] == '/')
    &&& descends(path, 0)
}

proof fn segment_len_bounds(path: Seq<char>)
    ensures
        segment_len(path) <= path.len(),
        forall|i: int| 0 <= i < segment_len(path) ==> #[trigger] path[i] != '/',
        segment_len(path) < path.len() ==> path[segment_len(path) as int] == '/',
    decreases path.len(),
{
    if path.len() > 0 && path[0] != '/' {
        let rest = path.drop_first();
        segment_len_bounds(rest);
        assert forall|i: int| 0 <= i < segment_len(path) implies #[trigger] path[i] != '/' by {
            if i > 0 {
                assert(rest[i - 1] == path[i]);
            }
        }
    }
}

proof fn segment_len_is_first_slash(path: Seq<char>, n: int)
    requires
        0 <= n <= path.len(),
        forall|i: int| 0 <= i < n ==> #[trigger] path[i] != '/',
        n == path.len() || path[n] == '/',
    ensures
        segment_len(path) == n,
{
    segment_len_bounds(path);
    let m = segment_len(path) as int;
    if m < n {
        assert(path[m] != '/');
    } else if m > n {
        assert(path[n] != '/');
    }
}

/// A path without slash and NUL that is neither `..` nor empty of
/// characters stays inside.
pub proof fn single_segment_stays_inside(path: Seq<char>)
    requires
        no_nul(path),
        forall|i: int| 0 <= i < path.len() ==> #[trigger] path[i] != '/',
        path != seq!['.', '.'],
    ensures
        stays_inside(path),
{
    segment_len_is_first_slash(path, path.len() as int);
    assert(path.take(path.len() as int) =~= path);
}

/// A slash behind a path changes nothing about where the walk along it
/// leads.
pub proof fn trailing_slash_descends(path: Seq<char>, depth: nat)
    requires
        descends(path, depth),
    ensures
        descends(path.push('/'), depth),
    decreases path.len(),
{
    let longer = path.push('/');
    let n = segment_len(path);
    segment_len_bounds(path);
    assert forall|i: int| 0 <= i < n implies #[trigger] longer[i] != '/' by {
        assert(longer[i] == path[i]);
    }
    segment_len_is_first_slash(longer, n as int);
    assert(longer.take(n as int) =~= path.take(n as int));
    assert(step(path.take(n as int), depth) is Some);
    let next = step(path.take(n as int), depth)->Some_0;
    assert(segment_len(longer) == n);
    assert(n < longer.len());
    if n >= path.len() {
        let rest = longer.skip(n as int + 1);
        assert(rest =~= Seq::<char>::empty());
        assert(segment_len(rest) == 0);
        assert(rest.take(0) =~= Seq::<char>::empty());
        assert(step(rest.take(0), next) == Some(next));
        assert(descends(rest, next));
        assert(descends(longer, depth));
    } else {
        assert(longer.skip(n as int + 1) =~= path.skip(n as int + 1).push('/'));
        assert(descends(path.skip(n as int + 1), next));
        trailing_slash_descends(path.skip(n as int + 1), next);
        assert(descends(longer.skip(n as int + 1), next));
        assert(descends(longer, depth));
    }
}

/// A path that stays inside and is not empty still stays inside with a
/// slash behind it.
pub proof fn trailing_slash_stays_inside(path: Seq<char>)
    requires
        stays_inside(path),
        path.len() > 0,
    ensures
        stays_inside(path.push('/')),
{
    trailing_slash_descends(path, 0);
    assert(path.push('/')[0] == path[0]);
    assert forall|i: int| 0 <= i < path.push('/').len() implies #[trigger] path.push('/')[i]
        != '\0' by {
        if i < path.len() {
            assert(path.push('/')[i] == path[i]);
        }
    }
}

/// A slash behind a path that is not sensitive does not make it sensitive.
pub proof fn trailing_slash_not_sensitive(path: Seq<char>)
    requires
        !is_sensitive(path),
    ensures
        !is_sensitive(path.push('/')),
{
    reveal_strlit(".webdav_secret");
    reveal_strlit(".credentials");
    let longer = path.push('/');
    assert forall|i: int| !occurs_at(longer, secret_marker(), i) by {
        if occurs_at(longer, secret_marker(), i) {
            let m = secret_marker();
            if i + m.len() <= path.len() {
                assert(path.subrange(i, i + m.len()) =~= longer.subrange(i, i + m.len()));
                assert(occurs_at(path, m, i));
            } else {
                assert(longer.subrange(i, i + m.len())[m.len() - 1] == '/');
            }
        }
    }
    assert forall|i: int| !occurs_at(longer, credentials_marker(), i) by {
        if occurs_at(longer, credentials_marker(), i) {
            let m = credentials_marker();
            if i + m.len() <= path.len() {
                assert(path.subrange(i, i + m.len()) =~= longer.subrange(i, i + m.len()));
                assert(occurs_at(path, m, i));
            } else {
                assert(longer.subrange(i, i + m.len())[m.len() - 1] == '/');
            }
        }
    }
}

/// Whether `path` holds one of the two markers of sensitive files.
pub fn names_sensitive_file(path: &Vec<char>) -> (found: bool)
    ensures
        found == is_sensitive(path@),
{
    let secret = chars_of(".webdav_secret");
    let credentials = chars_of(".credentials");
    has_infix(path, &secret) || has_infix(path, &credentials)
}

/// Whether `path`, resolved against a directory, stays inside it.
pub fn is_enclosed(path: &Vec<char>) -> (inside: bool)
    ensures
        inside == stays_inside(path@),
{
    let mut k: usize = 0;
    while k < path.len()
        invariant
            k <= path.len(),
            forall|i: int| 0 <= i < k ==> #[trigger] path@[i] != '\0',
        decreases path.len() - k,
    {
        if path[k] == '\0' {
            return false;
        }
        k += 1;
    }
    if path.len() > 0 && path[0] == '/' {
        return false;
    }
    let mut start: usize = 0;
    let mut depth: usize = 0;
    assert(path@.skip(0) =~= path@);
    loop
        invariant
            start <= path.len(),
            depth <= start,
            no_nul(path@),
            !(path@.len() > 0 && path@[0] == '/'),
            descends(path@, 0) == descends(path@.skip(start as int), depth as nat),
        decreases path.len() - start,
    {
        let mut end: usize = start;
        while end < path.len() && path[end] != '/'
            invariant
                start <= end <= path.len(),
                forall|i: int| start <= i < end ==> #[trigger] path@[i] != '/',
            decreases path.len() - end,
        {
            end += 1;
        }
        let ghost rest = path@.skip(start as int);
        let ghost segment = rest.take(end - start);
        proof {
            assert forall|i: int| 0 <= i < end - start implies #[trigger] rest[i] != '/' by {
                assert(rest[i] == path@[start + i]);
            }
            segment_len_is_first_slash(rest, end - start);
            assert(segment.len() == end - start);
            if end - start >= 1 {
                assert(segment[0] == path@[start as int]);
            }
            if end - start >= 2 {
                assert(segment[1] == path@[start + 1]);
            }
        }
        let len: usize = end - start;
        let is_dot = len == 1 && path[start] == '.';
        let is_dots = len == 2 && path[start] == '.' && path[start + 1] == '.';
        proof {
            assert(is_dot == (segment == seq!['.'])) by {
                if is_dot {
                    assert(segment =~= seq!['.']);
                }
            }
            assert(is_dots == (segment == seq!['.', '.'])) by {
                if is_dots {
                    assert(segment =~= seq!['.', '.']);
                }
            }
        }
        if len == 0 || is_dot {
        } else if is_dots {
            if depth == 0 {
                return false;
            }
            depth -= 1;
        } else {
            depth += 1;
        }
        if end >= path.len() {
            return true;
        }
        proof {
            assert(rest.skip(end - start + 1) =~= path@.skip(end + 1));
        }
        start = end + 1;
    }
}

} // verus!
