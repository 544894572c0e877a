//! Path-segment handling shared by both resolvers: joining segments under a
//! root, the `.json` extension policy for fixtures, file-name extensions, and
//! the traversal guard on segments.

use vstd::prelude::*;
use vstd::string::StrSliceExecFns;
use vstd::string::StringExecFns;

verus! {

/// The path separator, as a sequence of one character.
pub open spec fn slash() -> Seq<char> {
    "/"@
}

/// A path made of a root followed by `/`-prefixed segments:
/// `joined([a, b]) == "/a/b"` as character sequences.
pub open spec fn joined(segs: Seq<Seq<char>>) -> Seq<char>
    decreases segs.len(),
{
    if segs.len() == 0 {
        Seq::empty()
    } else {
        joined(segs.drop_last()) + slash() + segs.last()
    }
}

/// A path segment the resolvers accept: non-empty, not a `.` or `..`
/// traversal step, and free of separators and NUL. Rejecting `..` keeps every
/// resolved path inside the configured root.
pub open spec fn segment_ok(s: Seq<char>) -> bool {
    &&& s.len() > 0
    &&& !(s.len() == 1 && s[0] == '.')
    &&& !(s.len() == 2 && s[0] == '.' && s[1] == '.')
    &&& forall|i: int| 0 <= i < s.len() ==> s[i] != '/' && s[i] != '\u{0}'
}

/// Every segment of the path passes the guard.
pub open spec fn segments_ok(segs: Seq<Seq<char>>) -> bool {
    forall|i: int| 0 <= i < segs.len() ==> segment_ok(#[trigger] segs[i])
}

/// The position of the last `.` in a file name, if any.
pub open spec fn last_dot(s: Seq<char>) -> Option<int>
    decreases s.len(),
{
    if s.len() == 0 {
        None
    } else if s[s.len() - 1] == '.' {
        Some(s.len() - 1)
    } else {
        last_dot(s.drop_last())
    }
}

/// A file name without its extension. A leading dot alone (a hidden file such
/// as `.gitignore`) does not begin an extension.
pub open spec fn stem(s: Seq<char>) -> Seq<char> {
    match last_dot(s) {
        Some(i) => if i > 0 {
            s.subrange(0, i)
        } else {
            s
        },
        None => s,
    }
}

/// A file name's extension: what follows the last dot, empty when the name
/// has none (or only a leading dot).
pub open spec fn extension_of(s: Seq<char>) -> Seq<char> {
    match last_dot(s) {
        Some(i) => if i > 0 {
            s.subrange(i + 1, s.len() as int)
        } else {
            Seq::empty()
        },
        None => Seq::empty(),
    }
}

/// The fixture file named by a request's final segment: its extension is set
/// to `json`, replacing whatever extension the segment carried. This is the
/// one resolution policy the crate supports; no extensionless fallback is
/// ever tried.
pub open spec fn fixture_file_name(s: Seq<char>) -> Seq<char> {
    stem(s) + ".json"@
}

/// The last dot of a name sits inside it.
pub proof fn lemma_last_dot_in_range(s: Seq<char>)
    ensures
        match last_dot(s) {
            Some(i) => 0 <= i < s.len() && s[i] == '.',
            None => true,
        },
    decreases s.len(),
{
    if s.len() == 0 {
    } else if s[s.len() - 1] == '.' {
    } else {
        lemma_last_dot_in_range(s.drop_last());
    }
}

/// Character-by-character string equality, decided without assumptions about
/// either argument.
pub fn str_eq(a: &str, b: &str) -> (r: bool)
    ensures
        r == (a@ == b@),
{
    let n = a.unicode_len();
    let m = b.unicode_len();
    if n != m {
        proof {
            assert(a@.len() != b@.len());
        }
        return false;
    }
    let mut i: usize = 0;
    while i < n
        invariant
            i <= n,
            n == a@.len(),
            n == b@.len(),
            forall|k: int| 0 <= k < i ==> a@[k] == b@[k],
        decreases n - i,
    {
        if a.get_char(i) != b.get_char(i) {
            return false;
        }
        i = i + 1;
    }
    proof {
        assert(a@ =~= b@);
    }
    true
}

/// Finds the position of the last `.` of a name, agreeing with [`last_dot`].
pub fn find_last_dot(s: &str) -> (r: Option<usize>)
    ensures
        match r {
            Some(i) => last_dot(s@) == Some(i as int),
            None => last_dot(s@) is None,
        },
{
    let n = s.unicode_len();
    let mut i: usize = n;
    proof {
        assert(s@.take(n as int) =~= s@);
    }
    while i > 0
        invariant
            i <= n,
            n == s@.len(),
            last_dot(s@) == last_dot(s@.take(i as int)),
        decreases i,
    {
        let c = s.get_char(i - 1);
        if c == '.' {
            proof {
                assert(s@.take(i as int).len() == i as int);
                assert(s@.take(i as int)[i - 1] == '.');
            }
            return Some(i - 1);
        }
        proof {
            assert(s@.take(i as int).drop_last() =~= s@.take(i as int - 1));
            assert(s@.take(i as int).last() == s@[i as int - 1]);
        }
        i = i - 1;
    }
    proof {
        assert(s@.take(0).len() == 0);
    }
    None
}

/// Decides [`segment_ok`] for one segment.
pub fn check_segment(s: &str) -> (r: bool)
    ensures
        r == segment_ok(s@),
{
    let n = s.unicode_len();
    if n == 0 {
        return false;
    }
    if n == 1 && s.get_char(0) == '.' {
        return false;
    }
    if n == 2 && s.get_char(0) == '.' && s.get_char(1) == '.' {
        return false;
    }
    let mut i: usize = 0;
    while i < n
        invariant
            i <= n,
            n == s@.len(),
            forall|k: int| 0 <= k < i ==> s@[k] != '/' && s@[k] != '\u{0}',
            n > 0,
            !(n == 1 && s@[0] == '.'),
            !(n == 2 && s@[0] == '.' && s@[1] == '.'),
        decreases n - i,
    {
        let c = s.get_char(i);
        if c == '/' || c == '\u{0}' {
            return false;
        }
        i = i + 1;
    }
    true
}

/// Decides [`segments_ok`] for the segments of a path from position `from`
/// on.
pub fn check_segments_from(segs: &Vec<String>, from: usize) -> (r: bool)
    requires
        from <= segs@.len(),
    ensures
        r == segments_ok(segs.deep_view().skip(from as int)),
{
    let ghost dv: Seq<Seq<char>> = segs.deep_view();
    let ghost tail: Seq<Seq<char>> = dv.skip(from as int);
    let mut i: usize = from;
    while i < segs.len()
        invariant
            from <= i <= segs@.len(),
            dv == segs.deep_view(),
            tail == dv.skip(from as int),
            dv.len() == segs@.len(),
            forall|k: int| 0 <= k < i - from ==> segment_ok(#[trigger] tail[k]),
        decreases segs@.len() - i,
    {
        let ok = check_segment(segs[i].as_str());
        proof {
            assert(tail[i - from] == dv[i as int]);
        }
        if !ok {
            proof {
                assert(!segment_ok(tail[i - from]));
            }
            return false;
        }
        i = i + 1;
    }
    proof {
        assert(forall|j: int| 0 <= j < tail.len() ==> segment_ok(#[trigger] tail[j]));
    }
    true
}

/// Appends `/`-prefixed segments `from..to` onto a root path, realizing
/// [`joined`] over that range.
pub fn push_segments(out: &mut String, segs: &Vec<String>, from: usize, to: usize)
    requires
        from <= to <= segs@.len(),
    ensures
        final(out)@ == old(out)@ + joined(segs.deep_view().subrange(from as int, to as int)),
{
    let ghost orig: Seq<char> = out@;
    let ghost dv: Seq<Seq<char>> = segs.deep_view();
    proof {
        assert(orig + joined(dv.subrange(from as int, from as int)) =~= orig);
    }
    let mut i: usize = from;
    while i < to
        invariant
            from <= i <= to <= segs@.len(),
            dv == segs.deep_view(),
            dv.len() == segs@.len(),
            out@ == orig + joined(dv.subrange(from as int, i as int)),
        decreases to - i,
    {
        out.append("/");
        out.append(segs[i].as_str());
        proof {
            let prefix = dv.subrange(from as int, i as int);
            let longer = dv.subrange(from as int, i as int + 1);
            assert(longer.drop_last() =~= prefix);
            assert(longer.last() == dv[i as int]);
            assert(out@ =~= orig + joined(longer));
        }
        i = i + 1;
    }
}

/// Builds the fixture file name for a final segment, realizing
/// [`fixture_file_name`].
pub fn fixture_file_name_exec(seg: &str) -> (r: String)
    ensures
        r@ == fixture_file_name(seg@),
{
    proof {
        lemma_last_dot_in_range(seg@);
    }
    let stem_str = match find_last_dot(seg) {
        Some(i) => if i > 0 {
            seg.substring_char(0, i)
        } else {
            seg
        },
        None => seg,
    };
    String::from_str(stem_str).concat(".json")
}

} // verus!
