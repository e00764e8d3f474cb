//! How a namespace and a resource name become a location under the data root.
use vstd::prelude::*;
use vstd::string::StrSliceExecFns;
use vstd::string::StringExecFns;

verus! {

/// The separator that stands between the segments of a location.
pub open spec fn separator() -> char {
    '/'
}

/// A namespace character as it appears in a location: each `.` becomes a separator.
pub open spec fn segment_char(c: char) -> char {
    if c == '.' {
        separator()
    } else {
        c
    }
}

/// The namespace with every `.` replaced by a separator, every other character kept.
pub open spec fn dots_to_separators(ns: Seq<char>) -> Seq<char> {
    ns.map_values(|c: char| segment_char(c))
}

/// Appends a relative segment to a base location, with exactly one separator
/// between them unless the base already ends in one (or is empty).
pub open spec fn join(base: Seq<char>, seg: Seq<char>) -> Seq<char> {
    if base.len() == 0 || base.last() == separator() {
        base + seg
    } else {
        base + seq![separator()] + seg
    }
}

/// The name of the directory under the data root that holds every bucket.
pub open spec fn store_dir_name() -> Seq<char> {
    seq!['b', 'u', 'c', 'k', 'e', 't']
}

/// The location of the bucket with namespace `ns` under the data root `root`.
pub open spec fn location_of(root: Seq<char>, ns: Seq<char>) -> Seq<char> {
    join(join(root, store_dir_name()), dots_to_separators(ns))
}

/// The location of resource `name` in the bucket with namespace `ns`.
pub open spec fn resource_location_of(root: Seq<char>, ns: Seq<char>, name: Seq<char>) -> Seq<char> {
    join(location_of(root, ns), name)
}

/// Copies `ns`, replacing each `.` with a separator.
pub fn replace_dots(ns: &str) -> (r: String)
    ensures
        r@ == dots_to_separators(ns@),
{
    let n = ns.unicode_len();
    let mut out = String::new();
    let mut i: usize = 0;
    proof {
        reveal_strlit("/");
    }
    while i < n
        invariant
            n == ns@.len(),
            i <= n,
            out@ == dots_to_separators(ns@.subrange(0, i as int)),
            "/"@ == seq![separator()],
        decreases n - i,
    {
        let c = ns.get_char(i);
        if c == '.' {
            out.append("/");
        } else {
            out.append(ns.substring_char(i, i + 1));
        }
        proof {
            assert(ns@.subrange(0, i + 1) =~= ns@.subrange(0, i as int).push(c));
            assert(ns@.subrange(i as int, i + 1) =~= seq![c]);
        }
        i = i + 1;
    }
    assert(ns@.subrange(0, n as int) =~= ns@);
    out
}

/// Appends `seg` to `base` as a relative segment, as `join` describes.
pub fn join_segment(base: &str, seg: &str) -> (r: String)
    ensures
        r@ == join(base@, seg@),
{
    let n = base.unicode_len();
    let mut out = String::from_str(base);
    proof {
        reveal_strlit("/");
    }
    if n > 0 && base.get_char(n - 1) != '/' {
        out.append("/");
    }
    out.append(seg);
    out
}


/// Joining a fixed base to two segments gives equal results only for equal segments.
proof fn lemma_join_cancel(base: Seq<char>, a: Seq<char>, b: Seq<char>)
    requires
        join(base, a) == join(base, b),
    ensures
        a == b,
{
    let p = if base.len() == 0 || base.last() == separator() {
        base
    } else {
        base + seq![separator()]
    };
    assert(join(base, a) == p + a);
    assert(join(base, b) == p + b);
    assert(a =~= (p + a).subrange(p.len() as int, (p + a).len() as int));
    assert(b =~= (p + b).subrange(p.len() as int, (p + b).len() as int));
}

/// The location of a namespace depends on the namespace and the data root alone,
/// and two namespaces that hold no separator of their own lead to the same
/// location under one data root exactly when they are the same namespace.
pub proof fn lemma_location_injective(root: Seq<char>, n1: Seq<char>, n2: Seq<char>)
    requires
        !n1.contains(separator()),
        !n2.contains(separator()),
    ensures
        location_of(root, n1) == location_of(root, n2) <==> n1 == n2,
{
    if location_of(root, n1) == location_of(root, n2) {
        let base = join(root, store_dir_name());
        lemma_join_cancel(base, dots_to_separators(n1), dots_to_separators(n2));
        let m1 = dots_to_separators(n1);
        let m2 = dots_to_separators(n2);
        assert(n1.len() == m1.len() && n2.len() == m2.len());
        assert forall|i: int| 0 <= i < n1.len() implies n1[i] == n2[i] by {
            assert(m1[i] == segment_char(n1[i]));
            assert(m2[i] == segment_char(n2[i]));
            if n1[i] != n2[i] {
                if n1[i] == '.' {
                    assert(n2.contains(n2[i]));
                } else if n2[i] == '.' {
                    assert(n1.contains(n1[i]));
                }
            }
        }
        assert(n1 =~= n2);
    }
}

} // verus!
