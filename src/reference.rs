use vstd::prelude::*;

verus! {

/// True when `s` can stand as one of the three leading locator segments:
/// present and free of the separator.
pub open spec fn is_segment(s: Seq<char>) -> bool {
    s.len() > 0 && !s.contains('/')
}

/// The locator text that names the four parts.
pub open spec fn locator_of(
    namespace: Seq<char>,
    database: Seq<char>,
    bucket: Seq<char>,
    path: Seq<char>,
) -> Seq<char> {
    namespace + seq!['/'] + database + seq!['/'] + bucket + seq!['/'] + path
}

/// The four parts form a valid reference: three plain segments and a
/// non-empty path, which may itself contain separators.
pub open spec fn parts_valid(
    namespace: Seq<char>,
    database: Seq<char>,
    bucket: Seq<char>,
    path: Seq<char>,
) -> bool {
    is_segment(namespace) && is_segment(database) && is_segment(bucket) && path.len() > 0
}

/// True when `s` is the locator of some valid reference.
pub open spec fn is_locator(s: Seq<char>) -> bool {
    exists|a: Seq<char>, b: Seq<char>, c: Seq<char>, d: Seq<char>|
        parts_valid(a, b, c, d) && #[trigger] locator_of(a, b, c, d) == s
}

/// The mathematical value of a reference.
pub struct ReferenceView {
    pub namespace: Seq<char>,
    pub database: Seq<char>,
    pub bucket: Seq<char>,
    pub path: Seq<char>,
}

impl ReferenceView {
    pub open spec fn valid(self) -> bool {
        parts_valid(self.namespace, self.database, self.bucket, self.path)
    }

    pub open spec fn locator(self) -> Seq<char> {
        locator_of(self.namespace, self.database, self.bucket, self.path)
    }
}

/// Names one stored object. Built only by `resolve`, so always valid.
pub struct ObjectReference {
    namespace: String,
    database: String,
    bucket: String,
    path: String,
}

impl View for ObjectReference {
    type V = ReferenceView;

    closed spec fn view(&self) -> ReferenceView {
        ReferenceView {
            namespace: self.namespace@,
            database: self.database@,
            bucket: self.bucket@,
            path: self.path@,
        }
    }
}

/// The locator lacks one of its four parts.
#[derive(Debug, Clone, Copy, PartialEq, Eq, Structural)]
pub struct MalformedReference;

impl MalformedReference {
    /// The response status for a locator that names no object: not found, as
    /// for a request that matches no route.
    pub fn status(&self) -> (r: u16)
        ensures
            r == 404,
    {
        404
    }
}

impl ObjectReference {
    pub fn namespace(&self) -> (r: &str)
        ensures
            r@ == self@.namespace,
    {
        self.namespace.as_str()
    }

    pub fn database(&self) -> (r: &str)
        ensures
            r@ == self@.database,
    {
        self.database.as_str()
    }

    pub fn bucket(&self) -> (r: &str)
        ensures
            r@ == self@.bucket,
    {
        self.bucket.as_str()
    }

    pub fn path(&self) -> (r: &str)
        ensures
            r@ == self@.path,
    {
        self.path.as_str()
    }
}

/// The first separator at or after `from`, if any.
fn find_separator(s: &str, from: usize) -> (r: Option<usize>)
    requires
        from <= s@.len(),
    ensures
        match r {
            Some(k) => from <= k < s@.len() && s@[k as int] == '/' && forall|j: int|
                from <= j < k ==> s@[j] != '/',
            None => forall|j: int| from <= j < s@.len() ==> s@[j] != '/',
        },
{
    let n = s.unicode_len();
    let mut i: usize = from;
    while i < n
        invariant
            n == s@.len(),
            from <= i <= n,
            forall|j: int| from <= j < i ==> s@[j] != '/',
        decreases n - i,
    {
        if s.get_char(i) == '/' {
            return Some(i);
        }
        i = i + 1;
    }
    None
}

/// Where the separators of a locator stand: after each of the three
/// leading segments, and nowhere inside them.
pub(crate) proof fn lemma_separators(a: Seq<char>, b: Seq<char>, c: Seq<char>, d: Seq<char>)
    requires
        parts_valid(a, b, c, d),
    ensures
        ({
            let s = locator_of(a, b, c, d);
            let k1 = a.len() as int;
            let k2 = k1 + 1 + b.len();
            let k3 = k2 + 1 + c.len();
            &&& s.len() == k3 + 1 + d.len()
            &&& s[k1] == '/' && s[k2] == '/' && s[k3] == '/'
            &&& forall|j: int| 0 <= j < k1 ==> s[j] != '/'
            &&& forall|j: int| k1 < j < k2 ==> s[j] != '/'
            &&& forall|j: int| k2 < j < k3 ==> s[j] != '/'
            &&& s.subrange(0, k1) == a
            &&& s.subrange(k1 + 1, k2) == b
            &&& s.subrange(k2 + 1, k3) == c
            &&& s.subrange(k3 + 1, s.len() as int) == d
        }),
{
    let s = locator_of(a, b, c, d);
    let k1 = a.len() as int;
    let k2 = k1 + 1 + b.len();
    let k3 = k2 + 1 + c.len();
    assert forall|j: int| 0 <= j < k1 implies s[j] != '/' by {
        assert(s[j] == a[j]);
        assert(a.contains(a[j]));
    }
    assert forall|j: int| k1 < j < k2 implies s[j] != '/' by {
        assert(s[j] == b[j - k1 - 1]);
        assert(b.contains(b[j - k1 - 1]));
    }
    assert forall|j: int| k2 < j < k3 implies s[j] != '/' by {
        assert(s[j] == c[j - k2 - 1]);
        assert(c.contains(c[j - k2 - 1]));
    }
    assert(s.subrange(0, k1) =~= a);
    assert(s.subrange(k1 + 1, k2) =~= b);
    assert(s.subrange(k2 + 1, k3) =~= c);
    assert(s.subrange(k3 + 1, s.len() as int) =~= d);
}

/// A segment found between two consecutive separators holds none.
proof fn lemma_segment(s: Seq<char>, lo: int, hi: int)
    requires
        0 <= lo < hi <= s.len(),
        forall|j: int| lo <= j < hi ==> s[j] != '/',
    ensures
        is_segment(s.subrange(lo, hi)),
{
    let t = s.subrange(lo, hi);
    assert forall|x: char| t.contains(x) implies x != '/' by {
        let i = choose|i: int| 0 <= i < t.len() && t[i] == x;
        assert(t[i] == s[lo + i]);
    }
}

/// Splits a locator `namespace/database/bucket/path` into its parts. The
/// first three are the text up to each of the first three separators; the
/// path is all that follows the third and may contain separators. Fails
/// exactly when the text is no locator: fewer than three separators, an
/// empty leading segment, or an empty path.
pub fn resolve(locator: &str) -> (r: Result<ObjectReference, MalformedReference>)
    ensures
        match r {
            Ok(o) => o@.valid() && o@.locator() == locator@,
            Err(_) => !is_locator(locator@),
        },
{
    let s = locator;
    let n = s.unicode_len();
    let k1 = find_separator(s, 0);
    let k2 = match k1 {
        Some(k) => find_separator(s, k + 1),
        None => None,
    };
    let k3 = match k2 {
        Some(k) => find_separator(s, k + 1),
        None => None,
    };
    match (k1, k2, k3) {
        (Some(i1), Some(i2), Some(i3)) => {
            if i1 > 0 && i2 > i1 + 1 && i3 > i2 + 1 && i3 + 1 < n {
                let ns = s.substring_char(0, i1).to_owned();
                let db = s.substring_char(i1 + 1, i2).to_owned();
                let bk = s.substring_char(i2 + 1, i3).to_owned();
                let p = s.substring_char(i3 + 1, n).to_owned();
                proof {
                    lemma_segment(s@, 0, i1 as int);
                    lemma_segment(s@, i1 + 1, i2 as int);
                    lemma_segment(s@, i2 + 1, i3 as int);
                    assert(locator_of(ns@, db@, bk@, p@) =~= s@);
                }
                let o = ObjectReference { namespace: ns, database: db, bucket: bk, path: p };
                return Ok(o);
            }
        },
        _ => {},
    }
    proof {
        assert forall|a: Seq<char>, b: Seq<char>, c: Seq<char>, d: Seq<char>|
            parts_valid(a, b, c, d) implies #[trigger] locator_of(a, b, c, d) != s@ by {
            if locator_of(a, b, c, d) == s@ {
                lemma_separators(a, b, c, d);
                let j1 = a.len() as int;
                let j2 = j1 + 1 + b.len();
                let j3 = j2 + 1 + c.len();
                assert(k1 == Some(j1 as usize));
                assert(k2 == Some(j2 as usize));
                assert(k3 == Some(j3 as usize));
            }
        }
    }
    Err(MalformedReference)
}

} // verus!
