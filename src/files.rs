use vstd::prelude::*;
use vstd::string::StrSliceExecFns;

verus! {

// ---------------------------------------------------------------------------
// Paths as text: '/'-separated segments, where empty segments and "." add
// nothing (as in the components of a path).
// ---------------------------------------------------------------------------

/// A segment that names something: neither empty nor ".".
pub open spec fn is_kept(seg: Seq<char>) -> bool {
    seg.len() > 0 && seg != seq!['.']
}

pub open spec fn flush(done: Seq<Seq<char>>, cur: Seq<char>) -> Seq<Seq<char>> {
    if is_kept(cur) {
        done.push(cur)
    } else {
        done
    }
}

/// The segments finished so far and the one being read, after reading `p`.
pub open spec fn scan(p: Seq<char>) -> (Seq<Seq<char>>, Seq<char>)
    decreases p.len(),
{
    if p.len() == 0 {
        (Seq::empty(), Seq::empty())
    } else {
        let (done, cur) = scan(p.drop_last());
        if p.last() == '/' {
            (flush(done, cur), Seq::empty())
        } else {
            (done, cur.push(p.last()))
        }
    }
}

/// The segments of a path.
pub open spec fn path_segments(p: Seq<char>) -> Seq<Seq<char>> {
    flush(scan(p).0, scan(p).1)
}

/// `/a/b/c` from `[a, b, c]` (empty for no segment).
pub open spec fn slash_join(segs: Seq<Seq<char>>) -> Seq<char>
    decreases segs.len(),
{
    if segs.len() == 0 {
        Seq::empty()
    } else {
        slash_join(segs.drop_last()) + seq!['/'] + segs.last()
    }
}

/// The absolute path of these segments.
pub open spec fn absolute_path(segs: Seq<Seq<char>>) -> Seq<char> {
    if segs.len() == 0 {
        seq!['/']
    } else {
        slash_join(segs)
    }
}

/// The relative path of these segments: `a/b/c`, or empty.
pub open spec fn relative_path(segs: Seq<Seq<char>>) -> Seq<char> {
    if segs.len() == 0 {
        Seq::empty()
    } else {
        slash_join(segs).drop_first()
    }
}

pub open spec fn is_parent_segment(seg: Seq<char>) -> bool {
    seg == seq!['.', '.']
}

/// A segment that stays where it is: it names an entry, not its parent.
pub open spec fn is_name_segment(seg: Seq<char>) -> bool {
    is_kept(seg) && !is_parent_segment(seg) && !seg.contains('/')
}

/// An absolute path in its one canonical spelling, with no `..`.
pub open spec fn is_canonical(p: Seq<char>) -> bool {
    &&& p == absolute_path(path_segments(p))
    &&& forall|i: int| 0 <= i < path_segments(p).len() ==> !is_parent_segment(#[trigger] path_segments(p)[i])
}

/// `base` joined with `req` as text: an absolute `req` replaces `base`.
pub open spec fn joined_path(base: Seq<char>, req: Seq<char>) -> Seq<char> {
    if req.len() > 0 && req[0] == '/' {
        req
    } else if base.len() == 0 {
        req
    } else if base.last() == '/' {
        base + req
    } else {
        base + seq!['/'] + req
    }
}

/// The directory that holds the last segment of `p`, if `p` has one.
pub open spec fn parent_of(p: Seq<char>) -> Option<Seq<char>> {
    if path_segments(p).len() == 0 {
        None
    } else {
        Some(absolute_path(path_segments(p).drop_last()))
    }
}

pub open spec fn segs_view(segs: Seq<Vec<char>>) -> Seq<Seq<char>> {
    segs.map_values(|v: Vec<char>| v@)
}

/// Relies on `String::push`: appends one character.
#[verifier::external_body]
fn push_char(s: &mut String, c: char)
    ensures
        final(s)@ == old(s)@.push(c),
{
    s.push(c)
}

pub(crate) fn chars_of(s: &str) -> (r: Vec<char>)
    ensures
        r@ == s@,
{
    let n = s.unicode_len();
    let mut r: Vec<char> = Vec::new();
    let mut i: usize = 0;
    while i < n
        invariant
            n == s@.len(),
            i <= n,
            r@ == s@.take(i as int),
        decreases n - i,
    {
        r.push(s.get_char(i));
        i += 1;
        assert(r@ =~= s@.take(i as int));
    }
    assert(r@ =~= s@);
    r
}

pub(crate) fn string_of(cs: &Vec<char>) -> (r: String)
    ensures
        r@ == cs@,
{
    let mut r = String::new();
    let mut i: usize = 0;
    while i < cs.len()
        invariant
            i <= cs@.len(),
            r@ == cs@.take(i as int),
        decreases cs@.len() - i,
    {
        push_char(&mut r, cs[i]);
        i += 1;
        assert(r@ =~= cs@.take(i as int));
    }
    assert(r@ =~= cs@);
    r
}

fn chars_eq(a: &Vec<char>, b: &Vec<char>) -> (r: bool)
    ensures
        r == (a@ == b@),
{
    if a.len() != b.len() {
        return false;
    }
    let mut i: usize = 0;
    while i < a.len()
        invariant
            a@.len() == b@.len(),
            i <= a@.len(),
            a@.take(i as int) == b@.take(i as int),
        decreases a@.len() - i,
    {
        if a[i] != b[i] {
            assert(a@.take(i + 1)[i as int] != b@.take(i + 1)[i as int]);
            return false;
        }
        i += 1;
        assert(a@.take(i as int) =~= b@.take(i as int));
    }
    assert(a@ =~= a@.take(i as int));
    assert(b@ =~= b@.take(i as int));
    true
}

fn kept(seg: &Vec<char>) -> (r: bool)
    ensures
        r == is_kept(seg@),
{
    if seg.len() == 0 {
        false
    } else if seg.len() == 1 && seg[0] == '.' {
        assert(seg@ =~= seq!['.']);
        false
    } else {
        assert(seg@.len() != 1 ==> seg@ != seq!['.']);
        true
    }
}

pub(crate) fn is_parent(seg: &Vec<char>) -> (r: bool)
    ensures
        r == is_parent_segment(seg@),
{
    if seg.len() == 2 && seg[0] == '.' && seg[1] == '.' {
        assert(seg@ =~= seq!['.', '.']);
        true
    } else {
        assert(seg@.len() != 2 ==> seg@ != seq!['.', '.']);
        false
    }
}

/// The segments of the path `p`.
pub(crate) fn segments_of(p: &Vec<char>) -> (r: Vec<Vec<char>>)
    ensures
        segs_view(r@) == path_segments(p@),
{
    let mut done: Vec<Vec<char>> = Vec::new();
    let mut cur: Vec<char> = Vec::new();
    let mut i: usize = 0;
    assert(p@.take(0) =~= Seq::<char>::empty());
    assert(segs_view(done@) =~= Seq::<Seq<char>>::empty());
    while i < p.len()
        invariant
            i <= p@.len(),
            (segs_view(done@), cur@) == scan(p@.take(i as int)),
        decreases p@.len() - i,
    {
        let c = p[i];
        assert(p@.take(i + 1).drop_last() =~= p@.take(i as int));
        assert(p@.take(i + 1).last() == c);
        if c == '/' {
            if kept(&cur) {
                let ghost before = done@;
                done.push(cur);
                assert(segs_view(done@) =~= segs_view(before).push(cur@));
            }
            cur = Vec::new();
        } else {
            cur.push(c);
        }
        i += 1;
    }
    assert(p@.take(i as int) =~= p@);
    if kept(&cur) {
        let ghost before = done@;
        done.push(cur);
        assert(segs_view(done@) =~= segs_view(before).push(cur@));
    }
    done
}

/// `/a/b/c` from the segments `a`, `b`, `c`.
fn slash_joined(segs: &Vec<Vec<char>>) -> (r: Vec<char>)
    ensures
        r@ == slash_join(segs_view(segs@)),
{
    let mut out: Vec<char> = Vec::new();
    let mut i: usize = 0;
    assert(segs_view(segs@).take(0) =~= Seq::<Seq<char>>::empty());
    while i < segs.len()
        invariant
            i <= segs@.len(),
            out@ == slash_join(segs_view(segs@).take(i as int)),
        decreases segs@.len() - i,
    {
        let seg = &segs[i];
        let ghost start = out@;
        out.push('/');
        let mut j: usize = 0;
        while j < seg.len()
            invariant
                j <= seg@.len(),
                out@ == start + seq!['/'] + seg@.take(j as int),
            decreases seg@.len() - j,
        {
            out.push(seg[j]);
            j += 1;
            assert(out@ =~= start + seq!['/'] + seg@.take(j as int));
        }
        assert(seg@.take(j as int) =~= seg@);
        assert(segs_view(segs@).take(i + 1).drop_last() =~= segs_view(segs@).take(i as int));
        i += 1;
    }
    assert(segs_view(segs@).take(i as int) =~= segs_view(segs@));
    out
}

fn absolute_of(segs: &Vec<Vec<char>>) -> (r: Vec<char>)
    ensures
        r@ == absolute_path(segs_view(segs@)),
{
    if segs.len() == 0 {
        let mut out: Vec<char> = Vec::new();
        out.push('/');
        assert(out@ =~= seq!['/']);
        out
    } else {
        slash_joined(segs)
    }
}

pub(crate) fn relative_of(segs: &Vec<Vec<char>>) -> (r: Vec<char>)
    ensures
        r@ == relative_path(segs_view(segs@)),
{
    let mut out = slash_joined(segs);
    if segs.len() > 0 {
        proof {
            let v = segs_view(segs@);
            assert(slash_join(v) == slash_join(v.drop_last()) + seq!['/'] + v.last());
            assert(slash_join(v).len() > 0);
        }
        out.remove(0);
        assert(out@ =~= slash_join(segs_view(segs@)).drop_first());
    }
    out
}

/// Every segment of a path names an entry or a parent, and holds no '/'.
proof fn lemma_scan_clean(p: Seq<char>)
    ensures
        forall|i: int| 0 <= i < scan(p).0.len() ==> is_kept(#[trigger] scan(p).0[i]) && !scan(p).0[i].contains('/'),
        !scan(p).1.contains('/'),
        forall|i: int| 0 <= i < path_segments(p).len() ==> is_kept(#[trigger] path_segments(p)[i]) && !path_segments(p)[i].contains('/'),
    decreases p.len(),
{
    if p.len() > 0 {
        lemma_scan_clean(p.drop_last());
        let (done, cur) = scan(p.drop_last());
        if p.last() != '/' {
            assert forall|c: char| cur.push(p.last()).contains(c) implies c != '/' by {
                let k = choose|k: int| 0 <= k < cur.push(p.last()).len() && cur.push(p.last())[k] == c;
                if k < cur.len() {
                    assert(cur.contains(cur[k]));
                }
            }
        }
    }
}

/// Why a requested path could not be mapped under the root.
#[derive(Clone, Debug)]
pub enum RealizationError {
    /// The root could not be canonicalized.
    NonCanonicalBase(String),
    /// The parent of a path that does not exist could not be canonicalized.
    NonCanonicalParent(String),
    /// The path exists but could not be canonicalized.
    NonCanonicalPath(String),
    /// The path does not exist and had to.
    FileNotFound,
    /// Neither the path nor its parent directory exists.
    ParentNotFound,
    /// The path resolves to a place outside the root.
    OutsideBase,
}

/// A requested path resolved under the root: its canonical real path and
/// the same path relative to the root.
#[derive(Clone, Debug)]
pub struct RequestedFile {
    pub real_path: String,
    pub logical_path: String,
}

/// What the filesystem said when asked to canonicalize one path.
#[derive(Clone, Debug)]
pub enum PathProbe {
    /// The path exists, and this is its canonical form.
    Canonical(String),
    /// The path does not exist.
    Missing,
    /// The filesystem failed to answer, for this reason.
    Failed(String),
}

/// `base` joined with `req`: what the filesystem is asked about first.
pub fn join_path(base: &str, req: &str) -> (r: String)
    ensures
        r@ == joined_path(base@, req@),
{
    let b = chars_of(base);
    let q = chars_of(req);
    let mut out: Vec<char> = Vec::new();
    if q.len() > 0 && q[0] == '/' {
        return string_of(&q);
    }
    if b.len() > 0 {
        out = b;
        if out[out.len() - 1] != '/' {
            out.push('/');
        }
    }
    let ghost start = out@;
    let mut i: usize = 0;
    while i < q.len()
        invariant
            i <= q@.len(),
            out@ == start + q@.take(i as int),
        decreases q@.len() - i,
    {
        out.push(q[i]);
        i += 1;
        assert(out@ =~= start + q@.take(i as int));
    }
    assert(q@.take(i as int) =~= q@);
    assert(b@.len() > 0 ==> b@.last() == b@[b@.len() - 1]);
    string_of(&out)
}

/// The parent directory of `p`, which the filesystem is asked about when
/// `p` itself does not exist; `None` where `p` has no segment.
pub fn parent_path(p: &str) -> (r: Option<String>)
    ensures
        match r {
            Some(q) => parent_of(p@) == Some(q@),
            None => parent_of(p@) is None,
        },
{
    let cs = chars_of(p);
    let mut segs = segments_of(&cs);
    if segs.len() == 0 {
        return None;
    }
    let ghost all = segs@;
    segs.pop();
    assert(segs_view(segs@) =~= segs_view(all).drop_last());
    Some(string_of(&absolute_of(&segs)))
}

fn canonical(p: &Vec<char>) -> (r: Option<Vec<Vec<char>>>)
    ensures
        match r {
            Some(segs) => is_canonical(p@) && segs_view(segs@) == path_segments(p@),
            None => !is_canonical(p@),
        },
{
    let segs = segments_of(p);
    let spelled = absolute_of(&segs);
    if !chars_eq(&spelled, p) {
        return None;
    }
    let mut i: usize = 0;
    while i < segs.len()
        invariant
            i <= segs@.len(),
            segs_view(segs@) == path_segments(p@),
            forall|j: int| 0 <= j < i ==> !is_parent_segment(#[trigger] path_segments(p@)[j]),
        decreases segs@.len() - i,
    {
        if is_parent(&segs[i]) {
            assert(path_segments(p@)[i as int] == segs@[i as int]@);
            return None;
        }
        i += 1;
    }
    Some(segs)
}

/// `root` followed by more segments.
pub open spec fn is_segment_prefix(root: Seq<Seq<char>>, segs: Seq<Seq<char>>) -> bool {
    root.len() <= segs.len() && segs.take(root.len() as int) == root
}

/// The segments of the real path, before the containment check.
pub open spec fn real_segments(
    root: Seq<char>,
    req: Seq<char>,
    target: PathProbe,
    parent: PathProbe,
    must_exist: bool,
) -> Result<Seq<Seq<char>>, RealizationError> {
    match target {
        PathProbe::Canonical(c) => if is_canonical(c@) {
            Ok(path_segments(c@))
        } else {
            Err(RealizationError::NonCanonicalPath(c))
        },
        PathProbe::Failed(e) => Err(RealizationError::NonCanonicalPath(e)),
        PathProbe::Missing => if must_exist {
            Err(RealizationError::FileNotFound)
        } else {
            let js = path_segments(joined_path(root, req));
            if js.len() == 0 {
                Err(RealizationError::ParentNotFound)
            } else {
                match parent {
                    PathProbe::Missing => Err(RealizationError::ParentNotFound),
                    PathProbe::Failed(e) => Err(RealizationError::NonCanonicalParent(e)),
                    PathProbe::Canonical(pc) => if !is_canonical(pc@) {
                        Err(RealizationError::NonCanonicalParent(pc))
                    } else if is_parent_segment(js.last()) {
                        Err(RealizationError::OutsideBase)
                    } else {
                        Ok(path_segments(pc@).push(js.last()))
                    },
                }
            }
        },
    }
}

/// The segments of the real path that `req` resolves to under the root,
/// given what the filesystem said of the root (`root`), of the joined path
/// (`target`) and, where that does not exist, of its parent (`parent`).
pub open spec fn realized(
    root: Result<String, String>,
    req: Seq<char>,
    target: PathProbe,
    parent: PathProbe,
    must_exist: bool,
) -> Result<Seq<Seq<char>>, RealizationError> {
    match root {
        Err(e) => Err(RealizationError::NonCanonicalBase(e)),
        Ok(r) => if !is_canonical(r@) {
            Err(RealizationError::NonCanonicalBase(r))
        } else {
            match real_segments(r@, req, target, parent, must_exist) {
                Err(e) => Err(e),
                Ok(segs) => if is_segment_prefix(path_segments(r@), segs) && path_segments(r@).len() < segs.len() {
                    Ok(segs)
                } else {
                    Err(RealizationError::OutsideBase)
                },
            }
        },
    }
}

pub(crate) fn segment_prefix(root: &Vec<Vec<char>>, segs: &Vec<Vec<char>>) -> (r: bool)
    ensures
        r == is_segment_prefix(segs_view(root@), segs_view(segs@)),
{
    if root.len() > segs.len() {
        return false;
    }
    let ghost rv = segs_view(root@);
    let ghost sv = segs_view(segs@);
    let mut i: usize = 0;
    while i < root.len()
        invariant
            root@.len() <= segs@.len(),
            rv == segs_view(root@),
            sv == segs_view(segs@),
            i <= root@.len(),
            forall|j: int| 0 <= j < i ==> sv[j] == rv[j],
        decreases root@.len() - i,
    {
        if !chars_eq(&root[i], &segs[i]) {
            assert(sv.take(rv.len() as int)[i as int] != rv[i as int]);
            return false;
        }
        i += 1;
    }
    assert(sv.take(rv.len() as int) =~= rv);
    true
}

/// Maps a requested path onto the real path under the root, given what the
/// filesystem said of the root, of the root joined with `req_path`, and of
/// that path's parent directory (asked only where the path does not exist).
/// The real path is that of the canonical root followed by the logical path,
/// which is checked after every link was resolved. The root must be a strict
/// prefix: a request that names the root itself is `OutsideBase`.
pub fn realize(
    root: Result<String, String>,
    req_path: &str,
    target: PathProbe,
    parent: PathProbe,
    must_exist: bool,
) -> (r: Result<RequestedFile, RealizationError>)
    ensures
        match (r, realized(root, req_path@, target, parent, must_exist)) {
            (Ok(f), Ok(segs)) => match root {
                Ok(base) => f.real_path@ == absolute_path(segs) && f.logical_path@ == relative_path(
                    segs.skip(path_segments(base@).len() as int),
                ),
                Err(_) => false,
            },
            (Err(e), Err(e2)) => e == e2,
            _ => false,
        },
{
    let base = match root {
        Err(e) => return Err(RealizationError::NonCanonicalBase(e)),
        Ok(b) => b,
    };
    let root_segs = match canonical(&chars_of(base.as_str())) {
        None => return Err(RealizationError::NonCanonicalBase(base)),
        Some(segs) => segs,
    };
    let mut segs = match target {
        PathProbe::Canonical(c) => match canonical(&chars_of(c.as_str())) {
            None => return Err(RealizationError::NonCanonicalPath(c)),
            Some(segs) => segs,
        },
        PathProbe::Failed(e) => return Err(RealizationError::NonCanonicalPath(e)),
        PathProbe::Missing => {
            if must_exist {
                return Err(RealizationError::FileNotFound);
            }
            let joined = join_path(base.as_str(), req_path);
            let mut js = segments_of(&chars_of(joined.as_str()));
            let ghost jsv = segs_view(js@);
            let last = match js.pop() {
                None => return Err(RealizationError::ParentNotFound),
                Some(last) => last,
            };
            assert(last@ == jsv.last());
            match parent {
                PathProbe::Missing => return Err(RealizationError::ParentNotFound),
                PathProbe::Failed(e) => return Err(RealizationError::NonCanonicalParent(e)),
                PathProbe::Canonical(pc) => {
                    let mut ps = match canonical(&chars_of(pc.as_str())) {
                        None => return Err(RealizationError::NonCanonicalParent(pc)),
                        Some(ps) => ps,
                    };
                    if is_parent(&last) {
                        return Err(RealizationError::OutsideBase);
                    }
                    let ghost before = ps@;
                    ps.push(last);
                    assert(segs_view(ps@) =~= segs_view(before).push(last@));
                    ps
                },
            }
        },
    };
    if !segment_prefix(&root_segs, &segs) || root_segs.len() >= segs.len() {
        return Err(RealizationError::OutsideBase);
    }
    let real_path = string_of(&absolute_of(&segs));
    let ghost all = segs@;
    let rest = segs.split_off(root_segs.len());
    assert(segs_view(rest@) =~= segs_view(all).skip(root_segs@.len() as int));
    let logical_path = string_of(&relative_of(&rest));
    Ok(RequestedFile { real_path, logical_path })
}

/// Confinement: whatever the filesystem said, a resolved path is the root
/// followed by segments that each name an entry: none is empty, `.` or `..`,
/// so the logical path never leads out of the root.
pub proof fn lemma_realized_confined(
    root: Result<String, String>,
    req: Seq<char>,
    target: PathProbe,
    parent: PathProbe,
    must_exist: bool,
)
    requires
        realized(root, req, target, parent, must_exist) is Ok,
    ensures
        match (root, realized(root, req, target, parent, must_exist)) {
            (Ok(base), Ok(segs)) => {
                let n = path_segments(base@).len() as int;
                &&& segs == path_segments(base@) + segs.skip(n)
                &&& forall|i: int| 0 <= i < segs.skip(n).len() ==> is_name_segment(#[trigger] segs.skip(n)[i])
            },
            _ => false,
        },
{
    let base = root->Ok_0;
    let segs = realized(root, req, target, parent, must_exist)->Ok_0;
    let n = path_segments(base@).len() as int;
    assert(segs =~= segs.take(n) + segs.skip(n));
    assert forall|i: int| 0 <= i < segs.len() implies is_name_segment(#[trigger] segs[i]) by {
        match target {
            PathProbe::Canonical(c) => {
                lemma_scan_clean(c@);
            },
            _ => {
                let pc = parent->Canonical_0;
                let js = path_segments(joined_path(base@, req));
                lemma_scan_clean(pc@);
                lemma_scan_clean(joined_path(base@, req));
                assert(js.last() == js[js.len() - 1]);
                if i == segs.len() - 1 {
                    assert(segs[i] == js.last());
                } else {
                    assert(segs[i] == path_segments(pc@)[i]);
                }
            },
        }
    }
    assert forall|i: int| 0 <= i < segs.skip(n).len() implies is_name_segment(#[trigger] segs.skip(n)[i]) by {
        assert(segs.skip(n)[i] == segs[i + n]);
    }
}

} // verus!
