use vstd::prelude::*;
use crate::errors::{ErrorType, MountSpecFault};

verus! {

/// A mount specification split into its raw source and the destination
/// relative to the new root (the single leading `/` removed).
#[derive(Debug, Clone, PartialEq, Eq)]
pub struct MountSpec {
    pub source: String,
    pub destination: String,
}

/// A validated bind mount: a canonical absolute source and a destination
/// relative to the new root.
#[derive(Debug, Clone, PartialEq, Eq)]
pub struct MountMapping {
    pub source: String,
    pub destination: String,
}

impl View for MountMapping {
    type V = (Seq<char>, Seq<char>);

    open spec fn view(&self) -> (Seq<char>, Seq<char>) {
        (self.source@, self.destination@)
    }
}

pub open spec fn is_sep_at(s: Seq<char>, i: int) -> bool {
    0 <= i < s.len() && s[i] == ':'
}

/// A segment `..` starts at `i`.
pub open spec fn parent_at(s: Seq<char>, i: int) -> bool {
    &&& 0 <= i && i + 1 < s.len()
    &&& (i == 0 || s[i - 1] == '/')
    &&& s[i] == '.' && s[i + 1] == '.'
    &&& (i + 2 == s.len() || s[i + 2] == '/')
}

pub open spec fn has_parent_segment(s: Seq<char>) -> bool {
    exists|i: int| parent_at(s, i)
}

/// A segment `.` or `..` starts at `i`.
pub open spec fn dot_at(s: Seq<char>, i: int) -> bool {
    &&& 0 <= i < s.len()
    &&& (i == 0 || s[i - 1] == '/')
    &&& s[i] == '.'
    &&& (i + 1 == s.len() || s[i + 1] == '/' || (s[i + 1] == '.' && (i + 2 == s.len() || s[i
        + 2] == '/')))
}

/// An empty segment (two separators in a row) starts at `i`.
pub open spec fn double_sep_at(s: Seq<char>, i: int) -> bool {
    0 <= i && i + 1 < s.len() && s[i] == '/' && s[i + 1] == '/'
}

/// An absolute path with no `.`, `..` or empty segment and no trailing
/// separator (but for `/` itself): what canonicalization hands back.
pub open spec fn is_canonical(s: Seq<char>) -> bool {
    &&& s.len() > 0 && s[0] == '/'
    &&& !(exists|i: int| dot_at(s, i))
    &&& !(exists|i: int| double_sep_at(s, i))
    &&& (s.len() == 1 || s[s.len() - 1] != '/')
}

/// What is wrong with a destination, if anything.
pub open spec fn destination_fault(d: Seq<char>) -> Option<MountSpecFault> {
    if d.len() == 0 || d[0] != '/' {
        Some(MountSpecFault::DestinationNotAbsolute)
    } else if d.len() == 1 {
        Some(MountSpecFault::DestinationIsRoot)
    } else if d[1] == '/' {
        Some(MountSpecFault::RepeatedSeparator)
    } else if has_parent_segment(d.subrange(1, d.len() as int)) {
        Some(MountSpecFault::DestinationEscapes)
    } else {
        None
    }
}

/// The position of the one separator of a specification that has exactly one.
pub open spec fn sep_index(s: Seq<char>) -> int {
    choose|i: int| is_sep_at(s, i)
}

/// What is wrong with a mount specification `source:destination`, if anything.
pub open spec fn mount_spec_fault(s: Seq<char>) -> Option<MountSpecFault> {
    if !(exists|i: int| is_sep_at(s, i)) {
        Some(MountSpecFault::MissingSeparator)
    } else if exists|i: int, j: int| is_sep_at(s, i) && is_sep_at(s, j) && i != j {
        Some(MountSpecFault::ExtraSeparator)
    } else {
        destination_fault(s.subrange(sep_index(s) + 1, s.len() as int))
    }
}

fn chars_of(s: &str) -> (r: Vec<char>)
    ensures
        r@ == s@,
{
    let n = s.unicode_len();
    let mut r: Vec<char> = Vec::new();
    let mut i: usize = 0;
    while i < n
        invariant
            n == s@.len(),
            i <= n,
            r@ == s@.subrange(0, i as int),
        decreases n - i,
    {
        r.push(s.get_char(i));
        i = i + 1;
        assert(r@ =~= s@.subrange(0, i as int));
    }
    assert(r@ =~= s@);
    r
}

/// The first position at or after `from` that holds `c`, or the length.
fn find_char(v: &Vec<char>, c: char, from: usize) -> (r: usize)
    requires
        from <= v@.len(),
    ensures
        from <= r <= v@.len(),
        r < v@.len() ==> v@[r as int] == c,
        forall|j: int| from <= j < r ==> v@[j] != c,
{
    let mut i = from;
    while i < v.len()
        invariant
            from <= i <= v@.len(),
            forall|j: int| from <= j < i ==> v@[j] != c,
        decreases v@.len() - i,
    {
        if v[i] == c {
            return i;
        }
        i = i + 1;
    }
    i
}

fn parent_at_exec(v: &Vec<char>, i: usize) -> (r: bool)
    requires
        i < v@.len(),
    ensures
        r == parent_at(v@, i as int),
{
    let n = v.len();
    i + 1 < n && (i == 0 || v[i - 1] == '/') && v[i] == '.' && v[i + 1] == '.' && (i + 2 == n
        || v[i + 2] == '/')
}

fn dot_at_exec(v: &Vec<char>, i: usize) -> (r: bool)
    requires
        i < v@.len(),
    ensures
        r == dot_at(v@, i as int),
{
    let n = v.len();
    (i == 0 || v[i - 1] == '/') && v[i] == '.' && (i + 1 == n || v[i + 1] == '/' || (v[i + 1]
        == '.' && (i + 2 == n || v[i + 2] == '/')))
}

fn has_parent_segment_exec(v: &Vec<char>) -> (r: bool)
    ensures
        r == has_parent_segment(v@),
{
    let mut i: usize = 0;
    while i < v.len()
        invariant
            i <= v@.len(),
            forall|j: int| 0 <= j < i ==> !parent_at(v@, j),
        decreases v@.len() - i,
    {
        if parent_at_exec(v, i) {
            return true;
        }
        i = i + 1;
    }
    assert forall|j: int| !parent_at(v@, j) by {
        if 0 <= j < v@.len() {
            assert(!parent_at(v@, j));
        }
    }
    false
}

/// Whether `s` is an absolute path in canonical form.
pub fn is_canonical_path(s: &str) -> (r: bool)
    ensures
        r == is_canonical(s@),
{
    let v = chars_of(s);
    let n = v.len();
    if n == 0 || v[0] != '/' {
        return false;
    }
    if n > 1 && v[n - 1] == '/' {
        return false;
    }
    let mut i: usize = 0;
    while i < n
        invariant
            n == v@.len(),
            v@ == s@,
            i <= n,
            forall|j: int| 0 <= j < i ==> !dot_at(v@, j) && !double_sep_at(v@, j),
        decreases n - i,
    {
        if dot_at_exec(&v, i) {
            assert(dot_at(s@, i as int));
            return false;
        }
        if i + 1 < n && v[i] == '/' && v[i + 1] == '/' {
            assert(double_sep_at(s@, i as int));
            return false;
        }
        i = i + 1;
    }
    assert forall|j: int| !dot_at(v@, j) && !double_sep_at(v@, j) by {
        if 0 <= j < n {
            assert(!dot_at(v@, j) && !double_sep_at(v@, j));
        }
    }
    true
}

/// Splits a mount specification `source:destination` and removes the single
/// leading `/` of the destination, which then names a path strictly beneath
/// the new root.
pub fn parse_mount_spec(s: &str) -> (r: Result<MountSpec, ErrorType>)
    ensures
        match mount_spec_fault(s@) {
            Some(f) => r == Err::<MountSpec, ErrorType>(ErrorType::MountSpecError(f)),
            None => {
                &&& r is Ok
                &&& r->Ok_0.source@ == s@.subrange(0, sep_index(s@))
                &&& r->Ok_0.destination@ == s@.subrange(sep_index(s@) + 2, s@.len() as int)
            },
        },
        r is Ok ==> {
            let d = r->Ok_0.destination@;
            d.len() > 0 && d[0] != '/' && !has_parent_segment(d)
        },
{
    let v = chars_of(s);
    let n = v.len();
    let k = find_char(&v, ':', 0);
    if k == n {
        return Err(ErrorType::MountSpecError(MountSpecFault::MissingSeparator));
    }
    let k2 = find_char(&v, ':', k + 1);
    if k2 < n {
        assert(is_sep_at(s@, k as int) && is_sep_at(s@, k2 as int));
        return Err(ErrorType::MountSpecError(MountSpecFault::ExtraSeparator));
    }
    proof {
        assert(is_sep_at(s@, k as int));
        assert forall|i: int, j: int| is_sep_at(s@, i) && is_sep_at(s@, j) implies i == j by {
            assert(i == k && j == k);
        }
        assert(sep_index(s@) == k);
    }
    let ghost d = s@.subrange(k + 1, n as int);
    if n == k + 1 || v[k + 1] != '/' {
        return Err(ErrorType::MountSpecError(MountSpecFault::DestinationNotAbsolute));
    }
    if n == k + 2 {
        return Err(ErrorType::MountSpecError(MountSpecFault::DestinationIsRoot));
    }
    if v[k + 2] == '/' {
        return Err(ErrorType::MountSpecError(MountSpecFault::RepeatedSeparator));
    }
    let rel = s.substring_char(k + 2, n);
    assert(d.subrange(1, d.len() as int) =~= rel@);
    let rel_chars = chars_of(rel);
    if has_parent_segment_exec(&rel_chars) {
        return Err(ErrorType::MountSpecError(MountSpecFault::DestinationEscapes));
    }
    let source = String::from_str(s.substring_char(0, k));
    let destination = String::from_str(rel);
    Ok(MountSpec { source, destination })
}

/// Pairs a parsed specification with the canonical form of its source, which
/// must be an absolute path without `.`, `..` or empty segments.
pub fn mount_mapping(spec: &MountSpec, canonical_source: &str) -> (r: Result<MountMapping, ErrorType>)
    ensures
        is_canonical(canonical_source@) ==> r is Ok && r->Ok_0@ == (canonical_source@, spec.destination@),
        !is_canonical(canonical_source@) ==> r == Err::<MountMapping, ErrorType>(ErrorType::SourceNotCanonical),
{
    if !is_canonical_path(canonical_source) {
        return Err(ErrorType::SourceNotCanonical);
    }
    Ok(MountMapping { source: String::from_str(canonical_source), destination: spec.destination.clone() })
}

/// One operation of the re-root sequence, performed by the child in order.
#[derive(Debug, Clone, PartialEq, Eq)]
pub enum MountOp {
    /// Make the mount at the path, and every mount below it, private.
    MakePrivate(String),
    /// Create a directory and its missing parents.
    CreateDir(String),
    /// Bind-mount the first path privately onto the second.
    BindMount(String, String),
    /// Make the first path the root, moving the old root to the second.
    PivotRoot(String, String),
    /// Change the working directory.
    ChangeDir(String),
    /// Detach the mount at the path.
    Unmount(String),
    /// Remove an empty directory.
    RemoveDir(String),
}

/// The value of a [`MountOp`] in specifications.
pub enum MountStep {
    MakePrivate(Seq<char>),
    CreateDir(Seq<char>),
    BindMount(Seq<char>, Seq<char>),
    PivotRoot(Seq<char>, Seq<char>),
    ChangeDir(Seq<char>),
    Unmount(Seq<char>),
    RemoveDir(Seq<char>),
}

impl View for MountOp {
    type V = MountStep;

    open spec fn view(&self) -> MountStep {
        match self {
            MountOp::MakePrivate(p) => MountStep::MakePrivate(p@),
            MountOp::CreateDir(p) => MountStep::CreateDir(p@),
            MountOp::BindMount(a, b) => MountStep::BindMount(a@, b@),
            MountOp::PivotRoot(a, b) => MountStep::PivotRoot(a@, b@),
            MountOp::ChangeDir(p) => MountStep::ChangeDir(p@),
            MountOp::Unmount(p) => MountStep::Unmount(p@),
            MountOp::RemoveDir(p) => MountStep::RemoveDir(p@),
        }
    }
}

/// The error that a failure of an operation reports, with the kernel's
/// error number.
pub open spec fn step_error(step: MountStep, errno: i32) -> ErrorType {
    match step {
        MountStep::MakePrivate(_) | MountStep::BindMount(_, _) => ErrorType::MountError(errno),
        MountStep::CreateDir(_) | MountStep::RemoveDir(_) => ErrorType::DirectoryError(errno),
        MountStep::PivotRoot(_, _) => ErrorType::PivotRootError(errno),
        MountStep::ChangeDir(_) => ErrorType::ChDirError(errno),
        MountStep::Unmount(_) => ErrorType::UnmountError(errno),
    }
}

impl MountOp {
    /// The error that a failure of this operation reports, with the kernel's
    /// error number.
    pub fn error_of(&self, errno: i32) -> (r: ErrorType)
        ensures
            r == step_error(self@, errno),
    {
        match self {
            MountOp::MakePrivate(_) | MountOp::BindMount(_, _) => ErrorType::MountError(errno),
            MountOp::CreateDir(_) | MountOp::RemoveDir(_) => ErrorType::DirectoryError(errno),
            MountOp::PivotRoot(_, _) => ErrorType::PivotRootError(errno),
            MountOp::ChangeDir(_) => ErrorType::ChDirError(errno),
            MountOp::Unmount(_) => ErrorType::UnmountError(errno),
        }
    }
}

pub open spec fn views_of(ops: Seq<MountOp>) -> Seq<MountStep> {
    ops.map_values(|o: MountOp| o@)
}

pub open spec fn mappings_of(maps: Seq<MountMapping>) -> Seq<(Seq<char>, Seq<char>)> {
    maps.map_values(|m: MountMapping| m@)
}

/// The staging directory that becomes the new root.
pub open spec fn new_root_path(tag: Seq<char>) -> Seq<char> {
    "/tmp/rucker-root-mntpt-"@ + tag
}

/// The name under the new root that receives the old root.
pub open spec fn old_root_name(tag: Seq<char>) -> Seq<char> {
    "oldroot."@ + tag
}

/// A relative path resolved beneath a directory.
pub open spec fn beneath(dir: Seq<char>, rel: Seq<char>) -> Seq<char> {
    dir + "/"@ + rel
}

/// For each mapping in order: create its destination beneath the new root,
/// then bind-mount its source there.
pub open spec fn extra_mounts(root: Seq<char>, maps: Seq<(Seq<char>, Seq<char>)>) -> Seq<MountStep>
    decreases maps.len(),
{
    if maps.len() == 0 {
        Seq::empty()
    } else {
        let m = maps.last();
        extra_mounts(root, maps.drop_last()) + seq![
            MountStep::CreateDir(beneath(root, m.1)),
            MountStep::BindMount(m.0, beneath(root, m.1)),
        ]
    }
}

/// The whole re-root sequence: make `/` private, bind the root directory
/// onto a fresh staging directory, add the extra mounts beneath it, pivot
/// into it with the old root parked in a subdirectory, move to the new `/`,
/// then detach the old root and remove its directory.
pub open spec fn reroot_plan(
    mount_dir: Seq<char>,
    maps: Seq<(Seq<char>, Seq<char>)>,
    root_tag: Seq<char>,
    old_tag: Seq<char>,
) -> Seq<MountStep> {
    let root = new_root_path(root_tag);
    let put_old = beneath(root, old_root_name(old_tag));
    let old_root = "/"@ + old_root_name(old_tag);
    seq![
        MountStep::MakePrivate("/"@),
        MountStep::CreateDir(root),
        MountStep::BindMount(mount_dir, root),
    ] + extra_mounts(root, maps) + seq![
        MountStep::CreateDir(put_old),
        MountStep::PivotRoot(root, put_old),
        MountStep::ChangeDir("/"@),
        MountStep::Unmount(old_root),
        MountStep::RemoveDir(old_root),
    ]
}

fn join_path(dir: &String, rel: &str) -> (r: String)
    ensures
        r@ == beneath(dir@, rel@),
{
    let mut r = dir.clone();
    r.append("/");
    r.append(rel);
    r
}

fn push_op(ops: &mut Vec<MountOp>, op: MountOp)
    ensures
        views_of(final(ops)@) == views_of(old(ops)@).push(op@),
{
    ops.push(op);
    assert(views_of(final(ops)@) =~= views_of(old(ops)@).push(op@));
}

/// The operations that re-root the child onto `mount_dir`, with the extra
/// bind mounts, using `root_tag` to name the staging directory and `old_tag`
/// to name the directory that receives the old root.
pub fn set_mountpoint(
    mount_dir: &String,
    addmntpts: &Vec<MountMapping>,
    root_tag: &String,
    old_tag: &String,
) -> (r: Vec<MountOp>)
    ensures
        views_of(r@) == reroot_plan(mount_dir@, mappings_of(addmntpts@), root_tag@, old_tag@),
{
    let ghost maps = mappings_of(addmntpts@);
    let mut root = String::from_str("/tmp/rucker-root-mntpt-");
    root.append(root_tag.as_str());
    let mut ops: Vec<MountOp> = Vec::new();
    push_op(&mut ops, MountOp::MakePrivate(String::from_str("/")));
    push_op(&mut ops, MountOp::CreateDir(root.clone()));
    push_op(&mut ops, MountOp::BindMount(mount_dir.clone(), root.clone()));
    let ghost head = views_of(ops@);
    let mut i: usize = 0;
    while i < addmntpts.len()
        invariant
            i <= addmntpts@.len(),
            root@ == new_root_path(root_tag@),
            maps == mappings_of(addmntpts@),
            views_of(ops@) == head + extra_mounts(root@, maps.subrange(0, i as int)),
        decreases addmntpts@.len() - i,
    {
        let m = &addmntpts[i];
        let target = join_path(&root, m.destination.as_str());
        push_op(&mut ops, MountOp::CreateDir(target.clone()));
        push_op(&mut ops, MountOp::BindMount(m.source.clone(), target));
        proof {
            let sub = maps.subrange(0, i + 1);
            assert(sub.drop_last() =~= maps.subrange(0, i as int));
            assert(sub.last() == m@);
        }
        i = i + 1;
        assert(views_of(ops@) =~= head + extra_mounts(root@, maps.subrange(0, i as int)));
    }
    assert(maps.subrange(0, i as int) =~= maps);
    let mut old_name = String::from_str("oldroot.");
    old_name.append(old_tag.as_str());
    let put_old = join_path(&root, old_name.as_str());
    let mut old_root = String::from_str("/");
    old_root.append(old_name.as_str());
    push_op(&mut ops, MountOp::CreateDir(put_old.clone()));
    push_op(&mut ops, MountOp::PivotRoot(root, put_old));
    push_op(&mut ops, MountOp::ChangeDir(String::from_str("/")));
    push_op(&mut ops, MountOp::Unmount(old_root.clone()));
    push_op(&mut ops, MountOp::RemoveDir(old_root));
    assert(views_of(ops@) =~= reroot_plan(mount_dir@, maps, root_tag@, old_tag@));
    ops
}

/// After the pivot, the re-root sequence moves to the new root and then
/// detaches and removes the parked old root, as its last operations: once it
/// has run, the working directory is the new root and the old root's mount
/// point no longer exists.
pub proof fn lemma_reroot_ends_at_new_root(
    mount_dir: Seq<char>,
    maps: Seq<(Seq<char>, Seq<char>)>,
    root_tag: Seq<char>,
    old_tag: Seq<char>,
)
    ensures
        ({
            let p = reroot_plan(mount_dir, maps, root_tag, old_tag);
            let n = p.len();
            let root = new_root_path(root_tag);
            let old_root = "/"@ + old_root_name(old_tag);
            &&& n >= 5
            &&& p[n - 4] == MountStep::PivotRoot(root, beneath(root, old_root_name(old_tag)))
            &&& p[n - 3] == MountStep::ChangeDir("/"@)
            &&& p[n - 2] == MountStep::Unmount(old_root)
            &&& p[n - 1] == MountStep::RemoveDir(old_root)
        }),
{
}

/// Parses every mount specification, in order, stopping at the first one
/// that is refused.
pub fn parse_mount_specs(specs: &Vec<String>) -> (r: Result<Vec<MountSpec>, ErrorType>)
    ensures
        r is Ok <==> forall|i: int| 0 <= i < specs@.len() ==> mount_spec_fault(#[trigger] specs@[i]@) is None,
        r is Ok ==> r->Ok_0@.len() == specs@.len() && forall|i: int| 0 <= i < specs@.len() ==> {
            let s = #[trigger] specs@[i]@;
            &&& r->Ok_0@[i].source@ == s.subrange(0, sep_index(s))
            &&& r->Ok_0@[i].destination@ == s.subrange(sep_index(s) + 2, s.len() as int)
        },
        r is Err ==> exists|k: int| {
            &&& 0 <= k < specs@.len()
            &&& mount_spec_fault(#[trigger] specs@[k]@) == Some(r->Err_0->MountSpecError_0)
            &&& r->Err_0 is MountSpecError
            &&& forall|i: int| 0 <= i < k ==> mount_spec_fault(#[trigger] specs@[i]@) is None
        },
{
    let mut out: Vec<MountSpec> = Vec::new();
    let mut i: usize = 0;
    while i < specs.len()
        invariant
            i <= specs@.len(),
            out@.len() == i,
            forall|j: int| 0 <= j < i ==> mount_spec_fault(#[trigger] specs@[j]@) is None,
            forall|j: int| 0 <= j < i ==> {
                let s = #[trigger] specs@[j]@;
                &&& out@[j].source@ == s.subrange(0, sep_index(s))
                &&& out@[j].destination@ == s.subrange(sep_index(s) + 2, s.len() as int)
            },
        decreases specs@.len() - i,
    {
        match parse_mount_spec(specs[i].as_str()) {
            Ok(m) => out.push(m),
            Err(e) => {
                assert(mount_spec_fault(specs@[i as int]@) is Some);
                return Err(e);
            },
        }
        i = i + 1;
    }
    Ok(out)
}

} // verus!
