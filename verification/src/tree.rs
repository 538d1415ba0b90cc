//! Walking a directory tree.
//!
//! A recursive delete lists a tree and then removes it depth first: what
//! a directory holds goes before the directory itself. A recursive
//! upload mirrors a local tree: a directory is created before anything
//! is put into it. Either way the caller lists the tree, this module
//! lays out the calls in order, and the caller makes them one by one,
//! stopping at the first that fails.

use crate::text::chars_of;
use crate::text::same_text;
use crate::text::string_of;
use vstd::prelude::*;

verus! {

/// One entry of a listed tree, with what it holds if it is a directory.
#[derive(Debug)]
pub struct TreeEntry {
    pub name: String,
    pub is_dir: bool,
    /// Size in bytes; only that of a file counts.
    pub size: u64,
    pub children: Vec<TreeEntry>,
}

/// One call to make on the remote side.
#[derive(Debug, Clone)]
pub enum TreeOp {
    /// Delete the file at this path.
    Unlink { path: String },
    /// Remove the directory at this path, which is empty by now.
    Rmdir { path: String },
    /// Create the directory at this path; that it exists already is no
    /// failure.
    Mkdir { path: String },
    /// Write the local file to the remote path.
    Put { local: String, remote: String, size: u64 },
}

/// A call as a mathematical value.
pub ghost enum OpModel {
    Unlink { path: Seq<char> },
    Rmdir { path: Seq<char> },
    Mkdir { path: Seq<char> },
    Put { local: Seq<char>, remote: Seq<char>, size: u64 },
}

impl View for TreeOp {
    type V = OpModel;

    open spec fn view(&self) -> OpModel {
        match *self {
            TreeOp::Unlink { path } => OpModel::Unlink { path: path@ },
            TreeOp::Rmdir { path } => OpModel::Rmdir { path: path@ },
            TreeOp::Mkdir { path } => OpModel::Mkdir { path: path@ },
            TreeOp::Put { local, remote, size } => OpModel::Put {
                local: local@,
                remote: remote@,
                size,
            },
        }
    }
}

/// The views of the first `n` calls.
pub open spec fn spec_ops(ops: Seq<TreeOp>, n: int) -> Seq<OpModel>
    decreases n,
{
    if n <= 0 {
        Seq::<OpModel>::empty()
    } else {
        spec_ops(ops, n - 1).push(ops[n - 1]@)
    }
}

/// Whether a name is one of the two that every listing holds and no
/// walk follows.
pub open spec fn spec_is_dot(name: Seq<char>) -> bool {
    name == "."@ || name == ".."@
}

/// The path of `name` inside the directory `dir`, with one slash
/// between them.
pub open spec fn spec_join(dir: Seq<char>, name: Seq<char>) -> Seq<char> {
    if dir.len() > 0 && dir.last() == '/' {
        dir + name
    } else {
        dir + seq!['/'] + name
    }
}

/// The calls that delete the entry `e` found at `path`: for a file one
/// unlink; for a directory the calls for what it holds, in listing
/// order, then its own removal.
pub open spec fn spec_delete(path: Seq<char>, e: TreeEntry) -> Seq<OpModel>
    decreases e, e.children@.len() + 1,
{
    if e.is_dir {
        spec_delete_first(path, e, e.children@.len() as int) + seq![OpModel::Rmdir { path }]
    } else {
        seq![OpModel::Unlink { path }]
    }
}

/// The calls that delete the first `n` children of the directory `e`
/// found at `path`.
pub open spec fn spec_delete_first(path: Seq<char>, e: TreeEntry, n: int) -> Seq<OpModel>
    decreases e, n,
{
    if n <= 0 || n > e.children@.len() {
        Seq::<OpModel>::empty()
    } else {
        let child = e.children@[n - 1];
        let before = spec_delete_first(path, e, n - 1);
        if spec_is_dot(child.name@) {
            before
        } else {
            before + spec_delete(spec_join(path, child.name@), child)
        }
    }
}

/// Number of files in the tree under `e`, `e` included.
pub open spec fn spec_files(e: TreeEntry) -> nat
    decreases e, e.children@.len() + 1,
{
    if e.is_dir {
        spec_files_first(e, e.children@.len() as int)
    } else {
        1
    }
}

/// The files among the first `n` children of `e` and below them, `.` and
/// `..` left out.
pub open spec fn spec_files_first(e: TreeEntry, n: int) -> nat
    decreases e, n,
{
    if n <= 0 || n > e.children@.len() {
        0
    } else if spec_is_dot(e.children@[n - 1].name@) {
        spec_files_first(e, n - 1)
    } else {
        spec_files_first(e, n - 1) + spec_files(e.children@[n - 1])
    }
}

/// Number of directories in the tree under `e`, `e` included.
pub open spec fn spec_dirs(e: TreeEntry) -> nat
    decreases e, e.children@.len() + 1,
{
    if e.is_dir {
        1 + spec_dirs_first(e, e.children@.len() as int)
    } else {
        0
    }
}

/// The directories among the first `n` children of `e` and below them, `.`
/// and `..` left out.
pub open spec fn spec_dirs_first(e: TreeEntry, n: int) -> nat
    decreases e, n,
{
    if n <= 0 || n > e.children@.len() {
        0
    } else if spec_is_dot(e.children@[n - 1].name@) {
        spec_dirs_first(e, n - 1)
    } else {
        spec_dirs_first(e, n - 1) + spec_dirs(e.children@[n - 1])
    }
}

/// Number of unlink calls among `ops`.
pub open spec fn spec_unlinks(ops: Seq<OpModel>) -> nat
    decreases ops.len(),
{
    if ops.len() == 0 {
        0
    } else {
        spec_unlinks(ops.drop_last()) + if ops.last() is Unlink {
            1nat
        } else {
            0nat
        }
    }
}

/// Number of directory removals among `ops`.
pub open spec fn spec_rmdirs(ops: Seq<OpModel>) -> nat
    decreases ops.len(),
{
    if ops.len() == 0 {
        0
    } else {
        spec_rmdirs(ops.drop_last()) + if ops.last() is Rmdir {
            1nat
        } else {
            0nat
        }
    }
}

/// The counts of two plans add up when one follows the other.
proof fn lemma_counts_add(a: Seq<OpModel>, b: Seq<OpModel>)
    ensures
        spec_unlinks(a + b) == spec_unlinks(a) + spec_unlinks(b),
        spec_rmdirs(a + b) == spec_rmdirs(a) + spec_rmdirs(b),
    decreases b.len(),
{
    if b.len() == 0 {
        assert(a + b =~= a);
    } else {
        lemma_counts_add(a, b.drop_last());
        assert((a + b).drop_last() =~= a + b.drop_last());
        assert((a + b).last() == b.last());
    }
}

/// The counts of a plan of one step.
proof fn lemma_counts_one(op: OpModel)
    ensures
        spec_unlinks(seq![op]) == (if op is Unlink {
            1nat
        } else {
            0nat
        }),
        spec_rmdirs(seq![op]) == (if op is Rmdir {
            1nat
        } else {
            0nat
        }),
{
    assert(seq![op].drop_last() =~= Seq::<OpModel>::empty());
    assert(spec_unlinks(seq![op].drop_last()) == 0);
    assert(spec_rmdirs(seq![op].drop_last()) == 0);
}

/// Deleting a tree with N files and M directories makes exactly N
/// unlink calls and M directory removals, and the removal of a
/// directory is the last of the calls made for it: everything it holds
/// is gone before.
pub proof fn lemma_delete_counts(path: Seq<char>, e: TreeEntry)
    ensures
        spec_unlinks(spec_delete(path, e)) == spec_files(e),
        spec_rmdirs(spec_delete(path, e)) == spec_dirs(e),
        spec_delete(path, e).len() == spec_files(e) + spec_dirs(e),
        e.is_dir ==> spec_delete(path, e).last() == (OpModel::Rmdir { path }),
        e.is_dir ==> spec_delete(path, e).drop_last() == spec_delete_first(
            path,
            e,
            e.children@.len() as int,
        ),
    decreases e, e.children@.len() + 1,
{
    if e.is_dir {
        let n = e.children@.len() as int;
        lemma_delete_first_counts(path, e, n);
        let inner = spec_delete_first(path, e, n);
        let last = OpModel::Rmdir { path };
        lemma_counts_add(inner, seq![last]);
        lemma_counts_one(last);
        assert((inner + seq![last]).drop_last() =~= inner);
    } else {
        lemma_counts_one(OpModel::Unlink { path });
    }
}

/// Deleting the first `n` children unlinks their files and removes their
/// directories, each once.
proof fn lemma_delete_first_counts(path: Seq<char>, e: TreeEntry, n: int)
    requires
        0 <= n <= e.children@.len(),
    ensures
        spec_unlinks(spec_delete_first(path, e, n)) == spec_files_first(e, n),
        spec_rmdirs(spec_delete_first(path, e, n)) == spec_dirs_first(e, n),
        spec_delete_first(path, e, n).len() == spec_files_first(e, n) + spec_dirs_first(e, n),
    decreases e, n,
{
    if n > 0 {
        lemma_delete_first_counts(path, e, n - 1);
        let child = e.children@[n - 1];
        if !spec_is_dot(child.name@) {
            lemma_delete_counts(spec_join(path, child.name@), child);
            lemma_counts_add(
                spec_delete_first(path, e, n - 1),
                spec_delete(spec_join(path, child.name@), child),
            );
        }
    } else {
        assert(spec_unlinks(Seq::<OpModel>::empty()) == 0);
        assert(spec_rmdirs(Seq::<OpModel>::empty()) == 0);
    }
}

/// Whether a name is `.` or `..`.
pub fn is_dot(name: &str) -> (dot: bool)
    ensures
        dot == spec_is_dot(name@),
{
    same_text(name, ".") || same_text(name, "..")
}

/// The path of `name` inside the directory `dir`.
pub fn join_path(dir: &str, name: &str) -> (path: String)
    ensures
        path@ == spec_join(dir@, name@),
{
    let d = chars_of(dir);
    let mut out = String::new();
    out.append(dir);
    if !(d.len() > 0 && d[d.len() - 1] == '/') {
        out.push('/');
    }
    out.append(name);
    assert(out@ =~= spec_join(dir@, name@));
    out
}

/// Appends the steps that delete `e` at `path`.
fn delete_into(path: &str, e: &TreeEntry, ops: &mut Vec<TreeOp>)
    ensures
        spec_ops(final(ops)@, final(ops)@.len() as int) == spec_ops(
            old(ops)@,
            old(ops)@.len() as int,
        ) + spec_delete(path@, *e),
    decreases e, e.children@.len() + 1,
{
    let ghost before = spec_ops(ops@, ops@.len() as int);
    if e.is_dir {
        let mut i: usize = 0;
        while i < e.children.len()
            invariant
                i <= e.children@.len(),
                spec_ops(ops@, ops@.len() as int) == before + spec_delete_first(path@, *e, i as int),
            decreases e.children@.len() - i,
        {
            let child = &e.children[i];
            let ghost so_far = spec_ops(ops@, ops@.len() as int);
            if !is_dot(child.name.as_str()) {
                let child_path = join_path(path, child.name.as_str());
                delete_into(child_path.as_str(), child, ops);
                assert(before + spec_delete_first(path@, *e, i as int) + spec_delete(
                    child_path@,
                    *child,
                ) =~= before + spec_delete_first(path@, *e, i + 1));
            }
            i += 1;
        }
        let own = string_of(&chars_of(path));
        push_op(ops, TreeOp::Rmdir { path: own });
        assert(spec_ops(ops@, ops@.len() as int) =~= before + spec_delete(path@, *e));
    } else {
        let own = string_of(&chars_of(path));
        push_op(ops, TreeOp::Unlink { path: own });
        assert(spec_ops(ops@, ops@.len() as int) =~= before + spec_delete(path@, *e));
    }
}

/// Models of plans that agree on their first `n` steps agree there too.
proof fn lemma_ops_prefix(a: Seq<TreeOp>, b: Seq<TreeOp>, n: int)
    requires
        0 <= n <= a.len(),
        n <= b.len(),
        forall|k: int| 0 <= k < n ==> a[k] == b[k],
    ensures
        spec_ops(a, n) == spec_ops(b, n),
    decreases n,
{
    if n > 0 {
        lemma_ops_prefix(a, b, n - 1);
    }
}

/// Appends one step.
fn push_op(ops: &mut Vec<TreeOp>, op: TreeOp)
    ensures
        final(ops)@ == old(ops)@.push(op),
        spec_ops(final(ops)@, final(ops)@.len() as int) == spec_ops(
            old(ops)@,
            old(ops)@.len() as int,
        ).push(op@),
{
    ops.push(op);
    proof {
        lemma_ops_prefix(ops@, old(ops)@, old(ops)@.len() as int);
    }
}

/// The calls that delete the tree `root` found at `path`, in the order
/// in which they are to be made.
pub fn delete_plan(path: &str, root: &TreeEntry) -> (ops: Vec<TreeOp>)
    ensures
        spec_ops(ops@, ops@.len() as int) == spec_delete(path@, *root),
{
    let mut ops: Vec<TreeOp> = Vec::new();
    delete_into(path, root, &mut ops);
    assert(spec_ops(Seq::<TreeOp>::empty(), 0) + spec_delete(path@, *root) =~= spec_delete(
        path@,
        *root,
    ));
    ops
}

/// The bytes of all files in the tree under `e`.
pub open spec fn spec_total_size(e: TreeEntry) -> nat
    decreases e, e.children@.len() + 1,
{
    if e.is_dir {
        spec_size_first(e, e.children@.len() as int)
    } else {
        e.size as nat
    }
}

/// The sizes of the files among the first `n` children of `e` and below them.
pub open spec fn spec_size_first(e: TreeEntry, n: int) -> nat
    decreases e, n,
{
    if n <= 0 || n > e.children@.len() {
        0
    } else {
        spec_size_first(e, n - 1) + spec_total_size(e.children@[n - 1])
    }
}

/// The bytes of all files in a tree, or `None` where the sum does not
/// fit.
pub fn get_dir_size(e: &TreeEntry) -> (total: Option<u64>)
    ensures
        match total {
            Some(n) => n == spec_total_size(*e),
            None => spec_total_size(*e) > u64::MAX,
        },
    decreases e, e.children@.len() + 1,
{
    if !e.is_dir {
        return Some(e.size);
    }
    let mut sum: u64 = 0;
    let mut i: usize = 0;
    while i < e.children.len()
        invariant
            i <= e.children@.len(),
            e.is_dir,
            sum == spec_size_first(*e, i as int),
        decreases e.children@.len() - i,
    {
        let part = match get_dir_size(&e.children[i]) {
            Some(p) => p,
            None => {
                proof {
                    assert(spec_size_first(*e, i + 1) == spec_size_first(*e, i as int)
                        + spec_total_size(e.children@[i as int]));
                    lemma_size_grows(*e, i + 1, e.children@.len() as int);
                }
                return None;
            },
        };
        if part > u64::MAX - sum {
            proof {
                assert(spec_size_first(*e, i + 1) == spec_size_first(*e, i as int)
                    + spec_total_size(e.children@[i as int]));
                lemma_size_grows(*e, i + 1, e.children@.len() as int);
            }
            return None;
        }
        sum = sum + part;
        i += 1;
    }
    Some(sum)
}

/// The size of more children is no smaller.
proof fn lemma_size_grows(e: TreeEntry, i: int, n: int)
    requires
        0 <= i <= n <= e.children@.len(),
    ensures
        spec_size_first(e, i) <= spec_size_first(e, n),
    decreases n - i,
{
    if i < n {
        lemma_size_grows(e, i, n - 1);
    }
}

/// The calls that upload the local entry `e` found at `local` to the
/// remote path `remote`: a file is put; a directory is created first,
/// then what it holds follows in listing order.
pub open spec fn spec_upload(local: Seq<char>, remote: Seq<char>, e: TreeEntry) -> Seq<OpModel>
    decreases e, e.children@.len() + 1,
{
    if e.is_dir {
        seq![OpModel::Mkdir { path: remote }] + spec_upload_first(
            local,
            remote,
            e,
            e.children@.len() as int,
        )
    } else {
        seq![OpModel::Put { local, remote, size: e.size }]
    }
}

/// The steps that upload the first `n` children of `e`.
pub open spec fn spec_upload_first(
    local: Seq<char>,
    remote: Seq<char>,
    e: TreeEntry,
    n: int,
) -> Seq<OpModel>
    decreases e, n,
{
    if n <= 0 || n > e.children@.len() {
        Seq::<OpModel>::empty()
    } else {
        let child = e.children@[n - 1];
        spec_upload_first(local, remote, e, n - 1) + spec_upload(
            spec_join(local, child.name@),
            spec_join(remote, child.name@),
            child,
        )
    }
}

/// Appends the steps that upload `e` from `local` to `remote`.
fn upload_into(local: &str, remote: &str, e: &TreeEntry, ops: &mut Vec<TreeOp>)
    ensures
        spec_ops(final(ops)@, final(ops)@.len() as int) == spec_ops(
            old(ops)@,
            old(ops)@.len() as int,
        ) + spec_upload(local@, remote@, *e),
    decreases e, e.children@.len() + 1,
{
    let ghost before = spec_ops(ops@, ops@.len() as int);
    if e.is_dir {
        push_op(ops, TreeOp::Mkdir { path: string_of(&chars_of(remote)) });
        let ghost head = before + seq![OpModel::Mkdir { path: remote@ }];
        assert(spec_ops(ops@, ops@.len() as int) =~= head + spec_upload_first(
            local@,
            remote@,
            *e,
            0,
        ));
        let mut i: usize = 0;
        while i < e.children.len()
            invariant
                i <= e.children@.len(),
                spec_ops(ops@, ops@.len() as int) == head + spec_upload_first(
                    local@,
                    remote@,
                    *e,
                    i as int,
                ),
            decreases e.children@.len() - i,
        {
            let child = &e.children[i];
            let child_local = join_path(local, child.name.as_str());
            let child_remote = join_path(remote, child.name.as_str());
            upload_into(child_local.as_str(), child_remote.as_str(), child, ops);
            assert(head + spec_upload_first(local@, remote@, *e, i as int) + spec_upload(
                child_local@,
                child_remote@,
                *child,
            ) =~= head + spec_upload_first(local@, remote@, *e, i + 1));
            i += 1;
        }
        assert(spec_ops(ops@, ops@.len() as int) =~= before + spec_upload(local@, remote@, *e));
    } else {
        push_op(
            ops,
            TreeOp::Put {
                local: string_of(&chars_of(local)),
                remote: string_of(&chars_of(remote)),
                size: e.size,
            },
        );
        assert(spec_ops(ops@, ops@.len() as int) =~= before + spec_upload(local@, remote@, *e));
    }
}

/// The calls that upload the local tree `root` found at `local` to the
/// remote path `remote`, in the order in which they are to be made.
pub fn upload_plan(local: &str, remote: &str, root: &TreeEntry) -> (ops: Vec<TreeOp>)
    ensures
        spec_ops(ops@, ops@.len() as int) == spec_upload(local@, remote@, *root),
{
    let mut ops: Vec<TreeOp> = Vec::new();
    upload_into(local, remote, root, &mut ops);
    assert(spec_ops(Seq::<TreeOp>::empty(), 0) + spec_upload(local@, remote@, *root)
        =~= spec_upload(local@, remote@, *root));
    ops
}

/// A directory is created before anything is put into it: the calls for
/// a directory begin with its creation.
pub proof fn lemma_upload_creates_first(local: Seq<char>, remote: Seq<char>, e: TreeEntry)
    requires
        e.is_dir,
    ensures
        spec_upload(local, remote, e).len() >= 1,
        spec_upload(local, remote, e)[0] == (OpModel::Mkdir { path: remote }),
{
}

} // verus!
