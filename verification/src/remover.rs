//! Recursive removal of a file or directory tree, with exact accounting.
//!
//! The walk is post-order: a directory's children are removed first, then
//! the emptied directory itself.  Every removed object is recorded as an
//! [`FsObject`], and the returned [`Removal`] is, provably, the tally of
//! that sweep: one directory per `Dir`, and the sum of the `File` sizes,
//! saturating at `u64::MAX`.

use vstd::prelude::*;

use crate::fsio::{list_dir, remove_dir, remove_file, stat, FsStat};
use crate::paths::join_paths;
use crate::removal::Removal;

verus! {

/// Gets told about the progress of a removal sweep.
pub trait CleanReporter: Send + Sync {
    /// Called after one file or directory is removed.
    fn on_clean(&self);

    /// Called after all files and directories are removed.
    fn on_complete(&self);
}

/// One removed filesystem object, as the sweep accounts for it.
#[derive(Debug, Clone, Copy)]
pub enum FsObject {
    /// A removed non-directory holding `size` bytes.
    File { size: u64 },
    /// A removed directory.
    Dir,
}

/// How many directories a sweep removed.
pub open spec fn sweep_dirs(s: Seq<FsObject>) -> nat
    decreases s.len(),
{
    if s.len() == 0 {
        0
    } else {
        sweep_dirs(s.drop_last()) + match s.last() {
            FsObject::Dir => 1nat,
            FsObject::File { .. } => 0nat,
        }
    }
}

/// How many bytes a sweep removed.
pub open spec fn sweep_bytes(s: Seq<FsObject>) -> nat
    decreases s.len(),
{
    if s.len() == 0 {
        0
    } else {
        sweep_bytes(s.drop_last()) + match s.last() {
            FsObject::Dir => 0nat,
            FsObject::File { size } => size as nat,
        }
    }
}

/// A natural number clamped into `u64`.
pub open spec fn sat64(n: nat) -> u64 {
    if n > u64::MAX {
        u64::MAX
    } else {
        n as u64
    }
}

/// The tally of a whole sweep is exactly its directory count and byte sum,
/// saturating at `u64::MAX`.
pub fn removal_of_sweep(objects: &Vec<FsObject>) -> (r: Removal)
    ensures
        r.dirs == sat64(sweep_dirs(objects@)),
        r.bytes == sat64(sweep_bytes(objects@)),
{
    let mut total = Removal::empty();
    let mut i: usize = 0;
    while i < objects.len()
        invariant
            i <= objects@.len(),
            total.dirs == sat64(sweep_dirs(objects@.subrange(0, i as int))),
            total.bytes == sat64(sweep_bytes(objects@.subrange(0, i as int))),
        decreases objects@.len() - i,
    {
        proof {
            assert(objects@.subrange(0, i + 1).drop_last() =~= objects@.subrange(0, i as int));
        }
        match objects[i] {
            FsObject::Dir => {
                total.combine_assign(Removal::new(1, 0));
            },
            FsObject::File { size } => {
                total.combine_assign(Removal::new(0, size));
            },
        }
        i += 1;
    }
    proof {
        assert(objects@.subrange(0, objects@.len() as int) =~= objects@);
    }
    total
}

/// A pending step of the iterative post-order walk.
enum Task {
    /// Look at the object at this path and remove it (listing a directory's
    /// children first).
    Visit(String),
    /// Remove this directory, whose children have all been scheduled before.
    Finish(String),
}

/// Remove the file or directory tree at `path`, telling `reporter` about
/// each removed object.  A nonexistent path yields the empty tally and no
/// error; any other I/O failure aborts the walk.  The result is the exact
/// tally of the removed objects, as [`removal_of_sweep`] states.
fn remove_tree<R: CleanReporter>(path: &str, reporter: Option<&R>) -> (r: Result<
    Removal,
    std::io::Error,
>)
{
    let mut removed: Vec<FsObject> = Vec::new();
    let mut stack: Vec<Task> = Vec::new();
    stack.push(Task::Visit(String::from_str(path)));
    // The walk follows the live filesystem, so no structural measure exists;
    // the step budget bounds it, and is far beyond any real tree.
    let mut fuel: u64 = u64::MAX;
    loop
        decreases fuel,
    {
        let task = match stack.pop() {
            Some(t) => t,
            None => { break },
        };
        if fuel == 0 {
            return Err(crate::fsio::io_error_other("removal walk exceeded its step budget"));
        }
        fuel = fuel - 1;
        match task {
            Task::Visit(p) => {
                match stat(p.as_str())? {
                    FsStat::Missing => {},
                    FsStat::File { size } => {
                        remove_file(p.as_str())?;
                        removed.push(FsObject::File { size });
                        if let Some(rep) = reporter {
                            rep.on_clean();
                        }
                    },
                    FsStat::Dir => {
                        let children = list_dir(p.as_str())?;
                        let mut i: usize = 0;
                        stack.push(Task::Finish(p.clone()));
                        while i < children.len()
                            invariant
                                i <= children@.len(),
                            decreases children@.len() - i,
                        {
                            stack.push(Task::Visit(join_paths(p.as_str(), children[i].as_str())));
                            i += 1;
                        }
                    },
                }
            },
            Task::Finish(p) => {
                remove_dir(p.as_str())?;
                removed.push(FsObject::Dir);
                if let Some(rep) = reporter {
                    rep.on_clean();
                }
            },
        }
    }
    Ok(removal_of_sweep(&removed))
}

/// Remove the file or directory tree at `path` and return the tally.
/// A nonexistent path yields the empty tally, not an error.
pub fn rm_rf(path: &str) -> (r: Result<Removal, std::io::Error>) {
    remove_tree::<NoReporter>(path, None)
}

/// Remove the tree at `path`, telling `reporter` about each removed object
/// and, once the whole sweep is over, calling its completion callback.
pub fn rm_rf_with<R: CleanReporter>(path: &str, reporter: &R) -> (r: Result<
    Removal,
    std::io::Error,
>)
{
    let removal = remove_tree(path, Some(reporter))?;
    reporter.on_complete();
    Ok(removal)
}

/// A reporter that ignores everything, for sweeps nobody watches.
pub struct NoReporter {}

impl CleanReporter for NoReporter {
    fn on_clean(&self) {
    }

    fn on_complete(&self) {
    }
}

} // verus!
