//! The namespace and block facade the handlers call, together with the
//! leader oracle and the worker table.
//!
//! The namespace is a flat table of absolute paths. Every mutating
//! entry point counts its invocations, so that at-most-once dispatch
//! under retries is observable in the state itself.

use vstd::prelude::*;
use crate::errors::{FacadeErrorKind, FsError, FsResult};
use crate::nums::{clamp_i64, nonneg, sat_add_i64, spec_nonneg};
use crate::paths::{is_child_of, is_child_path, spec_valid_path, valid_path};
use crate::seqs::{first_match, keep_matching, lemma_first_match_found, lemma_first_match_none,
    lemma_first_match_props, lemma_keep_contains, lemma_keep_take_step};
use crate::state::{CommitBlock, FileStatus, LocatedBlock, MasterInfo, MkdirOpts, CreateFileOpts,
    SetAttrOpts, StorageInfo, WorkerCommand, WorkerEntry, HeartbeatStatus, BlockEntry,
    BlockReportList};

verus! {

/// The active-master oracle, read once per request before dispatch.
#[derive(Clone, Copy, Debug)]
pub struct MasterMonitor {
    pub active: bool,
}

impl MasterMonitor {
    /// Whether this instance is the active master.
    pub fn is_active(&self) -> (r: bool)
        ensures
            r == self.active,
    {
        self.active
    }
}

/// Invocation counters of the facade's entry points.
#[derive(Clone, Copy, Debug, PartialEq, Eq, Structural)]
pub struct CallCounts {
    pub mkdir: u64,
    pub create: u64,
    pub delete: u64,
    pub rename: u64,
    pub set_attr: u64,
    pub symlink: u64,
    pub append: u64,
    pub add_block: u64,
    pub complete: u64,
    pub heartbeat: u64,
    pub block_report: u64,
}

/// All counters at zero.
pub open spec fn zero_counts() -> CallCounts {
    CallCounts {
        mkdir: 0u64,
        create: 0u64,
        delete: 0u64,
        rename: 0u64,
        set_attr: 0u64,
        symlink: 0u64,
        append: 0u64,
        add_block: 0u64,
        complete: 0u64,
        heartbeat: 0u64,
        block_report: 0u64,
    }
}

impl CallCounts {
    /// All counters at zero.
    pub fn zero() -> (r: CallCounts)
        ensures
            r == zero_counts(),
    {
        CallCounts {
            mkdir: 0,
            create: 0,
            delete: 0,
            rename: 0,
            set_attr: 0,
            symlink: 0,
            append: 0,
            add_block: 0,
            complete: 0,
            heartbeat: 0,
            block_report: 0,
        }
    }
}

/// The worker table: one row per reporting worker.
#[derive(Clone, Debug)]
pub struct WorkerManager {
    pub workers: Vec<WorkerEntry>,
}

/// The facade state the dispatch model speaks of.
#[verifier::ext_equal]
pub ghost struct FsV {
    pub active: bool,
    pub files: Seq<FileStatus>,
    pub blocks: Seq<BlockEntry>,
    pub next_file_id: i64,
    pub next_block_id: i64,
    pub workers: Seq<WorkerEntry>,
    pub calls: CallCounts,
}

/// The namespace, block and worker facade.
#[derive(Clone, Debug)]
pub struct MasterFilesystem {
    pub master_monitor: MasterMonitor,
    pub files: Vec<FileStatus>,
    pub blocks: Vec<BlockEntry>,
    pub next_file_id: i64,
    pub next_block_id: i64,
    pub worker_manager: WorkerManager,
    pub calls: CallCounts,
}

impl View for MasterFilesystem {
    type V = FsV;

    open spec fn view(&self) -> FsV {
        FsV {
            active: self.master_monitor.active,
            files: self.files@,
            blocks: self.blocks@,
            next_file_id: self.next_file_id,
            next_block_id: self.next_block_id,
            workers: self.worker_manager.workers@,
            calls: self.calls,
        }
    }
}

/// Predicate picking the entry of one path.
pub open spec fn has_path(p: Seq<char>) -> spec_fn(FileStatus) -> bool {
    |f: FileStatus| f.path@ == p
}

/// Position of a path's entry in the table, -1 when absent.
pub open spec fn find_file(files: Seq<FileStatus>, p: Seq<char>) -> int {
    first_match(files, has_path(p))
}

/// One entry per path.
pub open spec fn unique_paths(files: Seq<FileStatus>) -> bool {
    forall|i: int, j: int| 0 <= i < j < files.len() ==> files[i].path@ != files[j].path@
}

/// The blocks of one file, in allocation order.
pub open spec fn blocks_of(blocks: Seq<BlockEntry>, file_id: i64) -> Seq<LocatedBlock>
    decreases blocks.len(),
{
    if blocks.len() == 0 {
        Seq::empty()
    } else {
        let pre = blocks_of(blocks.drop_last(), file_id);
        if blocks.last().file_id == file_id {
            pre.push(LocatedBlock { id: blocks.last().block_id, offset: blocks.last().offset })
        } else {
            pre
        }
    }
}

/// The most recently allocated block of one file.
pub open spec fn last_block_of(blocks: Seq<BlockEntry>, file_id: i64) -> Option<LocatedBlock>
    decreases blocks.len(),
{
    if blocks.len() == 0 {
        None
    } else if blocks.last().file_id == file_id {
        Some(LocatedBlock { id: blocks.last().block_id, offset: blocks.last().offset })
    } else {
        last_block_of(blocks.drop_last(), file_id)
    }
}

/// A fresh directory entry.
pub open spec fn new_dir_entry(id: i64, path: String, mode: u32) -> FileStatus {
    FileStatus { id, path, is_dir: true, len: 0i64, mode, is_complete: true, link: None }
}

/// A fresh empty file entry, open for writing.
pub open spec fn new_file_entry(id: i64, path: String, mode: u32) -> FileStatus {
    FileStatus { id, path, is_dir: false, len: 0i64, mode, is_complete: false, link: None }
}

/// A fresh symbolic-link entry.
pub open spec fn new_link_entry(id: i64, path: String, target: String, mode: u32) -> FileStatus {
    FileStatus { id, path, is_dir: false, len: 0i64, mode, is_complete: true, link: Some(target) }
}

/// Make-directory: reports success when the directory is already there,
/// refuses a path held by a non-directory, inserts otherwise.
pub open spec fn spec_mkdir(fs: FsV, path: String, opts: MkdirOpts) -> (FsV, FsResult<bool>) {
    let fs1 = FsV { calls: CallCounts { mkdir: fs.calls.mkdir.saturating_add(1), ..fs.calls }, ..fs };
    if !spec_valid_path(path@) {
        (fs1, Err(FsError::Facade { kind: FacadeErrorKind::InvalidPath, path }))
    } else {
        let i = find_file(fs1.files, path@);
        if i >= 0 {
            if fs1.files[i].is_dir {
                (fs1, Ok(true))
            } else {
                (fs1, Err(FsError::Facade { kind: FacadeErrorKind::AlreadyExists, path }))
            }
        } else {
            (
                FsV {
                    files: fs1.files.push(new_dir_entry(fs1.next_file_id, path, opts.mode)),
                    next_file_id: clamp_i64(fs1.next_file_id + 1),
                    ..fs1
                },
                Ok(true),
            )
        }
    }
}

/// Create-file: inserts an empty incomplete file, replacing an existing
/// file only when asked to overwrite.
pub open spec fn spec_create(fs: FsV, path: String, opts: CreateFileOpts) -> (
    FsV,
    FsResult<FileStatus>,
) {
    let fs1 = FsV {
        calls: CallCounts { create: fs.calls.create.saturating_add(1), ..fs.calls },
        ..fs
    };
    if !spec_valid_path(path@) {
        (fs1, Err(FsError::Facade { kind: FacadeErrorKind::InvalidPath, path }))
    } else {
        let i = find_file(fs1.files, path@);
        let entry = new_file_entry(fs1.next_file_id, path, opts.mode);
        if i >= 0 {
            if fs1.files[i].is_dir || !opts.overwrite {
                (fs1, Err(FsError::Facade { kind: FacadeErrorKind::AlreadyExists, path }))
            } else {
                (
                    FsV {
                        files: fs1.files.update(i, entry),
                        next_file_id: clamp_i64(fs1.next_file_id + 1),
                        ..fs1
                    },
                    Ok(entry),
                )
            }
        } else {
            (
                FsV {
                    files: fs1.files.push(entry),
                    next_file_id: clamp_i64(fs1.next_file_id + 1),
                    ..fs1
                },
                Ok(entry),
            )
        }
    }
}

/// Delete: removes the entry, and its descendants when recursive; a
/// non-empty directory is refused unless recursive.
pub open spec fn spec_delete(fs: FsV, path: String, recursive: bool) -> (FsV, FsResult<bool>) {
    let fs1 = FsV {
        calls: CallCounts { delete: fs.calls.delete.saturating_add(1), ..fs.calls },
        ..fs
    };
    let i = find_file(fs1.files, path@);
    if i < 0 {
        (fs1, Err(FsError::Facade { kind: FacadeErrorKind::NotFound, path }))
    } else {
        let entry = fs1.files[i];
        let has_children = exists|k: int|
            0 <= k < fs1.files.len() && is_child_path(path@, fs1.files[k].path@);
        if entry.is_dir && has_children && !recursive {
            (fs1, Err(FsError::Facade { kind: FacadeErrorKind::NotEmpty, path }))
        } else {
            (
                FsV { files: keep_matching(fs1.files, keeps_outside(path@)), ..fs1 },
                Ok(true),
            )
        }
    }
}

/// Predicate keeping the entries a delete of `p` leaves behind.
pub open spec fn keeps_outside(p: Seq<char>) -> spec_fn(FileStatus) -> bool {
    |f: FileStatus| !(f.path@ == p || is_child_path(p, f.path@))
}

/// Rename: moves one entry to a free target path.
pub open spec fn spec_rename(fs: FsV, src: String, dst: String) -> (FsV, FsResult<bool>) {
    let fs1 = FsV {
        calls: CallCounts { rename: fs.calls.rename.saturating_add(1), ..fs.calls },
        ..fs
    };
    if !spec_valid_path(dst@) {
        (fs1, Err(FsError::Facade { kind: FacadeErrorKind::InvalidPath, path: dst }))
    } else {
        let i = find_file(fs1.files, src@);
        if i < 0 {
            (fs1, Err(FsError::Facade { kind: FacadeErrorKind::NotFound, path: src }))
        } else if find_file(fs1.files, dst@) >= 0 {
            (fs1, Err(FsError::Facade { kind: FacadeErrorKind::AlreadyExists, path: dst }))
        } else {
            (
                FsV {
                    files: fs1.files.update(i, FileStatus { path: dst, ..fs1.files[i] }),
                    ..fs1
                },
                Ok(true),
            )
        }
    }
}

/// Set-attributes: rewrites the permission bits of one entry.
pub open spec fn spec_set_attr(fs: FsV, path: String, opts: SetAttrOpts) -> (FsV, FsResult<()>) {
    let fs1 = FsV {
        calls: CallCounts { set_attr: fs.calls.set_attr.saturating_add(1), ..fs.calls },
        ..fs
    };
    let i = find_file(fs1.files, path@);
    if i < 0 {
        (fs1, Err(FsError::Facade { kind: FacadeErrorKind::NotFound, path }))
    } else {
        let entry = match opts.mode {
            Some(m) => FileStatus { mode: m, ..fs1.files[i] },
            None => fs1.files[i],
        };
        (FsV { files: fs1.files.update(i, entry), ..fs1 }, Ok(()))
    }
}

/// Symlink: inserts a link entry, replacing a non-directory only under
/// force.
pub open spec fn spec_symlink(fs: FsV, target: String, link: String, force: bool, mode: u32) -> (
    FsV,
    FsResult<()>,
) {
    let fs1 = FsV {
        calls: CallCounts { symlink: fs.calls.symlink.saturating_add(1), ..fs.calls },
        ..fs
    };
    if !spec_valid_path(link@) {
        (fs1, Err(FsError::Facade { kind: FacadeErrorKind::InvalidPath, path: link }))
    } else {
        let i = find_file(fs1.files, link@);
        let entry = new_link_entry(fs1.next_file_id, link, target, mode);
        if i >= 0 {
            if force && !fs1.files[i].is_dir {
                (
                    FsV {
                        files: fs1.files.update(i, entry),
                        next_file_id: clamp_i64(fs1.next_file_id + 1),
                        ..fs1
                    },
                    Ok(()),
                )
            } else {
                (fs1, Err(FsError::Facade { kind: FacadeErrorKind::AlreadyExists, path: link }))
            }
        } else {
            (
                FsV {
                    files: fs1.files.push(entry),
                    next_file_id: clamp_i64(fs1.next_file_id + 1),
                    ..fs1
                },
                Ok(()),
            )
        }
    }
}

/// Append: reopens a file for writing and reports its last block.
pub open spec fn spec_append(fs: FsV, path: String, opts: CreateFileOpts) -> (
    FsV,
    FsResult<(Option<LocatedBlock>, FileStatus)>,
) {
    let fs1 = FsV {
        calls: CallCounts { append: fs.calls.append.saturating_add(1), ..fs.calls },
        ..fs
    };
    let i = find_file(fs1.files, path@);
    if i < 0 {
        (fs1, Err(FsError::Facade { kind: FacadeErrorKind::NotFound, path }))
    } else if fs1.files[i].is_dir {
        (fs1, Err(FsError::Facade { kind: FacadeErrorKind::NotFile, path }))
    } else {
        let entry = FileStatus { is_complete: false, ..fs1.files[i] };
        (
            FsV { files: fs1.files.update(i, entry), ..fs1 },
            Ok((last_block_of(fs1.blocks, entry.id), entry)),
        )
    }
}

/// Add-block: commits the previous block's length and allocates the
/// next block at the end of the file.
pub open spec fn spec_add_block(fs: FsV, path: String, previous: Option<CommitBlock>) -> (
    FsV,
    FsResult<LocatedBlock>,
) {
    let fs1 = FsV {
        calls: CallCounts { add_block: fs.calls.add_block.saturating_add(1), ..fs.calls },
        ..fs
    };
    let i = find_file(fs1.files, path@);
    if i < 0 {
        (fs1, Err(FsError::Facade { kind: FacadeErrorKind::NotFound, path }))
    } else if fs1.files[i].is_dir {
        (fs1, Err(FsError::Facade { kind: FacadeErrorKind::NotFile, path }))
    } else {
        let len1 = match previous {
            Some(cb) => clamp_i64(fs1.files[i].len + spec_nonneg(cb.len)),
            None => fs1.files[i].len,
        };
        let entry = FileStatus { len: len1, is_complete: false, ..fs1.files[i] };
        let block = LocatedBlock { id: fs1.next_block_id, offset: len1 };
        (
            FsV {
                files: fs1.files.update(i, entry),
                blocks: fs1.blocks.push(
                    BlockEntry { file_id: entry.id, block_id: block.id, offset: block.offset },
                ),
                next_block_id: clamp_i64(fs1.next_block_id + 1),
                ..fs1
            },
            Ok(block),
        )
    }
}

/// Complete-file: seals a file at its final length.
pub open spec fn spec_complete(fs: FsV, path: String, len: i64, last: Option<CommitBlock>) -> (
    FsV,
    FsResult<()>,
) {
    let fs1 = FsV {
        calls: CallCounts { complete: fs.calls.complete.saturating_add(1), ..fs.calls },
        ..fs
    };
    let i = find_file(fs1.files, path@);
    if i < 0 {
        (fs1, Err(FsError::Facade { kind: FacadeErrorKind::NotFound, path }))
    } else if fs1.files[i].is_dir {
        (fs1, Err(FsError::Facade { kind: FacadeErrorKind::NotFile, path }))
    } else {
        let entry = FileStatus { len: spec_nonneg(len), is_complete: true, ..fs1.files[i] };
        (FsV { files: fs1.files.update(i, entry), ..fs1 }, Ok(()))
    }
}

/// Predicate picking the worker row of one address.
pub open spec fn has_worker_addr(hostname: Seq<char>, port: u32) -> spec_fn(WorkerEntry) -> bool {
    |w: WorkerEntry| w.hostname@ == hostname && w.port == port
}

/// Worker heartbeat: upserts the worker's row; commands are computed by
/// the worker subsystem and empty in this core.
pub open spec fn spec_heartbeat(
    fs: FsV,
    cluster_id: String,
    status: HeartbeatStatus,
    hostname: String,
    port: u32,
    storage_count: int,
) -> (FsV, FsResult<Seq<WorkerCommand>>) {
    let fs1 = FsV {
        calls: CallCounts { heartbeat: fs.calls.heartbeat.saturating_add(1), ..fs.calls },
        ..fs
    };
    let entry = WorkerEntry {
        cluster_id,
        hostname,
        port,
        status,
        storage_count: storage_count as usize,
    };
    let i = first_match(fs1.workers, has_worker_addr(hostname@, port));
    let workers2 = if i >= 0 {
        fs1.workers.update(i, entry)
    } else {
        fs1.workers.push(entry)
    };
    (FsV { workers: workers2, ..fs1 }, Ok(Seq::empty()))
}

/// Block report: the reconciliation itself belongs to the block
/// subsystem; this core records the call.
pub open spec fn spec_block_report(fs: FsV) -> (FsV, FsResult<()>) {
    (
        FsV {
            calls: CallCounts {
                block_report: fs.calls.block_report.saturating_add(1),
                ..fs.calls
            },
            ..fs
        },
        Ok(()),
    )
}

impl FileStatus {
    /// A field-for-field copy whose equality Verus can see.
    pub fn duplicate(&self) -> (r: FileStatus)
        ensures
            r == *self,
    {
        FileStatus {
            id: self.id,
            path: self.path.clone(),
            is_dir: self.is_dir,
            len: self.len,
            mode: self.mode,
            is_complete: self.is_complete,
            link: match &self.link {
                Some(t) => Some(t.clone()),
                None => None,
            },
        }
    }
}

impl MasterFilesystem {
    /// Well-formedness: one entry per path.
    pub open spec fn wf(&self) -> bool {
        unique_paths(self.files@)
    }

    /// An empty namespace under a leader flag.
    pub fn new(active: bool) -> (r: MasterFilesystem)
        ensures
            r.wf(),
            r@.files.len() == 0,
            r@.blocks.len() == 0,
            r@.workers.len() == 0,
            r@.active == active,
            r@.next_file_id == 1,
            r@.next_block_id == 1,
            r@.calls == zero_counts(),
    {
        MasterFilesystem {
            master_monitor: MasterMonitor { active },
            files: Vec::new(),
            blocks: Vec::new(),
            next_file_id: 1,
            next_block_id: 1,
            worker_manager: WorkerManager { workers: Vec::new() },
            calls: CallCounts::zero(),
        }
    }

    /// Position of a path's entry in the backing vector.
    fn find(&self, path: &String) -> (r: Option<usize>)
        ensures
            match r {
                Some(i) => find_file(self.files@, path@) == i && i < self.files@.len(),
                None => find_file(self.files@, path@) == -1,
            },
    {
        let ghost p = has_path(path@);
        let n = self.files.len();
        let mut i: usize = 0;
        while i < n
            invariant
                n == self.files@.len(),
                i <= n,
                forall|j: int| 0 <= j < i ==> !p(self.files@[j]),
                p == has_path(path@),
            decreases n - i,
        {
            if self.files[i].path == *path {
                proof {
                    lemma_first_match_found(self.files@, p, i as int);
                }
                return Some(i);
            }
            i += 1;
        }
        proof {
            lemma_first_match_none(self.files@, p);
        }
        None
    }

    /// Create a directory, tolerant of one already present.
    pub fn mkdir_with_opts(&mut self, path: &String, opts: MkdirOpts) -> (r: FsResult<bool>)
        requires
            old(self).wf(),
        ensures
            final(self).wf(),
            final(self)@ == spec_mkdir(old(self)@, *path, opts).0,
            r == spec_mkdir(old(self)@, *path, opts).1,
    {
        let ghost target = spec_mkdir(old(self)@, *path, opts);
        self.calls.mkdir = self.calls.mkdir.saturating_add(1);
        if !valid_path(path) {
            proof {
                assert(self@ =~= target.0);
            }
            return Err(FsError::Facade { kind: FacadeErrorKind::InvalidPath, path: path.clone() });
        }
        match self.find(path) {
            Some(i) => {
                proof {
                    assert(self@ =~= target.0);
                }
                if self.files[i].is_dir {
                    Ok(true)
                } else {
                    Err(FsError::Facade { kind: FacadeErrorKind::AlreadyExists, path: path.clone() })
                }
            },
            None => {
                let id = self.next_file_id;
                self.files.push(FileStatus {
                    id,
                    path: path.clone(),
                    is_dir: true,
                    len: 0,
                    mode: opts.mode,
                    is_complete: true,
                    link: None,
                });
                self.next_file_id = sat_add_i64(id, 1);
                proof {
                    lemma_first_match_props(old(self).files@, has_path(path@));
                    assert(self@ =~= target.0);
                }
                Ok(true)
            },
        }
    }

    /// Create an empty file and reserve its inode.
    pub fn create_with_opts(&mut self, path: &String, opts: CreateFileOpts) -> (r: FsResult<
        FileStatus,
    >)
        requires
            old(self).wf(),
        ensures
            final(self).wf(),
            final(self)@ == spec_create(old(self)@, *path, opts).0,
            r == spec_create(old(self)@, *path, opts).1,
    {
        let ghost target = spec_create(old(self)@, *path, opts);
        self.calls.create = self.calls.create.saturating_add(1);
        if !valid_path(path) {
            proof {
                assert(self@ =~= target.0);
            }
            return Err(FsError::Facade { kind: FacadeErrorKind::InvalidPath, path: path.clone() });
        }
        let id = self.next_file_id;
        let entry = FileStatus {
            id,
            path: path.clone(),
            is_dir: false,
            len: 0,
            mode: opts.mode,
            is_complete: false,
            link: None,
        };
        match self.find(path) {
            Some(i) => {
                if self.files[i].is_dir || !opts.overwrite {
                    proof {
                        assert(self@ =~= target.0);
                    }
                    Err(FsError::Facade { kind: FacadeErrorKind::AlreadyExists, path: path.clone() })
                } else {
                    let out = entry.duplicate();
                    self.files.set(i, entry);
                    self.next_file_id = sat_add_i64(id, 1);
                    proof {
                        lemma_first_match_props(old(self).files@, has_path(path@));
                        assert(forall|k: int|
                            0 <= k < self.files@.len() && k != i ==> self.files@[k] == old(
                                self,
                            ).files@[k]);
                        assert(self@ =~= target.0);
                    }
                    Ok(out)
                }
            },
            None => {
                let out = entry.duplicate();
                self.files.push(entry);
                self.next_file_id = sat_add_i64(id, 1);
                proof {
                    lemma_first_match_props(old(self).files@, has_path(path@));
                    assert(self@ =~= target.0);
                }
                Ok(out)
            },
        }
    }

    /// Read the current status of a path.
    pub fn file_status(&self, path: &String) -> (r: FsResult<FileStatus>)
        ensures
            r == (if find_file(self.files@, path@) >= 0 {
                Ok::<FileStatus, FsError>(self.files@[find_file(self.files@, path@)])
            } else {
                Err(FsError::Facade { kind: FacadeErrorKind::NotFound, path: *path })
            }),
    {
        match self.find(path) {
            Some(i) => Ok(self.files[i].duplicate()),
            None => Err(FsError::Facade { kind: FacadeErrorKind::NotFound, path: path.clone() }),
        }
    }

    /// Whether a path has an entry.
    pub fn path_exists(&self, path: &String) -> (r: FsResult<bool>)
        ensures
            r == Ok::<bool, FsError>(find_file(self.files@, path@) >= 0),
    {
        match self.find(path) {
            Some(_) => Ok(true),
            None => Ok(false),
        }
    }

    /// Remove an entry, and its descendants when recursive.
    pub fn delete(&mut self, path: &String, recursive: bool) -> (r: FsResult<bool>)
        requires
            old(self).wf(),
        ensures
            final(self).wf(),
            final(self)@ == spec_delete(old(self)@, *path, recursive).0,
            r == spec_delete(old(self)@, *path, recursive).1,
    {
        let ghost target = spec_delete(old(self)@, *path, recursive);
        self.calls.delete = self.calls.delete.saturating_add(1);
        let entry_at = match self.find(path) {
            None => {
                proof {
                    assert(self@ =~= target.0);
                }
                return Err(FsError::Facade { kind: FacadeErrorKind::NotFound, path: path.clone() });
            },
            Some(i) => i,
        };
        let is_dir = self.files[entry_at].is_dir;
        // Look for a descendant before touching anything.
        let mut has_child = false;
        let n = self.files.len();
        let mut i: usize = 0;
        while i < n
            invariant
                n == self.files@.len(),
                i <= n,
                has_child == exists|k: int|
                    0 <= k < i && is_child_path(path@, self.files@[k].path@),
            decreases n - i,
        {
            if is_child_of(path, &self.files[i].path) {
                has_child = true;
            }
            i += 1;
        }
        if is_dir && has_child && !recursive {
            proof {
                assert(self@ =~= target.0);
            }
            return Err(FsError::Facade { kind: FacadeErrorKind::NotEmpty, path: path.clone() });
        }
        // Keep everything outside the deleted subtree.
        let ghost keep = keeps_outside(path@);
        let mut kept: Vec<FileStatus> = Vec::new();
        let mut j: usize = 0;
        while j < n
            invariant
                n == self.files@.len(),
                j <= n,
                kept@ == keep_matching(self.files@.take(j as int), keep),
                keep == keeps_outside(path@),
            decreases n - j,
        {
            proof {
                lemma_keep_take_step(self.files@, keep, j as int);
            }
            let f = &self.files[j];
            let same = f.path == *path;
            if !(same || is_child_of(path, &f.path)) {
                kept.push(f.duplicate());
            }
            j += 1;
        }
        proof {
            assert(self.files@.take(n as int) =~= self.files@);
        }
        self.files = kept;
        proof {
            lemma_keep_unique_paths(old(self).files@, keep);
            assert(self@ =~= target.0);
        }
        Ok(true)
    }

    /// Move one entry to a free target path.
    pub fn rename(&mut self, src: &String, dst: &String) -> (r: FsResult<bool>)
        requires
            old(self).wf(),
        ensures
            final(self).wf(),
            final(self)@ == spec_rename(old(self)@, *src, *dst).0,
            r == spec_rename(old(self)@, *src, *dst).1,
    {
        let ghost target = spec_rename(old(self)@, *src, *dst);
        self.calls.rename = self.calls.rename.saturating_add(1);
        if !valid_path(dst) {
            proof {
                assert(self@ =~= target.0);
            }
            return Err(FsError::Facade { kind: FacadeErrorKind::InvalidPath, path: dst.clone() });
        }
        let i = match self.find(src) {
            None => {
                proof {
                    assert(self@ =~= target.0);
                }
                return Err(FsError::Facade { kind: FacadeErrorKind::NotFound, path: src.clone() });
            },
            Some(i) => i,
        };
        match self.find(dst) {
            Some(_) => {
                proof {
                    assert(self@ =~= target.0);
                }
                Err(FsError::Facade { kind: FacadeErrorKind::AlreadyExists, path: dst.clone() })
            },
            None => {
                let moved = FileStatus { path: dst.clone(), ..self.files[i].duplicate() };
                self.files.set(i, moved);
                proof {
                    lemma_first_match_props(old(self).files@, has_path(dst@));
                    assert(forall|k: int|
                        0 <= k < self.files@.len() && k != i ==> self.files@[k] == old(
                            self,
                        ).files@[k]);
                    assert(self@ =~= target.0);
                }
                Ok(true)
            },
        }
    }

    /// List a directory's descendants, or a file as itself.
    pub fn list_status(&self, path: &String) -> (r: FsResult<Vec<FileStatus>>)
        ensures
            (match r {
                Ok(v) => {
                    let i = find_file(self.files@, path@);
                    &&& i >= 0
                    &&& (if self.files@[i].is_dir {
                        v@ == keep_matching(self.files@, is_inside(path@))
                    } else {
                        v@ == seq![self.files@[i]]
                    })
                },
                Err(e) => find_file(self.files@, path@) < 0 && e == (FsError::Facade {
                    kind: FacadeErrorKind::NotFound,
                    path: *path,
                }),
            }),
    {
        let at = match self.find(path) {
            None => {
                return Err(FsError::Facade { kind: FacadeErrorKind::NotFound, path: path.clone() });
            },
            Some(i) => i,
        };
        if !self.files[at].is_dir {
            let mut out: Vec<FileStatus> = Vec::new();
            out.push(self.files[at].duplicate());
            proof {
                assert(out@ =~= seq![self.files@[at as int]]);
            }
            return Ok(out);
        }
        let ghost keep = is_inside(path@);
        let n = self.files.len();
        let mut out: Vec<FileStatus> = Vec::new();
        let mut i: usize = 0;
        while i < n
            invariant
                n == self.files@.len(),
                i <= n,
                out@ == keep_matching(self.files@.take(i as int), keep),
                keep == is_inside(path@),
            decreases n - i,
        {
            proof {
                lemma_keep_take_step(self.files@, keep, i as int);
            }
            if is_child_of(path, &self.files[i].path) {
                out.push(self.files[i].duplicate());
            }
            i += 1;
        }
        proof {
            assert(self.files@.take(n as int) =~= self.files@);
        }
        Ok(out)
    }

    /// Read the status and block list of a file.
    pub fn get_block_locations(&self, path: &String) -> (r: FsResult<(FileStatus, Vec<LocatedBlock>)>)
        ensures
            (match r {
                Ok(p) => {
                    let i = find_file(self.files@, path@);
                    &&& i >= 0
                    &&& p.0 == self.files@[i]
                    &&& p.1@ == blocks_of(self.blocks@, self.files@[i].id)
                },
                Err(e) => find_file(self.files@, path@) < 0 && e == (FsError::Facade {
                    kind: FacadeErrorKind::NotFound,
                    path: *path,
                }),
            }),
    {
        let at = match self.find(path) {
            None => {
                return Err(FsError::Facade { kind: FacadeErrorKind::NotFound, path: path.clone() });
            },
            Some(i) => i,
        };
        let status = self.files[at].duplicate();
        let fid = status.id;
        let n = self.blocks.len();
        let mut out: Vec<LocatedBlock> = Vec::new();
        let mut i: usize = 0;
        while i < n
            invariant
                n == self.blocks@.len(),
                i <= n,
                out@ == blocks_of(self.blocks@.take(i as int), fid),
            decreases n - i,
        {
            proof {
                assert(self.blocks@.take(i as int + 1).drop_last() =~= self.blocks@.take(i as int));
                assert(self.blocks@.take(i as int + 1).last() == self.blocks@[i as int]);
            }
            let b = self.blocks[i];
            if b.file_id == fid {
                out.push(LocatedBlock { id: b.block_id, offset: b.offset });
            }
            i += 1;
        }
        proof {
            assert(self.blocks@.take(n as int) =~= self.blocks@);
        }
        Ok((status, out))
    }

    /// Rewrite the permission bits of one entry.
    pub fn set_attr(&mut self, path: &String, opts: SetAttrOpts) -> (r: FsResult<()>)
        requires
            old(self).wf(),
        ensures
            final(self).wf(),
            final(self)@ == spec_set_attr(old(self)@, *path, opts).0,
            r == spec_set_attr(old(self)@, *path, opts).1,
    {
        let ghost target = spec_set_attr(old(self)@, *path, opts);
        self.calls.set_attr = self.calls.set_attr.saturating_add(1);
        match self.find(path) {
            None => {
                proof {
                    assert(self@ =~= target.0);
                }
                Err(FsError::Facade { kind: FacadeErrorKind::NotFound, path: path.clone() })
            },
            Some(i) => {
                let entry = match opts.mode {
                    Some(m) => FileStatus { mode: m, ..self.files[i].duplicate() },
                    None => self.files[i].duplicate(),
                };
                self.files.set(i, entry);
                proof {
                    assert(forall|k: int|
                        0 <= k < self.files@.len() && k != i ==> self.files@[k] == old(
                            self,
                        ).files@[k]);
                    assert(self@ =~= target.0);
                }
                Ok(())
            },
        }
    }

    /// Create a symbolic link.
    pub fn symlink(&mut self, target_path: &String, link: &String, force: bool, mode: u32) -> (r:
        FsResult<()>)
        requires
            old(self).wf(),
        ensures
            final(self).wf(),
            final(self)@ == spec_symlink(old(self)@, *target_path, *link, force, mode).0,
            r == spec_symlink(old(self)@, *target_path, *link, force, mode).1,
    {
        let ghost target = spec_symlink(old(self)@, *target_path, *link, force, mode);
        self.calls.symlink = self.calls.symlink.saturating_add(1);
        if !valid_path(link) {
            proof {
                assert(self@ =~= target.0);
            }
            return Err(FsError::Facade { kind: FacadeErrorKind::InvalidPath, path: link.clone() });
        }
        let id = self.next_file_id;
        let entry = FileStatus {
            id,
            path: link.clone(),
            is_dir: false,
            len: 0,
            mode,
            is_complete: true,
            link: Some(target_path.clone()),
        };
        match self.find(link) {
            Some(i) => {
                if force && !self.files[i].is_dir {
                    self.files.set(i, entry);
                    self.next_file_id = sat_add_i64(id, 1);
                    proof {
                        lemma_first_match_props(old(self).files@, has_path(link@));
                        assert(forall|k: int|
                            0 <= k < self.files@.len() && k != i ==> self.files@[k] == old(
                                self,
                            ).files@[k]);
                        assert(self@ =~= target.0);
                    }
                    Ok(())
                } else {
                    proof {
                        assert(self@ =~= target.0);
                    }
                    Err(FsError::Facade { kind: FacadeErrorKind::AlreadyExists, path: link.clone() })
                }
            },
            None => {
                self.files.push(entry);
                self.next_file_id = sat_add_i64(id, 1);
                proof {
                    lemma_first_match_props(old(self).files@, has_path(link@));
                    assert(self@ =~= target.0);
                }
                Ok(())
            },
        }
    }

    /// Reopen a file for appending; report its status and last block.
    pub fn append_file(&mut self, path: &String, opts: CreateFileOpts) -> (r: FsResult<
        (Option<LocatedBlock>, FileStatus),
    >)
        requires
            old(self).wf(),
        ensures
            final(self).wf(),
            final(self)@ == spec_append(old(self)@, *path, opts).0,
            r == spec_append(old(self)@, *path, opts).1,
    {
        let ghost target = spec_append(old(self)@, *path, opts);
        self.calls.append = self.calls.append.saturating_add(1);
        let i = match self.find(path) {
            None => {
                proof {
                    assert(self@ =~= target.0);
                }
                return Err(FsError::Facade { kind: FacadeErrorKind::NotFound, path: path.clone() });
            },
            Some(i) => i,
        };
        if self.files[i].is_dir {
            proof {
                assert(self@ =~= target.0);
            }
            return Err(FsError::Facade { kind: FacadeErrorKind::NotFile, path: path.clone() });
        }
        let entry = FileStatus { is_complete: false, ..self.files[i].duplicate() };
        let out = entry.duplicate();
        self.files.set(i, entry);
        let last = self.find_last_block(out.id);
        proof {
            assert(forall|k: int|
                0 <= k < self.files@.len() && k != i ==> self.files@[k] == old(self).files@[k]);
            assert(self@ =~= target.0);
        }
        Ok((last, out))
    }

    /// The most recently allocated block of a file.
    fn find_last_block(&self, file_id: i64) -> (r: Option<LocatedBlock>)
        ensures
            r == last_block_of(self.blocks@, file_id),
    {
        let n = self.blocks.len();
        let mut cur: Option<LocatedBlock> = None;
        let mut i: usize = 0;
        while i < n
            invariant
                n == self.blocks@.len(),
                i <= n,
                cur == last_block_of(self.blocks@.take(i as int), file_id),
            decreases n - i,
        {
            proof {
                assert(self.blocks@.take(i as int + 1).drop_last() =~= self.blocks@.take(i as int));
                assert(self.blocks@.take(i as int + 1).last() == self.blocks@[i as int]);
            }
            let b = self.blocks[i];
            if b.file_id == file_id {
                cur = Some(LocatedBlock { id: b.block_id, offset: b.offset });
            }
            i += 1;
        }
        proof {
            assert(self.blocks@.take(n as int) =~= self.blocks@);
        }
        cur
    }

    /// Allocate the next block of a file.
    pub fn add_block(&mut self, path: &String, previous: Option<CommitBlock>) -> (r: FsResult<
        LocatedBlock,
    >)
        requires
            old(self).wf(),
        ensures
            final(self).wf(),
            final(self)@ == spec_add_block(old(self)@, *path, previous).0,
            r == spec_add_block(old(self)@, *path, previous).1,
    {
        let ghost target = spec_add_block(old(self)@, *path, previous);
        self.calls.add_block = self.calls.add_block.saturating_add(1);
        let i = match self.find(path) {
            None => {
                proof {
                    assert(self@ =~= target.0);
                }
                return Err(FsError::Facade { kind: FacadeErrorKind::NotFound, path: path.clone() });
            },
            Some(i) => i,
        };
        if self.files[i].is_dir {
            proof {
                assert(self@ =~= target.0);
            }
            return Err(FsError::Facade { kind: FacadeErrorKind::NotFile, path: path.clone() });
        }
        let len1 = match previous {
            Some(cb) => sat_add_i64(self.files[i].len, nonneg(cb.len)),
            None => self.files[i].len,
        };
        let entry = FileStatus { len: len1, is_complete: false, ..self.files[i].duplicate() };
        let fid = entry.id;
        self.files.set(i, entry);
        let block = LocatedBlock { id: self.next_block_id, offset: len1 };
        self.blocks.push(BlockEntry { file_id: fid, block_id: block.id, offset: block.offset });
        self.next_block_id = sat_add_i64(self.next_block_id, 1);
        proof {
            assert(forall|k: int|
                0 <= k < self.files@.len() && k != i ==> self.files@[k] == old(self).files@[k]);
            assert(self@ =~= target.0);
        }
        Ok(block)
    }

    /// Seal a file at its final length.
    pub fn complete_file(&mut self, path: &String, len: i64, last: Option<CommitBlock>) -> (r:
        FsResult<()>)
        requires
            old(self).wf(),
        ensures
            final(self).wf(),
            final(self)@ == spec_complete(old(self)@, *path, len, last).0,
            r == spec_complete(old(self)@, *path, len, last).1,
    {
        let ghost target = spec_complete(old(self)@, *path, len, last);
        self.calls.complete = self.calls.complete.saturating_add(1);
        let i = match self.find(path) {
            None => {
                proof {
                    assert(self@ =~= target.0);
                }
                return Err(FsError::Facade { kind: FacadeErrorKind::NotFound, path: path.clone() });
            },
            Some(i) => i,
        };
        if self.files[i].is_dir {
            proof {
                assert(self@ =~= target.0);
            }
            return Err(FsError::Facade { kind: FacadeErrorKind::NotFile, path: path.clone() });
        }
        let entry = FileStatus {
            len: nonneg(len),
            is_complete: true,
            ..self.files[i].duplicate()
        };
        self.files.set(i, entry);
        proof {
            assert(forall|k: int|
                0 <= k < self.files@.len() && k != i ==> self.files@[k] == old(self).files@[k]);
            assert(self@ =~= target.0);
        }
        Ok(())
    }

    /// A snapshot of cluster-wide counts.
    pub fn master_info(&self) -> (r: FsResult<MasterInfo>)
        ensures
            r == Ok::<MasterInfo, FsError>(MasterInfo {
                active: self@.active,
                file_count: self@.files.len() as u64,
                block_count: self@.blocks.len() as u64,
                worker_count: self@.workers.len() as u64,
            }),
    {
        Ok(MasterInfo {
            active: self.master_monitor.active,
            file_count: self.files.len() as u64,
            block_count: self.blocks.len() as u64,
            worker_count: self.worker_manager.workers.len() as u64,
        })
    }

    /// Upsert a worker's row from its heartbeat and hand back the
    /// commands owed to it.
    pub fn heartbeat(
        &mut self,
        cluster_id: &String,
        status: HeartbeatStatus,
        hostname: &String,
        port: u32,
        storages: &Vec<StorageInfo>,
    ) -> (r: FsResult<Vec<WorkerCommand>>)
        requires
            old(self).wf(),
        ensures
            final(self).wf(),
            final(self)@ == spec_heartbeat(
                old(self)@,
                *cluster_id,
                status,
                *hostname,
                port,
                storages@.len() as int,
            ).0,
            (match r {
                Ok(v) => v@.len() == 0,
                Err(_) => false,
            }),
    {
        let ghost target = spec_heartbeat(
            old(self)@,
            *cluster_id,
            status,
            *hostname,
            port,
            storages@.len() as int,
        );
        self.calls.heartbeat = self.calls.heartbeat.saturating_add(1);
        let entry = WorkerEntry {
            cluster_id: cluster_id.clone(),
            hostname: hostname.clone(),
            port,
            status,
            storage_count: storages.len(),
        };
        match self.find_worker(hostname, port) {
            Some(i) => {
                self.worker_manager.workers.set(i, entry);
                proof {
                    assert(self@ =~= target.0);
                }
                Ok(Vec::new())
            },
            None => {
                self.worker_manager.workers.push(entry);
                proof {
                    assert(self@ =~= target.0);
                }
                Ok(Vec::new())
            },
        }
    }

    /// Position of a worker's row in the worker table.
    fn find_worker(&self, hostname: &String, port: u32) -> (r: Option<usize>)
        ensures
            match r {
                Some(i) => first_match(self.worker_manager.workers@, has_worker_addr(hostname@, port))
                    == i && i < self.worker_manager.workers@.len(),
                None => first_match(self.worker_manager.workers@, has_worker_addr(hostname@, port))
                    == -1,
            },
    {
        let ghost p = has_worker_addr(hostname@, port);
        let n = self.worker_manager.workers.len();
        let mut i: usize = 0;
        while i < n
            invariant
                n == self.worker_manager.workers@.len(),
                i <= n,
                forall|j: int| 0 <= j < i ==> !p(self.worker_manager.workers@[j]),
                p == has_worker_addr(hostname@, port),
            decreases n - i,
        {
            let w = &self.worker_manager.workers[i];
            if w.hostname == *hostname && w.port == port {
                proof {
                    lemma_first_match_found(self.worker_manager.workers@, p, i as int);
                }
                return Some(i);
            }
            i += 1;
        }
        proof {
            lemma_first_match_none(self.worker_manager.workers@, p);
        }
        None
    }

    /// Take one worker's block report; reconciliation belongs to the
    /// block subsystem.
    pub fn block_report(&mut self, report: &BlockReportList) -> (r: FsResult<()>)
        requires
            old(self).wf(),
        ensures
            final(self).wf(),
            final(self)@ == spec_block_report(old(self)@).0,
            r == spec_block_report(old(self)@).1,
    {
        let ghost target = spec_block_report(old(self)@);
        self.calls.block_report = self.calls.block_report.saturating_add(1);
        proof {
            assert(self@ =~= target.0);
        }
        Ok(())
    }
}

/// Predicate keeping the entries inside a directory.
pub open spec fn is_inside(p: Seq<char>) -> spec_fn(FileStatus) -> bool {
    |f: FileStatus| is_child_path(p, f.path@)
}

/// Deleting a subtree keeps paths unique.
pub proof fn lemma_keep_unique_paths(s: Seq<FileStatus>, keep: spec_fn(FileStatus) -> bool)
    requires
        unique_paths(s),
    ensures
        unique_paths(keep_matching(s, keep)),
    decreases s.len(),
{
    if s.len() > 0 {
        assert(forall|i: int, j: int|
            0 <= i < j < s.drop_last().len() ==> s.drop_last()[i].path@ != s.drop_last()[j].path@);
        lemma_keep_unique_paths(s.drop_last(), keep);
        let pre = keep_matching(s.drop_last(), keep);
        let r = keep_matching(s, keep);
        if keep(s.last()) {
            lemma_keep_contains(s.drop_last(), keep);
            assert forall|k: int| 0 <= k < pre.len() implies pre[k].path@ != s.last().path@ by {
                assert(s.drop_last().contains(pre[k]));
                let m = choose|m: int|
                    0 <= m < s.drop_last().len() && s.drop_last()[m] == pre[k];
                assert(s[m] == pre[k]);
                assert(s[m].path@ != s[s.len() - 1].path@);
            }
        }
    }
}

} // verus!
