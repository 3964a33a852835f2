//! The mount-table facade: bindings of namespace paths to backing
//! storage locations.

use vstd::prelude::*;
use crate::errors::{FacadeErrorKind, FsError, FsResult};
use crate::paths::{spec_valid_path, valid_path};
use crate::seqs::{first_match, lemma_first_match_found, lemma_first_match_none,
    lemma_first_match_props};
use crate::state::MountPoint;

verus! {

/// Predicate picking the mount row of one namespace path.
pub open spec fn has_mount_path(p: Seq<char>) -> spec_fn(MountPoint) -> bool {
    |m: MountPoint| m.curvine_path@ == p
}

/// Position of a namespace path's mount row, -1 when absent.
pub open spec fn find_mount(mounts: Seq<MountPoint>, p: Seq<char>) -> int {
    first_match(mounts, has_mount_path(p))
}

/// Mount: binds a free, valid namespace path to a backing location.
pub open spec fn spec_mount(
    mounts: Seq<MountPoint>,
    curvine_path: String,
    ufs_path: String,
    read_only: bool,
) -> (Seq<MountPoint>, FsResult<()>) {
    if !spec_valid_path(curvine_path@) {
        (mounts, Err(FsError::Facade { kind: FacadeErrorKind::InvalidPath, path: curvine_path }))
    } else if ufs_path@.len() == 0 {
        (mounts, Err(FsError::Facade { kind: FacadeErrorKind::InvalidPath, path: ufs_path }))
    } else if find_mount(mounts, curvine_path@) >= 0 {
        (mounts, Err(FsError::Facade { kind: FacadeErrorKind::AlreadyExists, path: curvine_path }))
    } else {
        (mounts.push(MountPoint { curvine_path, ufs_path, read_only }), Ok(()))
    }
}

/// Unmount: removes the binding of one namespace path.
pub open spec fn spec_umount(mounts: Seq<MountPoint>, curvine_path: String) -> (
    Seq<MountPoint>,
    FsResult<()>,
) {
    if !spec_valid_path(curvine_path@) {
        (mounts, Err(FsError::Facade { kind: FacadeErrorKind::InvalidPath, path: curvine_path }))
    } else {
        let i = find_mount(mounts, curvine_path@);
        if i < 0 {
            (mounts, Err(FsError::Facade { kind: FacadeErrorKind::NotFound, path: curvine_path }))
        } else {
            (mounts.remove(i), Ok(()))
        }
    }
}

/// The mount-table facade.
#[derive(Clone, Debug)]
pub struct MountManager {
    pub mounts: Vec<MountPoint>,
}

impl MountPoint {
    /// A field-for-field copy whose equality Verus can see.
    pub fn duplicate(&self) -> (r: MountPoint)
        ensures
            r == *self,
    {
        MountPoint {
            curvine_path: self.curvine_path.clone(),
            ufs_path: self.ufs_path.clone(),
            read_only: self.read_only,
        }
    }
}

impl MountManager {
    /// Well-formedness: one row per namespace path.
    pub open spec fn wf(&self) -> bool {
        forall|i: int, j: int|
            0 <= i < j < self.mounts@.len() ==> self.mounts@[i].curvine_path@
                != self.mounts@[j].curvine_path@
    }

    /// An empty mount table.
    pub fn new() -> (r: MountManager)
        ensures
            r.wf(),
            r.mounts@.len() == 0,
    {
        MountManager { mounts: Vec::new() }
    }

    /// Position of a namespace path's row in the backing vector.
    fn find(&self, path: &String) -> (r: Option<usize>)
        ensures
            match r {
                Some(i) => find_mount(self.mounts@, path@) == i && i < self.mounts@.len(),
                None => find_mount(self.mounts@, path@) == -1,
            },
    {
        let ghost p = has_mount_path(path@);
        let n = self.mounts.len();
        let mut i: usize = 0;
        while i < n
            invariant
                n == self.mounts@.len(),
                i <= n,
                forall|j: int| 0 <= j < i ==> !p(self.mounts@[j]),
                p == has_mount_path(path@),
            decreases n - i,
        {
            if self.mounts[i].curvine_path == *path {
                proof {
                    lemma_first_match_found(self.mounts@, p, i as int);
                }
                return Some(i);
            }
            i += 1;
        }
        proof {
            lemma_first_match_none(self.mounts@, p);
        }
        None
    }

    /// Bind a namespace path to a backing location.
    pub fn mount(&mut self, curvine_path: &String, ufs_path: &String, read_only: bool) -> (r:
        FsResult<()>)
        requires
            old(self).wf(),
        ensures
            final(self).wf(),
            final(self).mounts@ == spec_mount(old(self).mounts@, *curvine_path, *ufs_path,
                read_only).0,
            r == spec_mount(old(self).mounts@, *curvine_path, *ufs_path, read_only).1,
    {
        if !valid_path(curvine_path) {
            return Err(FsError::Facade {
                kind: FacadeErrorKind::InvalidPath,
                path: curvine_path.clone(),
            });
        }
        if ufs_path.as_str().unicode_len() == 0 {
            return Err(FsError::Facade {
                kind: FacadeErrorKind::InvalidPath,
                path: ufs_path.clone(),
            });
        }
        match self.find(curvine_path) {
            Some(_) => Err(FsError::Facade {
                kind: FacadeErrorKind::AlreadyExists,
                path: curvine_path.clone(),
            }),
            None => {
                self.mounts.push(MountPoint {
                    curvine_path: curvine_path.clone(),
                    ufs_path: ufs_path.clone(),
                    read_only,
                });
                proof {
                    lemma_first_match_props(old(self).mounts@, has_mount_path(curvine_path@));
                }
                Ok(())
            },
        }
    }

    /// Remove the binding of one namespace path.
    pub fn umount(&mut self, curvine_path: &String) -> (r: FsResult<()>)
        requires
            old(self).wf(),
        ensures
            final(self).wf(),
            final(self).mounts@ == spec_umount(old(self).mounts@, *curvine_path).0,
            r == spec_umount(old(self).mounts@, *curvine_path).1,
    {
        if !valid_path(curvine_path) {
            return Err(FsError::Facade {
                kind: FacadeErrorKind::InvalidPath,
                path: curvine_path.clone(),
            });
        }
        match self.find(curvine_path) {
            None => Err(FsError::Facade {
                kind: FacadeErrorKind::NotFound,
                path: curvine_path.clone(),
            }),
            Some(i) => {
                self.mounts.remove(i);
                proof {
                    assert forall|a: int, b: int|
                        0 <= a < b < self.mounts@.len() implies self.mounts@[a].curvine_path@
                        != self.mounts@[b].curvine_path@ by {
                        if a < i {
                        } else {
                        }
                    }
                }
                Ok(())
            },
        }
    }

    /// Read the mount row of one namespace path, absent when unbound.
    pub fn get_mount_point(&self, path: &String) -> (r: FsResult<Option<MountPoint>>)
        ensures
            r == (if !spec_valid_path(path@) {
                Err::<Option<MountPoint>, FsError>(FsError::Facade {
                    kind: FacadeErrorKind::InvalidPath,
                    path: *path,
                })
            } else if find_mount(self.mounts@, path@) >= 0 {
                Ok(Some(self.mounts@[find_mount(self.mounts@, path@)]))
            } else {
                Ok(None)
            }),
    {
        if !valid_path(path) {
            return Err(FsError::Facade {
                kind: FacadeErrorKind::InvalidPath,
                path: path.clone(),
            });
        }
        match self.find(path) {
            Some(i) => Ok(Some(self.mounts[i].duplicate())),
            None => Ok(None),
        }
    }

    /// Read the whole mount table, in binding order.
    pub fn get_mount_table(&self) -> (r: FsResult<Vec<MountPoint>>)
        ensures
            match r {
                Ok(v) => v@ == self.mounts@,
                Err(_) => false,
            },
    {
        let n = self.mounts.len();
        let mut out: Vec<MountPoint> = Vec::new();
        let mut i: usize = 0;
        while i < n
            invariant
                n == self.mounts@.len(),
                i <= n,
                out@ == self.mounts@.take(i as int),
            decreases n - i,
        {
            out.push(self.mounts[i].duplicate());
            proof {
                assert(out@ =~= self.mounts@.take(i as int + 1));
            }
            i += 1;
        }
        proof {
            assert(self.mounts@.take(n as int) =~= self.mounts@);
        }
        Ok(out)
    }
}

} // verus!
