//! The load sub-service adapter. The four load-related codes are handed
//! to it whole, and its reply goes back unchanged; it owns its own
//! scheduling and never reaches the dispatcher's metrics or audit.

use vstd::prelude::*;
use crate::errors::FsError;
use crate::proto::{Message, Reply, ReplyV, RequestHeader, RespV, ResponseHeader};
use crate::seqs::{first_match, lemma_first_match_found, lemma_first_match_none};

verus! {

/// One tracked load job.
#[derive(Clone, Debug)]
pub struct LoadJob {
    pub job_id: i64,
    pub path: String,
    pub state: u32,
    pub progress: i64,
}

/// The load sub-service state the dispatch model speaks of.
#[verifier::ext_equal]
pub ghost struct LoadV {
    pub jobs: Seq<LoadJob>,
    pub next_job_id: i64,
}

/// The load sub-service: jobs by id, scheduled elsewhere.
#[derive(Clone, Debug)]
pub struct MasterLoadService {
    pub jobs: Vec<LoadJob>,
    pub next_job_id: i64,
}

impl View for MasterLoadService {
    type V = LoadV;

    open spec fn view(&self) -> LoadV {
        LoadV { jobs: self.jobs@, next_job_id: self.next_job_id }
    }
}

/// Predicate picking the job of one id.
pub open spec fn has_job_id(id: i64) -> spec_fn(LoadJob) -> bool {
    |j: LoadJob| j.job_id == id
}

/// The running state a submitted job starts in.
pub open spec fn job_running() -> u32 {
    1u32
}

/// How the sub-service answers one forwarded message: submit tracks a
/// fresh running job, status reads it, cancel drops it, a task report
/// updates its progress; any other payload is refused as malformed.
pub open spec fn spec_load_handle(ls: LoadV, msg: Message) -> (LoadV, ReplyV) {
    match msg.header {
        RequestHeader::SubmitLoadJob { path } => {
            let job = LoadJob {
                job_id: ls.next_job_id,
                path,
                state: job_running(),
                progress: 0i64,
            };
            (
                LoadV {
                    jobs: ls.jobs.push(job),
                    next_job_id: crate::nums::clamp_i64(ls.next_job_id + 1),
                },
                ReplyV {
                    req_id: msg.req_id,
                    code: msg.code,
                    header: RespV::SubmitLoadJob { job_id: ls.next_job_id },
                },
            )
        },
        RequestHeader::GetLoadStatus { job_id } => {
            let i = first_match(ls.jobs, has_job_id(job_id));
            let state = if i >= 0 {
                ls.jobs[i].state
            } else {
                0u32
            };
            (
                ls,
                ReplyV {
                    req_id: msg.req_id,
                    code: msg.code,
                    header: RespV::GetLoadStatus { job_id, state },
                },
            )
        },
        RequestHeader::CancelLoadJob { job_id } => {
            let i = first_match(ls.jobs, has_job_id(job_id));
            let jobs2 = if i >= 0 {
                ls.jobs.remove(i)
            } else {
                ls.jobs
            };
            (
                LoadV { jobs: jobs2, ..ls },
                ReplyV { req_id: msg.req_id, code: msg.code, header: RespV::CancelLoadJob },
            )
        },
        RequestHeader::ReportLoadTask { job_id, progress } => {
            let i = first_match(ls.jobs, has_job_id(job_id));
            let jobs2 = if i >= 0 {
                ls.jobs.update(i, LoadJob { progress, ..ls.jobs[i] })
            } else {
                ls.jobs
            };
            (
                LoadV { jobs: jobs2, ..ls },
                ReplyV { req_id: msg.req_id, code: msg.code, header: RespV::ReportLoadTask },
            )
        },
        _ => (
            ls,
            ReplyV {
                req_id: msg.req_id,
                code: msg.code,
                header: RespV::Error { error: FsError::Malformed { code: msg.code } },
            },
        ),
    }
}

impl MasterLoadService {
    /// An empty sub-service.
    pub fn new() -> (r: MasterLoadService)
        ensures
            r@.jobs.len() == 0,
            r@.next_job_id == 1,
    {
        MasterLoadService { jobs: Vec::new(), next_job_id: 1 }
    }

    /// Position of a job's row in the backing vector.
    fn find(&self, job_id: i64) -> (r: Option<usize>)
        ensures
            match r {
                Some(i) => first_match(self.jobs@, has_job_id(job_id)) == i && i < self.jobs@.len(),
                None => first_match(self.jobs@, has_job_id(job_id)) == -1,
            },
    {
        let ghost p = has_job_id(job_id);
        let n = self.jobs.len();
        let mut i: usize = 0;
        while i < n
            invariant
                n == self.jobs@.len(),
                i <= n,
                forall|j: int| 0 <= j < i ==> !p(self.jobs@[j]),
                p == has_job_id(job_id),
            decreases n - i,
        {
            if self.jobs[i].job_id == job_id {
                proof {
                    lemma_first_match_found(self.jobs@, p, i as int);
                }
                return Some(i);
            }
            i += 1;
        }
        proof {
            lemma_first_match_none(self.jobs@, p);
        }
        None
    }

    /// Take one forwarded message and answer it.
    pub fn handle(&mut self, msg: &Message) -> (r: Reply)
        ensures
            final(self)@ == spec_load_handle(old(self)@, *msg).0,
            r@ == spec_load_handle(old(self)@, *msg).1,
    {
        let ghost target = spec_load_handle(old(self)@, *msg);
        match &msg.header {
            RequestHeader::SubmitLoadJob { path } => {
                let id = self.next_job_id;
                self.jobs.push(LoadJob {
                    job_id: id,
                    path: path.clone(),
                    state: 1,
                    progress: 0,
                });
                self.next_job_id = crate::nums::sat_add_i64(id, 1);
                proof {
                    assert(self@ =~= target.0);
                }
                Reply {
                    req_id: msg.req_id,
                    code: msg.code,
                    header: ResponseHeader::SubmitLoadJob { job_id: id },
                }
            },
            RequestHeader::GetLoadStatus { job_id } => {
                let jid = *job_id;
                let state = match self.find(jid) {
                    Some(i) => self.jobs[i].state,
                    None => 0,
                };
                Reply {
                    req_id: msg.req_id,
                    code: msg.code,
                    header: ResponseHeader::GetLoadStatus { job_id: jid, state },
                }
            },
            RequestHeader::CancelLoadJob { job_id } => {
                let jid = *job_id;
                match self.find(jid) {
                    Some(i) => {
                        self.jobs.remove(i);
                    },
                    None => {},
                }
                proof {
                    assert(self@ =~= target.0);
                }
                Reply { req_id: msg.req_id, code: msg.code, header: ResponseHeader::CancelLoadJob }
            },
            RequestHeader::ReportLoadTask { job_id, progress } => {
                let jid = *job_id;
                let prog = *progress;
                match self.find(jid) {
                    Some(i) => {
                        let updated = LoadJob {
                            job_id: self.jobs[i].job_id,
                            path: self.jobs[i].path.clone(),
                            state: self.jobs[i].state,
                            progress: prog,
                        };
                        self.jobs.set(i, updated);
                    },
                    None => {},
                }
                proof {
                    assert(self@ =~= target.0);
                }
                Reply { req_id: msg.req_id, code: msg.code, header: ResponseHeader::ReportLoadTask }
            },
            _ => Reply {
                req_id: msg.req_id,
                code: msg.code,
                header: ResponseHeader::Error { error: FsError::Malformed { code: msg.code } },
            },
        }
    }
}

} // verus!
