//! Ownership of the job-object handle that ties the children's lifetimes together.
use vstd::prelude::*;
use windows_sys::Win32::Foundation::HANDLE;

verus! {

/// The job-object handle of a manager: either one live handle or none.
#[derive(Clone, Copy, Debug, PartialEq, Eq, Structural)]
pub enum GroupHandle {
    Valid(HANDLE),
    Absent,
}

impl GroupHandle {
    /// Well formed: a live handle is never the null handle.
    pub open spec fn wf(self) -> bool {
        match self {
            GroupHandle::Valid(h) => h != 0,
            GroupHandle::Absent => true,
        }
    }

    /// Reads the raw value that the job creation call returned; null means it failed.
    pub fn from_raw(raw: HANDLE) -> (r: GroupHandle)
        ensures
            r.wf(),
            raw == 0 ==> r == GroupHandle::Absent,
            raw != 0 ==> r == GroupHandle::Valid(raw),
    {
        if raw == 0 {
            GroupHandle::Absent
        } else {
            GroupHandle::Valid(raw)
        }
    }
}

/// What adding `process` to the job held as `group` asks of the system: nothing
/// when either handle is missing.
pub open spec fn assignment_for(group: GroupHandle, process: HANDLE) -> Option<JobAssignment> {
    match group {
        GroupHandle::Valid(job) => if process != 0 {
            Some(JobAssignment { job, process })
        } else {
            None
        },
        GroupHandle::Absent => None,
    }
}

/// The handle that releasing `group` closes, if any.
pub open spec fn handle_to_close(group: GroupHandle) -> Option<HANDLE> {
    match group {
        GroupHandle::Valid(job) => Some(job),
        GroupHandle::Absent => None,
    }
}

/// A request to make `process` a member of the job `job`, for the caller to
/// pass to the system's assignment call.
#[derive(Clone, Copy, Debug, PartialEq, Eq, Structural)]
pub struct JobAssignment {
    pub job: HANDLE,
    pub process: HANDLE,
}

/// Owns the job object whose closing ends every process attached to it.
///
/// A manager whose job could not be created or configured holds no handle and
/// ignores every request: the launch goes on without the group guarantee.
/// The handle is closed at most once, by `release`.
#[derive(Debug)]
pub struct JobObjectManager {
    handle: GroupHandle,
}

impl View for JobObjectManager {
    type V = GroupHandle;

    closed spec fn view(&self) -> GroupHandle {
        self.handle
    }
}

impl JobObjectManager {
    pub open spec fn wf(&self) -> bool {
        self@.wf()
    }

    /// Builds the manager from the outcome of creating the job (`created`) and
    /// of setting its kill-on-close limit (`configured`). A job that was
    /// created but could not be configured is not kept: its handle comes back
    /// as the second component, to be closed by the caller.
    pub fn new(created: GroupHandle, configured: bool) -> (r: (JobObjectManager, Option<HANDLE>))
        requires
            created.wf(),
        ensures
            r.0.wf(),
            created == GroupHandle::Absent ==> r.0@ == GroupHandle::Absent && r.1 == None::<HANDLE>,
            created is Valid && configured ==> r.0@ == created && r.1 == None::<HANDLE>,
            created is Valid && !configured ==> r.0@ == GroupHandle::Absent && r.1 == Some(
                created->Valid_0,
            ),
    {
        match created {
            GroupHandle::Valid(h) => {
                if configured {
                    (JobObjectManager { handle: created }, None)
                } else {
                    (JobObjectManager { handle: GroupHandle::Absent }, Some(h))
                }
            },
            GroupHandle::Absent => (JobObjectManager { handle: GroupHandle::Absent }, None),
        }
    }

    /// Whether the manager holds a live job.
    pub fn is_valid(&self) -> (r: bool)
        ensures
            r == self@ is Valid,
    {
        match self.handle {
            GroupHandle::Valid(_) => true,
            GroupHandle::Absent => false,
        }
    }

    /// Decides whether `process_handle` is to be added to the job: only when the
    /// manager holds a job and the process handle is not null. Never fails.
    pub fn assign_process(&self, process_handle: HANDLE) -> (r: Option<JobAssignment>)
        ensures
            r == assignment_for(self@, process_handle),
    {
        match self.handle {
            GroupHandle::Valid(job) => {
                if process_handle != 0 {
                    Some(JobAssignment { job, process: process_handle })
                } else {
                    None
                }
            },
            GroupHandle::Absent => None,
        }
    }

    /// Gives up the job handle, to be closed by the caller; closing it ends
    /// every attached process. Afterwards the manager holds nothing, so a
    /// second release hands out nothing.
    pub fn release(&mut self) -> (r: Option<HANDLE>)
        ensures
            r == handle_to_close(old(self)@),
            final(self)@ == GroupHandle::Absent,
    {
        let r = match self.handle {
            GroupHandle::Valid(job) => Some(job),
            GroupHandle::Absent => None,
        };
        self.handle = GroupHandle::Absent;
        r
    }
}

/// Every process that a live job accepts joins that very job, and releasing
/// the manager closes that job's handle: closing it therefore reaches every
/// attached process. Each non-null process handle is accepted.
pub proof fn lemma_release_closes_every_member(group: GroupHandle, processes: Seq<HANDLE>)
    requires
        group.wf(),
        group is Valid,
    ensures
        handle_to_close(group) == Some(group->Valid_0),
        forall|i: int|
            0 <= i < processes.len() && processes[i] != 0 ==> assignment_for(group, processes[i])
                == Some(JobAssignment { job: group->Valid_0, process: processes[i] }),
        forall|i: int|
            0 <= i < processes.len() && #[trigger] assignment_for(group, processes[i]) is Some
                ==> assignment_for(group, processes[i])->Some_0.job == handle_to_close(group)->Some_0,
{
}

/// A manager without a job ignores every process, null or not, and releasing
/// it closes nothing.
pub proof fn lemma_absent_manager_ignores_all(processes: Seq<HANDLE>)
    ensures
        forall|i: int|
            0 <= i < processes.len() ==> assignment_for(GroupHandle::Absent, processes[i]) is None,
        handle_to_close(GroupHandle::Absent) is None,
{
}

/// Releasing never fails and hands the handle out once: what a release leaves
/// behind, released again, closes nothing and accepts no process.
pub proof fn lemma_release_once(group: GroupHandle, process: HANDLE)
    requires
        group.wf(),
    ensures
        handle_to_close(group) is Some <==> group is Valid,
        handle_to_close(GroupHandle::Absent) is None,
        assignment_for(GroupHandle::Absent, process) is None,
{
}

} // verus!
