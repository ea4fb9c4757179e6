//! Handing out upload tasks from one reader: each task is a buffer filled
//! from the reader; the first read error or HTTP error ends all tasks.
//!
//! The reading is the caller's part: it reads into the buffer and hands the
//! outcome of each read to the manager, which says whether to read on or
//! what task the buffer makes.

use vstd::prelude::*;

verus! {

/// Where the uploads stand.
#[derive(Debug, Clone, PartialEq, Eq)]
pub enum TaskStatus {
    /// The reader is still being read.
    Uploading,
    /// Reading failed.
    IOError(String),
    /// An upload failed.
    HTTPError(String),
    /// The reader was read to its end.
    Success,
}

/// The outcome of one read into the buffer.
#[derive(Debug, Clone, PartialEq, Eq)]
pub enum ReadOutcome {
    /// `n` bytes were read (0 at the end of the reader).
    Read(usize),
    /// The read was interrupted and may be tried again.
    Interrupted,
    /// The read failed.
    Failed(String),
}

/// A task.
#[derive(Debug, Clone, Copy, PartialEq, Eq, Structural)]
pub enum Task {
    /// Upload the first `n` bytes of the buffer.
    Upload(usize),
    /// No more tasks.
    End,
}

/// What the caller does after a read.
#[derive(Debug, Clone, Copy, PartialEq, Eq, Structural)]
pub enum ReadAction {
    /// Read again, into the buffer after its first `n` bytes.
    ReadMore(usize),
    /// The task is decided.
    Finish(Task),
}

/// How the uploads ended.
#[derive(Debug, Clone, PartialEq, Eq)]
pub enum TaskResult {
    Success,
    IOError(String),
    HTTPError(String),
}

/// The status and action after a read of `outcome`, with `have_read`
/// bytes of a buffer of `buf_len` filled before it.
pub open spec fn after_read(have_read: nat, buf_len: nat, outcome: ReadOutcome) -> (TaskStatus, ReadAction) {
    match outcome {
        ReadOutcome::Read(n) => if n == 0 {
            (
                TaskStatus::Success,
                ReadAction::Finish(
                    if have_read > 0 {
                        Task::Upload(have_read as usize)
                    } else {
                        Task::End
                    },
                ),
            )
        } else if have_read + n == buf_len {
            (TaskStatus::Uploading, ReadAction::Finish(Task::Upload((have_read + n) as usize)))
        } else {
            (TaskStatus::Uploading, ReadAction::ReadMore((have_read + n) as usize))
        },
        ReadOutcome::Interrupted => (TaskStatus::Uploading, ReadAction::ReadMore(have_read as usize)),
        ReadOutcome::Failed(e) => (TaskStatus::IOError(e), ReadAction::Finish(Task::End)),
    }
}

/// Hands out upload tasks from one reader.
#[derive(Debug)]
pub struct TasksManager {
    status: TaskStatus,
}

impl TasksManager {
    /// Where the uploads stand.
    pub closed spec fn status_of(&self) -> TaskStatus {
        self.status
    }

    /// A manager of a reader not read yet.
    pub fn new() -> (m: Self)
        ensures
            m.status_of() == TaskStatus::Uploading,
    {
        TasksManager { status: TaskStatus::Uploading }
    }

    /// Whether a task may be had: only while uploading; otherwise the task
    /// is `End` at once.
    pub fn begin_task(&self) -> (a: ReadAction)
        ensures
            a == if self.status_of() == TaskStatus::Uploading {
                ReadAction::ReadMore(0)
            } else {
                ReadAction::Finish(Task::End)
            },
    {
        match self.status {
            TaskStatus::Uploading => ReadAction::ReadMore(0),
            _ => ReadAction::Finish(Task::End),
        }
    }

    /// Takes the outcome of a read into a buffer of `buf_len` bytes of
    /// which `have_read` were filled before: the end of the reader or a
    /// failed read ends the uploads, a full buffer makes a task.
    pub fn on_read(&mut self, have_read: usize, buf_len: usize, outcome: ReadOutcome) -> (a: ReadAction)
        requires
            old(self).status_of() == TaskStatus::Uploading,
            have_read <= buf_len,
            outcome matches ReadOutcome::Read(n) ==> have_read + n <= buf_len,
        ensures
            (final(self).status_of(), a) == after_read(have_read as nat, buf_len as nat, outcome),
    {
        match outcome {
            ReadOutcome::Read(n) => {
                if n == 0 {
                    self.status = TaskStatus::Success;
                    if have_read > 0 {
                        ReadAction::Finish(Task::Upload(have_read))
                    } else {
                        ReadAction::Finish(Task::End)
                    }
                } else if have_read + n == buf_len {
                    ReadAction::Finish(Task::Upload(have_read + n))
                } else {
                    ReadAction::ReadMore(have_read + n)
                }
            },
            ReadOutcome::Interrupted => ReadAction::ReadMore(have_read),
            ReadOutcome::Failed(e) => {
                self.status = TaskStatus::IOError(e);
                ReadAction::Finish(Task::End)
            },
        }
    }

    /// An upload failed: no more tasks.
    pub fn error(&mut self, err: String)
        ensures
            final(self).status_of() == TaskStatus::HTTPError(err),
    {
        self.status = TaskStatus::HTTPError(err);
    }

    /// How the uploads ended; they must have ended.
    pub fn result(self) -> (r: TaskResult)
        requires
            self.status_of() != TaskStatus::Uploading,
        ensures
            r == match self.status_of() {
                TaskStatus::Success => TaskResult::Success,
                TaskStatus::IOError(e) => TaskResult::IOError(e),
                TaskStatus::HTTPError(e) => TaskResult::HTTPError(e),
                TaskStatus::Uploading => TaskResult::Success,
            },
    {
        match self.status {
            TaskStatus::Success => TaskResult::Success,
            TaskStatus::IOError(e) => TaskResult::IOError(e),
            TaskStatus::HTTPError(e) => TaskResult::HTTPError(e),
            TaskStatus::Uploading => TaskResult::Success,
        }
    }
}

/// A read never ends the uploads with a task that is bigger than the
/// buffer, and only the end of the reader or a failed read ends them.
pub proof fn reads_fill_at_most_the_buffer(have_read: nat, buf_len: nat, outcome: ReadOutcome)
    requires
        have_read <= buf_len,
        outcome matches ReadOutcome::Read(n) ==> have_read + n <= buf_len,
        buf_len <= usize::MAX,
    ensures
        ({
            let (status, action) = after_read(have_read, buf_len, outcome);
            &&& (action matches ReadAction::Finish(Task::Upload(k)) ==> 0 < k <= buf_len)
            &&& (action matches ReadAction::ReadMore(k) ==> k < buf_len || (k == have_read
                && outcome == ReadOutcome::Interrupted))
            &&& (status != TaskStatus::Uploading <==> (outcome == ReadOutcome::Read(0usize)
                || outcome is Failed))
        }),
{
}

} // verus!
