//! Bounded whole-library audit runs: the run status, the supervisor that admits one run at a
//! time, and the bookkeeping each step of a run performs.
//!
//! A run is restart-safe rather than resumable: every per-machine result is committed on its
//! own, so an interrupted run may simply be started again.

use vstd::prelude::*;

use crate::errors::{AppError, AppResult};
use crate::text::{chars_of, concat_strs, decimal_string, string_from};

verus! {

broadcast use vstd::string::group_string_axioms;

pub const DEFAULT_PARALLELISM: u8 = 2;

pub const MAX_PARALLELISM: u8 = 4;

pub const QUERY_PAGE_SIZE: u32 = 200;

pub const MAX_BULK_MACHINE_COUNT: u64 = 100000;

pub const MAX_STATUS_ERROR_CHARS: usize = 512;

/// Where a run is in its life.
#[derive(Debug, Clone, Copy, PartialEq, Eq, Structural)]
pub enum BulkAuditRunState {
    Idle,
    Running,
    Cancelling,
    Completed,
    Cancelled,
    Failed,
}

/// What the user sees of the current or last run.
#[derive(Debug, Clone, PartialEq, Eq)]
pub struct BulkAuditStatus {
    pub schema_version: u32,
    pub job_id: Option<u64>,
    pub state: BulkAuditRunState,
    pub max_parallelism: u8,
    pub total: u64,
    pub completed: u64,
    pub failed: u64,
    pub active: u32,
    pub last_machine: Option<String>,
    pub last_error: Option<String>,
}

/// The status invariant: a stored error message is never longer than the bound.
pub open spec fn status_bounded(s: BulkAuditStatus) -> bool {
    s.last_error matches Some(e) ==> e@.len() <= MAX_STATUS_ERROR_CHARS
}

/// A run that is still going: a new one may not start.
pub open spec fn is_active(state: BulkAuditRunState) -> bool {
    state == BulkAuditRunState::Running || state == BulkAuditRunState::Cancelling
}

impl Default for BulkAuditStatus {
    fn default() -> (r: Self)
        ensures
            r.schema_version == 1,
            r.job_id is None,
            r.state == BulkAuditRunState::Idle,
            r.max_parallelism == DEFAULT_PARALLELISM,
            r.total == 0 && r.completed == 0 && r.failed == 0 && r.active == 0,
            r.last_machine is None && r.last_error is None,
    {
        BulkAuditStatus {
            schema_version: 1,
            job_id: None,
            state: BulkAuditRunState::Idle,
            max_parallelism: DEFAULT_PARALLELISM,
            total: 0,
            completed: 0,
            failed: 0,
            active: 0,
            last_machine: None,
            last_error: None,
        }
    }
}

pub fn copy_text(t: &Option<String>) -> (r: Option<String>)
    ensures
        text_view(r) == text_view(*t),
{
    match t {
        Some(s) => Some(s.clone()),
        None => None,
    }
}

/// The text of an optional string.
pub open spec fn text_view(o: Option<String>) -> Option<Seq<char>> {
    match o {
        Some(s) => Some(s@),
        None => None,
    }
}

/// Two statuses that read the same.
pub open spec fn same_status(a: BulkAuditStatus, b: BulkAuditStatus) -> bool {
    &&& a.schema_version == b.schema_version
    &&& a.job_id == b.job_id
    &&& a.state == b.state
    &&& a.max_parallelism == b.max_parallelism
    &&& a.total == b.total && a.completed == b.completed && a.failed == b.failed
    &&& a.active == b.active
    &&& text_view(a.last_machine) == text_view(b.last_machine)
    &&& text_view(a.last_error) == text_view(b.last_error)
}

impl BulkAuditStatus {
    /// A copy of the status.
    pub fn snapshot(&self) -> (r: BulkAuditStatus)
        ensures
            same_status(r, *self),
    {
        let last_machine = copy_text(&self.last_machine);
        let last_error = copy_text(&self.last_error);
        let r = BulkAuditStatus {
            schema_version: self.schema_version,
            job_id: self.job_id,
            state: self.state,
            max_parallelism: self.max_parallelism,
            total: self.total,
            completed: self.completed,
            failed: self.failed,
            active: self.active,
            last_machine,
            last_error,
        };
        r
    }
}

/// The parallelism used when a request names none.
pub fn default_parallelism() -> (r: u8)
    ensures
        r == DEFAULT_PARALLELISM,
{
    DEFAULT_PARALLELISM
}

/// Accept a requested number of parallel audits between one and the maximum.
pub fn validate_parallelism(value: u8) -> (r: AppResult<u8>)
    ensures
        r is Ok <==> 1 <= value <= MAX_PARALLELISM,
        r matches Ok(v) ==> v == value,
        r matches Err(e) ==> e.code@ == "MAME_BULK_AUDIT_PARALLELISM_INVALID"@ && e.message@
            == "Bulk audit parallelism must be between 1 and 4."@,
{
    if 1 <= value && value <= MAX_PARALLELISM {
        Ok(value)
    } else {
        Err(
            AppError::new(
                "MAME_BULK_AUDIT_PARALLELISM_INVALID",
                "Bulk audit parallelism must be between 1 and 4.",
            ).with_detail("requested", decimal_string(value as u64)).with_detail(
                "maxParallelism",
                decimal_string(MAX_PARALLELISM as u64),
            ),
        )
    }
}

/// The first characters of a message, at most the status bound.
pub fn truncate_status_error(value: &str) -> (r: String)
    ensures
        r@ == value@.take(
            if value@.len() <= MAX_STATUS_ERROR_CHARS {
                value@.len() as int
            } else {
                MAX_STATUS_ERROR_CHARS as int
            },
        ),
        r@.len() <= MAX_STATUS_ERROR_CHARS,
{
    let chars = chars_of(value);
    let n: usize = if chars.len() <= MAX_STATUS_ERROR_CHARS {
        chars.len()
    } else {
        MAX_STATUS_ERROR_CHARS
    };
    let kept = crate::text::slice_range(chars.as_slice(), 0, n);
    assert(kept@ == value@.take(n as int));
    string_from(kept.as_slice())
}

/// `<code>: <message>` of an error, bounded for the status.
pub open spec fn status_error_text(e: AppError) -> Seq<char> {
    let full = e.code@ + ": "@ + e.message@;
    full.take(
        if full.len() <= MAX_STATUS_ERROR_CHARS {
            full.len() as int
        } else {
            MAX_STATUS_ERROR_CHARS as int
        },
    )
}

fn error_text(error: &AppError) -> (r: String)
    ensures
        r@ == status_error_text(*error),
        r@.len() <= MAX_STATUS_ERROR_CHARS,
{
    let head = concat_strs(error.code.as_str(), ": ");
    let full = concat_strs(head.as_str(), error.message.as_str());
    truncate_status_error(full.as_str())
}

/// Record the machine count once the work queue is known.
pub fn set_total(status: &mut BulkAuditStatus, total: u64)
    ensures
        *final(status) == (BulkAuditStatus { total, ..*old(status) }),
{
    status.total = total;
}

/// One more (`grow`) or one fewer audit in flight, saturating at the bounds.
pub fn adjust_active(status: &mut BulkAuditStatus, grow: bool)
    ensures
        final(status).active == if grow {
            if old(status).active == u32::MAX {
                u32::MAX as int
            } else {
                old(status).active + 1
            }
        } else {
            if old(status).active == 0 {
                0
            } else {
                old(status).active - 1
            }
        },
        *final(status) == (BulkAuditStatus { active: final(status).active, ..*old(status) }),
{
    if grow {
        status.active = status.active.saturating_add(1);
    } else {
        status.active = status.active.saturating_sub(1);
    }
}

/// Record the outcome of one machine's audit: it becomes the last machine, and either the
/// completed count or the failed count (with the bounded error) grows by one.
pub fn record_result(status: &mut BulkAuditStatus, machine: &str, error: Option<&AppError>)
    ensures
        final(status).last_machine matches Some(m) && m@ == machine@,
        final(status).state == old(status).state,
        final(status).job_id == old(status).job_id,
        final(status).total == old(status).total,
        final(status).active == old(status).active,
        match error {
            Some(e) => {
                &&& final(status).failed == (if old(status).failed == u64::MAX {
                    u64::MAX as int
                } else {
                    old(status).failed + 1
                })
                &&& final(status).completed == old(status).completed
                &&& final(status).last_error matches Some(t) && t@ == status_error_text(*e)
            },
            None => {
                &&& final(status).completed == (if old(status).completed == u64::MAX {
                    u64::MAX as int
                } else {
                    old(status).completed + 1
                })
                &&& final(status).failed == old(status).failed
                &&& final(status).last_error == old(status).last_error
            },
        },
        status_bounded(*old(status)) ==> status_bounded(*final(status)),
{
    status.last_machine = Some(machine.to_owned());
    match error {
        Some(e) => {
            status.failed = status.failed.saturating_add(1);
            status.last_error = Some(error_text(e));
        },
        None => {
            status.completed = status.completed.saturating_add(1);
        },
    }
}

/// End a run that audited every machine.
pub fn finish_completed(status: &mut BulkAuditStatus)
    ensures
        *final(status) == (BulkAuditStatus {
            active: 0,
            state: BulkAuditRunState::Completed,
            ..*old(status)
        }),
{
    status.active = 0;
    status.state = BulkAuditRunState::Completed;
}

/// End a run that was cancelled.
pub fn finish_cancelled(status: &mut BulkAuditStatus)
    ensures
        *final(status) == (BulkAuditStatus {
            active: 0,
            state: BulkAuditRunState::Cancelled,
            ..*old(status)
        }),
{
    status.active = 0;
    status.state = BulkAuditRunState::Cancelled;
}

/// End a run that failed, keeping the bounded error.
pub fn finish_with_error(status: &mut BulkAuditStatus, error: &AppError)
    ensures
        final(status).active == 0,
        final(status).state == BulkAuditRunState::Failed,
        final(status).last_error matches Some(t) && t@ == status_error_text(*error),
        final(status).job_id == old(status).job_id,
        final(status).total == old(status).total,
        final(status).completed == old(status).completed,
        final(status).failed == old(status).failed,
        final(status).last_machine == old(status).last_machine,
        status_bounded(*final(status)),
{
    status.active = 0;
    status.state = BulkAuditRunState::Failed;
    status.last_error = Some(error_text(error));
}

/// The final state of a run once its workers have stopped: a worker's error wins, then
/// cancellation, else the run completed.
pub fn finish_run(status: &mut BulkAuditStatus, worker_failure: Option<&AppError>, cancelled: bool)
    ensures
        final(status).active == 0,
        final(status).state == match worker_failure {
            Some(_) => BulkAuditRunState::Failed,
            None => if cancelled {
                BulkAuditRunState::Cancelled
            } else {
                BulkAuditRunState::Completed
            },
        },
        worker_failure matches Some(e) ==> (final(status).last_error matches Some(t) && t@
            == status_error_text(*e)),
        worker_failure is None ==> final(status).last_error == old(status).last_error,
        status_bounded(*old(status)) ==> status_bounded(*final(status)),
{
    match worker_failure {
        Some(e) => finish_with_error(status, e),
        None => if cancelled {
            finish_cancelled(status)
        } else {
            finish_completed(status)
        },
    }
}

/// How many workers a run uses: the requested parallelism, but no more than the machines.
pub fn worker_count(max_parallelism: u8, machine_count: usize) -> (r: usize)
    ensures
        r == if (max_parallelism as int) < machine_count {
            max_parallelism as int
        } else {
            machine_count as int
        },
{
    if (max_parallelism as usize) < machine_count {
        max_parallelism as usize
    } else {
        machine_count
    }
}

/// Admits one run at a time and hands out job identifiers.
#[derive(Debug)]
pub struct BulkAuditSupervisor {
    pub status: BulkAuditStatus,
    pub cancel_requested: bool,
    pub next_job_id: u64,
}

impl Default for BulkAuditSupervisor {
    fn default() -> (r: Self)
        ensures
            r.status.state == BulkAuditRunState::Idle,
            r.status.job_id is None,
            !r.cancel_requested,
            r.next_job_id == 1,
            status_bounded(r.status),
    {
        BulkAuditSupervisor { status: BulkAuditStatus::default(), cancel_requested: false, next_job_id: 1 }
    }
}

impl BulkAuditSupervisor {
    /// Start a run with the given parallelism, unless one is already active. A refused
    /// start changes nothing.
    pub fn start(&mut self, max_parallelism: u8) -> (r: AppResult<BulkAuditStatus>)
        ensures
            is_active(old(self).status.state) ==> {
                &&& r matches Err(e) && e.code@ == "MAME_BULK_AUDIT_ALREADY_RUNNING"@
                &&& *final(self) == *old(self)
            },
            !is_active(old(self).status.state) ==> {
                &&& r matches Ok(s) && same_status(s, final(self).status)
                &&& final(self).status.job_id == Some(old(self).next_job_id)
                &&& final(self).status.state == BulkAuditRunState::Running
                &&& final(self).status.schema_version == 1
                &&& final(self).status.max_parallelism == max_parallelism
                &&& final(self).status.total == 0 && final(self).status.completed == 0
                &&& final(self).status.failed == 0 && final(self).status.active == 0
                &&& final(self).status.last_machine is None && final(self).status.last_error is None
                &&& !final(self).cancel_requested
                &&& final(self).next_job_id == (if old(self).next_job_id == u64::MAX {
                    0
                } else {
                    old(self).next_job_id + 1
                })
            },
    {
        if self.status.state == BulkAuditRunState::Running || self.status.state
            == BulkAuditRunState::Cancelling {
            return Err(
                AppError::new("MAME_BULK_AUDIT_ALREADY_RUNNING", "A bulk MAME audit is already active."),
            );
        }
        let job_id = self.next_job_id;
        self.next_job_id = if job_id == u64::MAX {
            0
        } else {
            job_id + 1
        };
        self.status = BulkAuditStatus {
            schema_version: 1,
            job_id: Some(job_id),
            state: BulkAuditRunState::Running,
            max_parallelism,
            total: 0,
            completed: 0,
            failed: 0,
            active: 0,
            last_machine: None,
            last_error: None,
        };
        self.cancel_requested = false;
        Ok(self.status.snapshot())
    }

    /// The status of the current or last run.
    pub fn snapshot(&self) -> (r: BulkAuditStatus)
        ensures
            same_status(r, self.status),
    {
        self.status.snapshot()
    }

    /// Ask a running run to stop: only a running run changes, to cancelling.
    pub fn cancel(&mut self) -> (r: BulkAuditStatus)
        ensures
            old(self).status.state == BulkAuditRunState::Running ==> {
                &&& final(self).status == (BulkAuditStatus {
                    state: BulkAuditRunState::Cancelling,
                    ..old(self).status
                })
                &&& final(self).cancel_requested
            },
            old(self).status.state != BulkAuditRunState::Running ==> *final(self) == *old(self),
            final(self).next_job_id == old(self).next_job_id,
            same_status(r, final(self).status),
    {
        if self.status.state == BulkAuditRunState::Running {
            self.cancel_requested = true;
            self.status.state = BulkAuditRunState::Cancelling;
        }
        self.status.snapshot()
    }
}

/// What to do after one catalog page has been read while building a run's work queue.
#[derive(Debug, Clone, Copy, PartialEq, Eq, Structural)]
pub enum PageStep {
    /// Every machine has been seen.
    Done,
    /// Read the page at this offset next.
    Next(u32),
}

/// Decide the next page: the catalog total is the one first reported; a catalog over the
/// bound is refused; an empty page before the end, or an offset past `u32`, is an error.
pub fn plan_next_page(
    offset: u32,
    page_limit: u32,
    page_total: u64,
    first_total: Option<u64>,
    page_empty: bool,
) -> (r: AppResult<(u64, PageStep)>)
    ensures
        page_total > MAX_BULK_MACHINE_COUNT ==> (r matches Err(e) && e.code@
            == "MAME_BULK_AUDIT_TOO_LARGE"@),
        page_total <= MAX_BULK_MACHINE_COUNT ==> {
            let total = match first_total {
                Some(t) => t,
                None => page_total,
            };
            if offset + page_limit >= total {
                r == Ok::<(u64, PageStep), AppError>((total, PageStep::Done))
            } else if page_empty {
                r matches Err(e) && e.code@ == "MAME_BULK_AUDIT_CATALOG_PAGING_FAILED"@
            } else if offset + page_limit > u32::MAX {
                r matches Err(e) && e.code@ == "MAME_BULK_AUDIT_CATALOG_PAGING_FAILED"@
            } else {
                r == Ok::<(u64, PageStep), AppError>(
                    (total, PageStep::Next((offset + page_limit) as u32)),
                )
            }
        },
{
    if page_total > MAX_BULK_MACHINE_COUNT {
        return Err(
            AppError::new(
                "MAME_BULK_AUDIT_TOO_LARGE",
                "The active catalog exceeds the supported bounded bulk-audit size.",
            ).with_detail("catalogCount", decimal_string(page_total)).with_detail(
                "maxCount",
                decimal_string(MAX_BULK_MACHINE_COUNT),
            ),
        );
    }
    let total = match first_total {
        Some(t) => t,
        None => page_total,
    };
    if offset as u64 + page_limit as u64 >= total {
        return Ok((total, PageStep::Done));
    }
    if page_empty {
        return Err(
            AppError::new(
                "MAME_BULK_AUDIT_CATALOG_PAGING_FAILED",
                "The catalog returned an empty page before the bulk audit reached the end.",
            ),
        );
    }
    match offset.checked_add(page_limit) {
        Some(next) => Ok((total, PageStep::Next(next))),
        None => Err(
            AppError::new(
                "MAME_BULK_AUDIT_CATALOG_PAGING_FAILED",
                "The bulk audit catalog offset exceeded its supported range.",
            ),
        ),
    }
}

/// A catalog entry as the work queue sees it.
#[derive(Debug, Clone, PartialEq, Eq)]
pub struct QueueCandidate {
    pub short_name: String,
    pub runnable: bool,
}

/// The names of the runnable entries, in order.
pub open spec fn runnable_names(items: Seq<QueueCandidate>) -> Seq<Seq<char>>
    decreases items.len(),
{
    if items.len() == 0 {
        Seq::empty()
    } else {
        let rest = runnable_names(items.drop_last());
        if items.last().runnable {
            rest.push(items.last().short_name@)
        } else {
            rest
        }
    }
}

/// Add the runnable machines of one page to the work queue, keeping their order.
pub fn append_runnable(names: &mut Vec<String>, items: &[QueueCandidate])
    ensures
        final(names).deep_view() == old(names).deep_view() + runnable_names(items@),
{
    let ghost start = names.deep_view();
    let mut i: usize = 0;
    while i < items.len()
        invariant
            i <= items@.len(),
            names.deep_view() == start + runnable_names(items@.take(i as int)),
        decreases items.len() - i,
    {
        assert(items@.take(i + 1).drop_last() == items@.take(i as int));
        assert(items@.take(i + 1).last() == items@[i as int]);
        if items[i].runnable {
            let ghost before = names.deep_view();
            names.push(items[i].short_name.clone());
            assert(names.deep_view() =~= before.push(items@[i as int].short_name@));
        }
        i += 1;
    }
    assert(items@.take(items@.len() as int) == items@);
}

/// A request to start a run.
#[derive(Debug, Clone, Copy, PartialEq, Eq, Structural)]
pub struct StartBulkAuditRequest {
    pub max_parallelism: u8,
}

impl Default for StartBulkAuditRequest {
    fn default() -> (r: Self)
        ensures
            r.max_parallelism == DEFAULT_PARALLELISM,
    {
        StartBulkAuditRequest { max_parallelism: default_parallelism() }
    }
}

} // verus!
