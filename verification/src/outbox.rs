//! The DM outbox: remote deliveries that could not be made at once wait
//! here and are retried on a fixed backoff schedule. After the last step of
//! the schedule a row is marked bounced and kept, never deleted.

use vstd::prelude::*;

verus! {

/// Number of retries on the backoff schedule.
pub const BACKOFF_STEPS: usize = 7;

/// The largest delay of the schedule, one day.
pub const MAX_BACKOFF_SECS: i64 = 86400;

/// Most rows looked at in one pass of the worker.
pub const TICK_BATCH: usize = 100;

/// Delay in seconds before retry number `attempts` (0 is the first retry):
/// 10 s, 1 min, 5 min, 30 min, 1 h, 6 h, 1 day.
pub open spec fn backoff_spec(attempts: int) -> Option<i64> {
    if attempts == 0 {
        Some(10)
    } else if attempts == 1 {
        Some(60)
    } else if attempts == 2 {
        Some(300)
    } else if attempts == 3 {
        Some(1800)
    } else if attempts == 4 {
        Some(3600)
    } else if attempts == 5 {
        Some(21600)
    } else if attempts == 6 {
        Some(86400)
    } else {
        None
    }
}

/// The delay before the next retry of a row that has failed `attempts`
/// times, or `None` once the schedule is used up. A negative count, which
/// the store should never hold, is past the schedule too.
pub fn backoff_delay(attempts: i64) -> (res: Option<i64>)
    ensures
        res == backoff_spec(attempts as int),
{
    if attempts == 0 {
        Some(10)
    } else if attempts == 1 {
        Some(60)
    } else if attempts == 2 {
        Some(300)
    } else if attempts == 3 {
        Some(1800)
    } else if attempts == 4 {
        Some(3600)
    } else if attempts == 5 {
        Some(21600)
    } else if attempts == 6 {
        Some(86400)
    } else {
        None
    }
}

/// A row of the outbox: one message waiting for one remote hub.
#[derive(Clone, Debug)]
pub struct OutboxRow {
    pub message_id: String,
    pub recipient_hub_url: String,
    pub attempts: i64,
    pub next_attempt_at: i64,
    pub bounced: bool,
}

/// What the worker does with a due row.
#[derive(Clone, Debug, PartialEq, Eq)]
pub enum OutboxAction {
    /// The message is gone from the store: the row is deleted.
    DropOrphan,
    /// The delivery went through: the row is deleted.
    Delivered,
    /// The delivery failed: count it, record its error, and try again at
    /// `next_attempt_at`.
    Retry { attempts: i64, next_attempt_at: i64, last_error: String },
    /// The delivery failed past the schedule: count it, record its error,
    /// and mark the row bounced at `bounced_at`.
    Bounce { attempts: i64, bounced_at: i64, last_error: String },
}

/// The worker's decision for a due row. `delivery` is `None` where the
/// row's message is no longer stored, and otherwise the outcome of the
/// delivery just made, with the error it failed with.
pub open spec fn outbox_step_spec(attempts: i64, delivery: Option<Result<(), String>>, now: i64) -> OutboxAction {
    match delivery {
        None => OutboxAction::DropOrphan,
        Some(Ok(())) => OutboxAction::Delivered,
        Some(Err(e)) => match backoff_spec(attempts as int) {
            Some(d) => OutboxAction::Retry { attempts: (attempts + 1) as i64, next_attempt_at: (now + d) as i64, last_error: e },
            None => OutboxAction::Bounce { attempts: (attempts + 1) as i64, bounced_at: now, last_error: e },
        },
    }
}

/// Decides what happens to a due row, given whether its message is still
/// stored and, if so, how the delivery just made went.
pub fn outbox_step(attempts: i64, delivery: Option<Result<(), String>>, now: i64) -> (res: OutboxAction)
    requires
        attempts < i64::MAX,
        now <= i64::MAX - MAX_BACKOFF_SECS,
    ensures
        res == outbox_step_spec(attempts, delivery, now),
{
    let error = match delivery {
        None => return OutboxAction::DropOrphan,
        Some(Ok(())) => return OutboxAction::Delivered,
        Some(Err(e)) => e,
    };
    match backoff_delay(attempts) {
        Some(d) => OutboxAction::Retry { attempts: attempts + 1, next_attempt_at: now + d, last_error: error },
        None => OutboxAction::Bounce { attempts: attempts + 1, bounced_at: now, last_error: error },
    }
}

/// The schedule a send gives a delivery that failed at once: one attempt
/// made, its error recorded, the next in ten seconds.
pub fn immediate_failure(now: i64, error: String) -> (res: OutboxAction)
    requires
        now <= i64::MAX - 10,
    ensures
        res == (OutboxAction::Retry { attempts: 1, next_attempt_at: (now + 10) as i64, last_error: error }),
{
    OutboxAction::Retry { attempts: 1, next_attempt_at: now + 10, last_error: error }
}

/// Whether a row is due at `now`: not bounced, and its time has come.
pub open spec fn is_due_spec(row: OutboxRow, now: i64) -> bool {
    !row.bounced && row.next_attempt_at <= now
}

/// The due rows of a sequence, in order.
pub open spec fn due_rows_spec(rows: Seq<OutboxRow>, now: i64) -> Seq<OutboxRow>
    decreases rows.len(),
{
    if rows.len() == 0 {
        Seq::empty()
    } else {
        let rest = due_rows_spec(rows.drop_last(), now);
        if is_due_spec(rows.last(), now) {
            rest.push(rows.last())
        } else {
            rest
        }
    }
}

/// One pass of the worker: the due rows, in store order, at most
/// `TICK_BATCH` of them.
pub fn select_due(rows: &Vec<OutboxRow>, now: i64) -> (res: Vec<OutboxRow>)
    ensures
        res@ == (if due_rows_spec(rows@, now).len() <= TICK_BATCH {
            due_rows_spec(rows@, now)
        } else {
            due_rows_spec(rows@, now).take(TICK_BATCH as int)
        }),
{
    let mut out: Vec<OutboxRow> = Vec::new();
    let mut i: usize = 0;
    while i < rows.len()
        invariant
            0 <= i <= rows@.len(),
            out@ == due_rows_spec(rows@.take(i as int), now),
        decreases rows@.len() - i,
    {
        proof {
            assert(rows@.take(i as int + 1).drop_last() =~= rows@.take(i as int));
            assert(rows@.take(i as int + 1).last() == rows@[i as int]);
        }
        let row = &rows[i];
        if !row.bounced && row.next_attempt_at <= now {
            out.push(OutboxRow {
                message_id: row.message_id.clone(),
                recipient_hub_url: row.recipient_hub_url.clone(),
                attempts: row.attempts,
                next_attempt_at: row.next_attempt_at,
                bounced: row.bounced,
            });
        }
        i = i + 1;
    }
    proof {
        assert(rows@.take(rows@.len() as int) =~= rows@);
    }
    if out.len() > TICK_BATCH {
        out.truncate(TICK_BATCH);
    }
    out
}

/// The schedule grows: a later retry never waits less than an earlier one.
pub proof fn law_backoff_increasing(a: int, b: int)
    requires
        0 <= a < b < BACKOFF_STEPS,
    ensures
        backoff_spec(a) matches Some(da) && backoff_spec(b) matches Some(db) && da < db,
{
}

/// A failed delivery is counted once more and its error recorded, and it
/// is retried, at a time strictly later than now, exactly while the
/// schedule lasts; past it the row is bounced.
pub proof fn law_failure_retries_then_bounces(attempts: i64, now: i64, error: String)
    requires
        attempts < i64::MAX,
        now <= i64::MAX - MAX_BACKOFF_SECS,
    ensures
        match outbox_step_spec(attempts, Some(Err(error)), now) {
            OutboxAction::Retry { attempts: a, next_attempt_at: t, last_error: e } =>
                0 <= attempts < BACKOFF_STEPS && a == attempts + 1 && now < t <= now + MAX_BACKOFF_SECS && e == error,
            OutboxAction::Bounce { attempts: a, bounced_at: t, last_error: e } =>
                !(0 <= attempts < BACKOFF_STEPS) && a == attempts + 1 && t == now && e == error,
            _ => false,
        },
{
}

/// A row whose message is gone is dropped, and a delivered row is
/// removed, whatever its count.
pub proof fn law_orphans_and_deliveries_leave(attempts: i64, now: i64)
    ensures
        outbox_step_spec(attempts, None, now) == OutboxAction::DropOrphan,
        outbox_step_spec(attempts, Some(Ok(())), now) == OutboxAction::Delivered,
{
}

/// A send that fails at once schedules the row exactly as the worker
/// schedules a first failure, with the same error recorded.
pub proof fn law_immediate_failure_matches_schedule(now: i64, error: String)
    requires
        now <= i64::MAX - MAX_BACKOFF_SECS,
    ensures
        outbox_step_spec(0, Some(Err(error)), now) == (OutboxAction::Retry { attempts: 1, next_attempt_at: (now + 10) as i64, last_error: error }),
{
}

} // verus!
