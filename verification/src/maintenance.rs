//! The rules of the jobs that keep the database tidy: what runs how often,
//! what counts as old, and how a job works through a table in batches. Times
//! are in milliseconds.

use vstd::prelude::*;

verus! {

/// Ten minutes.
pub const TEN_MINUTES_MS: u64 = 600_000;

/// An hour.
pub const HOUR_MS: u64 = 3_600_000;

/// A day.
pub const DAY_MS: u64 = 86_400_000;

/// How long the answer to a captcha is kept.
pub const CAPTCHA_ANSWER_LIFETIME_MS: i64 = 600_000;

/// How long sent and received activities are kept.
pub const ACTIVITY_RETENTION_MS: i64 = 604_800_000;

/// The jobs.
#[derive(Clone, Copy, Debug, PartialEq, Eq, Structural)]
pub enum ScheduledTask {
    UpdateHotRanks,
    DeleteExpiredCaptchaAnswers,
    PublishScheduledPosts,
    ActiveCounts,
    UpdateBannedWhenExpired,
    DeleteInstanceBlockWhenExpired,
    OverwriteDeletedPostsAndComments,
    DeleteOldDeniedUsers,
    UpdateInstanceSoftware,
    ClearOldActivities,
}

/// How often a job runs.
#[derive(Clone, Copy, Debug, PartialEq, Eq, Structural)]
pub enum Interval {
    TenMinutes,
    Hourly,
    Daily,
}

impl Interval {
    /// The length of the interval.
    pub open spec fn length_ms(self) -> u64 {
        match self {
            Interval::TenMinutes => TEN_MINUTES_MS,
            Interval::Hourly => HOUR_MS,
            Interval::Daily => DAY_MS,
        }
    }

    /// The jobs that run at the interval, in the order in which they run.
    pub open spec fn tasks_spec(self) -> Seq<ScheduledTask> {
        match self {
            Interval::TenMinutes => seq![
                ScheduledTask::UpdateHotRanks,
                ScheduledTask::DeleteExpiredCaptchaAnswers,
                ScheduledTask::PublishScheduledPosts,
            ],
            Interval::Hourly => seq![
                ScheduledTask::ActiveCounts,
                ScheduledTask::UpdateBannedWhenExpired,
                ScheduledTask::DeleteInstanceBlockWhenExpired,
            ],
            Interval::Daily => seq![
                ScheduledTask::OverwriteDeletedPostsAndComments,
                ScheduledTask::DeleteOldDeniedUsers,
                ScheduledTask::UpdateInstanceSoftware,
                ScheduledTask::ClearOldActivities,
            ],
        }
    }

    /// The length of the interval.
    pub fn millis(&self) -> (ms: u64)
        ensures
            ms == self.length_ms(),
    {
        match self {
            Interval::TenMinutes => TEN_MINUTES_MS,
            Interval::Hourly => HOUR_MS,
            Interval::Daily => DAY_MS,
        }
    }

    /// The jobs that run at the interval, in the order in which they run.
    pub fn tasks(&self) -> (tasks: Vec<ScheduledTask>)
        ensures
            tasks@ == self.tasks_spec(),
    {
        let mut tasks: Vec<ScheduledTask> = Vec::new();
        match self {
            Interval::TenMinutes => {
                tasks.push(ScheduledTask::UpdateHotRanks);
                tasks.push(ScheduledTask::DeleteExpiredCaptchaAnswers);
                tasks.push(ScheduledTask::PublishScheduledPosts);
            },
            Interval::Hourly => {
                tasks.push(ScheduledTask::ActiveCounts);
                tasks.push(ScheduledTask::UpdateBannedWhenExpired);
                tasks.push(ScheduledTask::DeleteInstanceBlockWhenExpired);
            },
            Interval::Daily => {
                tasks.push(ScheduledTask::OverwriteDeletedPostsAndComments);
                tasks.push(ScheduledTask::DeleteOldDeniedUsers);
                tasks.push(ScheduledTask::UpdateInstanceSoftware);
                tasks.push(ScheduledTask::ClearOldActivities);
            },
        }
        assert(tasks@ =~= self.tasks_spec());
        tasks
    }
}

impl ScheduledTask {
    /// How often the job runs.
    pub fn interval(&self) -> (interval: Interval)
        ensures
            interval.tasks_spec().contains(*self),
    {
        let interval = match self {
            ScheduledTask::UpdateHotRanks
            | ScheduledTask::DeleteExpiredCaptchaAnswers
            | ScheduledTask::PublishScheduledPosts => Interval::TenMinutes,
            ScheduledTask::ActiveCounts
            | ScheduledTask::UpdateBannedWhenExpired
            | ScheduledTask::DeleteInstanceBlockWhenExpired => Interval::Hourly,
            ScheduledTask::OverwriteDeletedPostsAndComments
            | ScheduledTask::DeleteOldDeniedUsers
            | ScheduledTask::UpdateInstanceSoftware
            | ScheduledTask::ClearOldActivities => Interval::Daily,
        };
        proof {
            let tasks = interval.tasks_spec();
            assert(tasks[0] == *self || tasks[1] == *self || tasks[2] == *self || (tasks.len() == 4
                && tasks[3] == *self));
        }
        interval
    }
}

/// When the jobs of an interval run next.
#[derive(Clone, Copy, Debug, PartialEq, Eq, Structural)]
pub struct Schedule {
    pub interval: Interval,
    pub next_run: i64,
}

/// A time that lies `ms` after `time`, or as late as times go.
pub open spec fn later(time: i64, ms: u64) -> i64 {
    if time + ms <= i64::MAX {
        (time + ms) as i64
    } else {
        i64::MAX
    }
}

impl Schedule {
    /// A schedule that is set up at `now`: the jobs run for the first time
    /// one interval later.
    pub fn starting(interval: Interval, now: i64) -> (schedule: Schedule)
        ensures
            schedule == (Schedule { interval, next_run: later(now, interval.length_ms()) }),
    {
        Schedule { interval, next_run: after(now, interval.millis()) }
    }

    /// Whether the jobs are due at `now`.
    pub open spec fn due(self, now: i64) -> bool {
        now >= self.next_run
    }

    /// The jobs to run at `now`: all jobs of the interval if they are due,
    /// and none if not. Jobs that are due run next one interval after `now`.
    pub fn run_pending(&mut self, now: i64) -> (tasks: Vec<ScheduledTask>)
        ensures
            final(self).interval == old(self).interval,
            old(self).due(now) ==> tasks@ == old(self).interval.tasks_spec(),
            old(self).due(now) ==> final(self).next_run == later(
                now,
                old(self).interval.length_ms(),
            ),
            !old(self).due(now) ==> tasks@.len() == 0 && *final(self) == *old(self),
    {
        if now >= self.next_run {
            self.next_run = after(now, self.interval.millis());
            self.interval.tasks()
        } else {
            Vec::new()
        }
    }
}

/// A time that lies `ms` after `time`, or as late as times go.
pub fn after(time: i64, ms: u64) -> (result: i64)
    ensures
        result == later(time, ms),
{
    let sum: i128 = time as i128 + ms as i128;
    if sum <= i64::MAX as i128 {
        sum as i64
    } else {
        i64::MAX
    }
}

/// Whether something published at `published_at` is older at `now` than
/// `lifetime_ms`.
pub open spec fn older_than(published_at: i64, now: i64, lifetime_ms: i64) -> bool {
    published_at < now - lifetime_ms
}

/// Whether something published at `published_at` is older at `now` than
/// `lifetime_ms`.
pub fn is_older_than(published_at: i64, now: i64, lifetime_ms: i64) -> (older: bool)
    ensures
        older == older_than(published_at, now, lifetime_ms),
{
    (published_at as i128) < now as i128 - lifetime_ms as i128
}

/// Whether the answer to a captcha is thrown away at `now`.
pub fn captcha_answer_expired(published_at: i64, now: i64) -> (expired: bool)
    ensures
        expired == older_than(published_at, now, CAPTCHA_ANSWER_LIFETIME_MS),
{
    is_older_than(published_at, now, CAPTCHA_ANSWER_LIFETIME_MS)
}

/// Whether an activity, sent or received, is cleared at `now`.
pub fn activity_expired(published_at: i64, now: i64) -> (expired: bool)
    ensures
        expired == older_than(published_at, now, ACTIVITY_RETENTION_MS),
{
    is_older_than(published_at, now, ACTIVITY_RETENTION_MS)
}

/// A deleted post or comment is overwritten if it was last changed before
/// `cutoff` and does not hold the replacement text yet.
pub open spec fn overwrite_due(
    deleted: bool,
    updated_at: Option<i64>,
    cutoff: i64,
    text: Option<Seq<char>>,
    replacement: Seq<char>,
) -> bool {
    &&& deleted
    &&& updated_at matches Some(at) && at < cutoff
    &&& text matches Some(t) && t != replacement
}

/// Whether a post or comment is to be overwritten with the replacement
/// text.
pub fn is_overwrite_due(
    deleted: bool,
    updated_at: Option<i64>,
    cutoff: i64,
    text: &Option<String>,
    replacement: &String,
) -> (due: bool)
    ensures
        due == overwrite_due(
            deleted,
            updated_at,
            cutoff,
            crate::local_state::text_view(*text),
            replacement@,
        ),
{
    if !deleted {
        return false;
    }
    let old = match updated_at {
        Some(at) => at < cutoff,
        None => false,
    };
    if !old {
        return false;
    }
    match text {
        Some(t) => !(*t == *replacement),
        None => false,
    }
}

/// What decides whether a scheduled post is published.
#[derive(Clone, Copy, Debug, PartialEq, Eq, Structural)]
pub struct ScheduledPost {
    pub scheduled_publish_time_at: Option<i64>,
    pub post_deleted: bool,
    pub post_removed: bool,
    pub creator_deleted: bool,
    pub community_removed: bool,
    pub community_deleted: bool,
    pub creator_banned_from_community: bool,
    pub creator_banned_from_site: bool,
}

impl ScheduledPost {
    /// A post is published if its time has come, the post, its author and
    /// its community are still around, and the author is not banned.
    pub open spec fn publish_due(self, now: i64) -> bool {
        &&& self.scheduled_publish_time_at matches Some(at) && at < now
        &&& !(self.post_deleted || self.post_removed)
        &&& !self.creator_deleted
        &&& !(self.community_removed || self.community_deleted)
        &&& !self.creator_banned_from_community
        &&& !self.creator_banned_from_site
    }

    /// Whether the post is published at `now`.
    pub fn is_publish_due(&self, now: i64) -> (due: bool)
        ensures
            due == self.publish_due(now),
    {
        let time_has_come = match self.scheduled_publish_time_at {
            Some(at) => at < now,
            None => false,
        };
        time_has_come && !(self.post_deleted || self.post_removed) && !self.creator_deleted && !(
        self.community_removed || self.community_deleted) && !self.creator_banned_from_community
            && !self.creator_banned_from_site
    }
}

/// The number of users as the site record holds it, if it fits.
pub fn user_count(count: i64) -> (result: Option<i32>)
    ensures
        result == if i32::MIN <= count <= i32::MAX {
            Some(count as i32)
        } else {
            None
        },
{
    if count >= i32::MIN as i64 && count <= i32::MAX as i64 {
        Some(count as i32)
    } else {
        None
    }
}

/// How far a job has come that works through a table in batches, in the
/// order of the time of publishing.
#[derive(Clone, Copy, Debug, PartialEq, Eq, Structural)]
pub struct BatchProgress {
    pub processed_rows: usize,
    /// The time of publishing of the last row of the batch before, while
    /// there is more to do.
    pub previous_batch_last_published: Option<i64>,
}

impl BatchProgress {
    /// Before the first batch: everything published after the epoch is to
    /// be done.
    pub fn start() -> (progress: BatchProgress)
        ensures
            progress == (BatchProgress {
                processed_rows: 0,
                previous_batch_last_published: Some(0i64),
            }),
    {
        BatchProgress { processed_rows: 0, previous_batch_last_published: Some(0) }
    }

    /// The next batch to ask for: rows published after the time given, at
    /// most as many as the batch size. Nothing once the job is done.
    pub fn next_batch(&self, batch_size: i64) -> (query: Option<(i64, i64)>)
        ensures
            query == match self.previous_batch_last_published {
                Some(after) => Some((after, batch_size)),
                None => None,
            },
    {
        match self.previous_batch_last_published {
            Some(after) => Some((after, batch_size)),
            None => None,
        }
    }

    /// The progress after a batch came back with these times of publishing.
    pub open spec fn recorded(self, published: Seq<i64>) -> BatchProgress {
        BatchProgress {
            processed_rows: if self.processed_rows + published.len() <= usize::MAX {
                (self.processed_rows + published.len()) as usize
            } else {
                usize::MAX
            },
            previous_batch_last_published: if published.len() > 0 {
                Some(published.last())
            } else {
                None
            },
        }
    }

    /// Takes the times of publishing of the rows that a batch changed. The
    /// job goes on behind the last of them, and is done when a batch comes
    /// back empty.
    pub fn record(&mut self, published: &Vec<i64>)
        ensures
            *final(self) == old(self).recorded(published@),
    {
        let len: usize = published.len();
        self.processed_rows = if self.processed_rows <= usize::MAX - len {
            self.processed_rows + len
        } else {
            usize::MAX
        };
        self.previous_batch_last_published = if len > 0 {
            Some(published[len - 1])
        } else {
            None
        };
    }

    /// Whether the job is done.
    pub fn is_done(&self) -> (done: bool)
        ensures
            done == (self.previous_batch_last_published is None),
    {
        self.previous_batch_last_published.is_none()
    }
}

} // verus!
