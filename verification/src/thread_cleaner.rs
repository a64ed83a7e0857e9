//! Archival of threads that have gone quiet.
//!
//! Every few minutes the channels of the guild are listed, and each thread
//! whose last activity lies further back than a threshold is moved to the
//! archive category. Listing, moving and sleeping are the caller's part;
//! which threads to move, and what comes next, is decided here.
//!
//! Instants are whole milliseconds since the Unix epoch, and spans of time
//! are whole milliseconds.

use crate::commands::general::ThreadCategory;
use vstd::prelude::*;

verus! {

/// The seconds to sleep between two scans.
pub const SLEEP_TIME_SECS: u64 = 60 * 5;

/// The milliseconds of a week.
pub const MILLIS_PER_WEEK: i64 = 604_800_000;

/// The instant from which ids count their time: the first millisecond of
/// the year 2015.
pub const DISCORD_EPOCH: u64 = 1_420_070_400_000;

/// When the thing with the id `id` was created. An id holds, above its
/// lowest 22 bits, the milliseconds that had passed since
/// [`DISCORD_EPOCH`] when it was given out.
pub open spec fn creation_time(id: u64) -> int {
    id / 0x40_0000 + DISCORD_EPOCH
}

/// When the thing with the id `id` was created.
pub fn created_at(id: u64) -> (r: i64)
    ensures
        r == creation_time(id),
{
    let since_epoch: u64 = id >> 22;
    assert(since_epoch == id / 0x40_0000 && since_epoch < 0x400_0000_0000) by (bit_vector)
        requires
            since_epoch == id >> 22,
    ;
    (since_epoch + DISCORD_EPOCH) as i64
}

/// A channel as it was seen when the channels were listed.
#[derive(Clone, Copy, Debug)]
pub struct ArchivalCandidate {
    pub id: u64,
    /// The category of the channel, if it is in one.
    pub category_id: Option<u64>,
    /// The id of the most recent message of the channel, if it has any.
    pub last_message_id: Option<u64>,
}

impl ArchivalCandidate {
    /// When the channel was last active: when its most recent message was
    /// written or, without any message, when it was created.
    pub open spec fn last_activity(self) -> int {
        match self.last_message_id {
            Some(message_id) => creation_time(message_id),
            None => creation_time(self.id),
        }
    }
}

/// Whether a channel is to be archived at the instant `now`: it is in the
/// category of threads, and more than `threshold` has passed since its last
/// activity.
pub open spec fn is_archivable(
    channel: ArchivalCandidate,
    thread_category_id: u64,
    threshold: int,
    now: int,
) -> bool {
    channel.category_id == Some(thread_category_id) && now - channel.last_activity() > threshold
}

/// A channel outside the category of threads is never archived, however
/// long it has been quiet.
pub proof fn lemma_other_category_is_kept(
    channel: ArchivalCandidate,
    thread_category_id: u64,
    threshold: int,
    now: int,
)
    requires
        channel.category_id != Some(thread_category_id),
    ensures
        !is_archivable(channel, thread_category_id, threshold, now),
{
}

/// A thread without messages that was created more than the threshold ago
/// is archived.
pub proof fn lemma_unused_old_thread_is_archived(
    channel: ArchivalCandidate,
    thread_category_id: u64,
    threshold: int,
    now: int,
)
    requires
        channel.category_id == Some(thread_category_id),
        channel.last_message_id is None,
        creation_time(channel.id) < now - threshold,
    ensures
        is_archivable(channel, thread_category_id, threshold, now),
{
}

/// A thread with a message newer than `now - threshold` is kept, whenever
/// it was created.
pub proof fn lemma_recent_message_keeps_thread(
    channel: ArchivalCandidate,
    thread_category_id: u64,
    threshold: int,
    now: int,
)
    requires
        channel.last_message_id matches Some(message_id) && creation_time(message_id) > now
            - threshold,
    ensures
        !is_archivable(channel, thread_category_id, threshold, now),
{
}

/// Determine if a channel should be archived
pub fn should_archive(
    channel: &ArchivalCandidate,
    thread_category_id: u64,
    threshold: i64,
    now: i64,
) -> (r: bool)
    ensures
        r == is_archivable(*channel, thread_category_id, threshold as int, now as int),
{
    if let Some(category_id) = channel.category_id {
        let last_timestamp: i64 = match channel.last_message_id {
            Some(message_id) => created_at(message_id),
            None => created_at(channel.id),
        };
        return category_id == thread_category_id && (now as i128) - (last_timestamp as i128)
            > threshold as i128;
    }
    false
}

/// The span of `weeks` weeks, where it can be counted in 64 bits.
pub open spec fn weeks_in_millis(weeks: i64) -> Option<i64> {
    if i64::MIN <= weeks * MILLIS_PER_WEEK <= i64::MAX {
        Some((weeks * MILLIS_PER_WEEK) as i64)
    } else {
        None
    }
}

/// The span of `weeks` weeks, where it can be counted in 64 bits.
pub fn threshold_from_weeks(weeks: i64) -> (r: Option<i64>)
    ensures
        r == weeks_in_millis(weeks),
{
    weeks.checked_mul(MILLIS_PER_WEEK)
}

/// What the scheduler is set up with.
#[derive(Clone, Copy, Debug)]
pub struct ArchivalConfig {
    /// The category that threads live in.
    pub thread_category: ThreadCategory,
    /// The id of the category that quiet threads are moved to.
    pub archive_category_id: u64,
    /// How long a thread may be quiet.
    pub threshold: i64,
}

/// The order to move a channel into a category.
#[derive(Clone, Copy, Debug, PartialEq, Eq, Structural)]
pub struct CategoryMove {
    pub channel_id: u64,
    pub category_id: u64,
}

/// The test that a scan at the instant `now` puts the channels to.
pub open spec fn quiet_at(config: ArchivalConfig, now: int) -> spec_fn(ArchivalCandidate) -> bool {
    |channel: ArchivalCandidate|
        is_archivable(channel, config.thread_category.id, config.threshold as int, now)
}

/// The order that moves a channel into the archive category.
pub open spec fn archive_order(config: ArchivalConfig) -> spec_fn(ArchivalCandidate) -> CategoryMove {
    |channel: ArchivalCandidate|
        CategoryMove { channel_id: channel.id, category_id: config.archive_category_id }
}

/// The moves that a scan orders: one for each channel that is to be
/// archived, into the archive category, in the order of the listing.
pub open spec fn archival_moves(
    channels: Seq<ArchivalCandidate>,
    config: ArchivalConfig,
    now: int,
) -> Seq<CategoryMove> {
    channels.filter(quiet_at(config, now)).map_values(archive_order(config))
}

/// Whether `order` moves one of the channels `channels` that is to be
/// archived, and moves it into the archive category.
pub open spec fn is_move_of(
    order: CategoryMove,
    channels: Seq<ArchivalCandidate>,
    config: ArchivalConfig,
    now: int,
) -> bool {
    exists|i: int|
        0 <= i < channels.len() && quiet_at(config, now)(#[trigger] channels[i]) && order
            == archive_order(config)(channels[i])
}

/// A scan orders no more moves than channels were listed, each into the
/// archive category, and each for a listed channel that is to be archived.
pub proof fn lemma_moves_are_for_quiet_threads(
    channels: Seq<ArchivalCandidate>,
    config: ArchivalConfig,
    now: int,
)
    ensures
        archival_moves(channels, config, now).len() <= channels.len(),
        forall|k: int|
            0 <= k < archival_moves(channels, config, now).len() ==> is_move_of(
                #[trigger] archival_moves(channels, config, now)[k],
                channels,
                config,
                now,
            ),
    decreases channels.len(),
{
    reveal(Seq::filter);
    let moves = archival_moves(channels, config, now);
    if channels.len() > 0 {
        let before = channels.drop_last();
        let earlier = archival_moves(before, config, now);
        lemma_moves_are_for_quiet_threads(before, config, now);
        assert forall|k: int| 0 <= k < moves.len() implies is_move_of(
            #[trigger] moves[k],
            channels,
            config,
            now,
        ) by {
            if k < earlier.len() {
                assert(moves[k] == earlier[k]);
                let i = choose|i: int|
                    0 <= i < before.len() && quiet_at(config, now)(#[trigger] before[i])
                        && earlier[k] == archive_order(config)(before[i]);
                assert(channels[i] == before[i]);
            } else {
                assert(channels[channels.len() - 1] == channels.last());
            }
        }
    }
}

/// Every listed channel that is to be archived has a move ordered for it.
pub proof fn lemma_quiet_threads_are_moved(
    channels: Seq<ArchivalCandidate>,
    config: ArchivalConfig,
    now: int,
    i: int,
)
    requires
        0 <= i < channels.len(),
        is_archivable(channels[i], config.thread_category.id, config.threshold as int, now),
    ensures
        archival_moves(channels, config, now).contains(archive_order(config)(channels[i])),
{
    let quiet = channels.filter(quiet_at(config, now));
    channels.lemma_filter_contains(quiet_at(config, now), i);
    let k = choose|k: int| 0 <= k < quiet.len() && quiet[k] == channels[i];
    assert(archival_moves(channels, config, now)[k] == archive_order(config)(channels[i]));
}

/// Where one channel is listed, and it is to be archived, exactly one move
/// is ordered: that channel, into the archive category.
pub proof fn lemma_one_quiet_thread_one_move(
    channel: ArchivalCandidate,
    config: ArchivalConfig,
    now: int,
)
    requires
        is_archivable(channel, config.thread_category.id, config.threshold as int, now),
    ensures
        archival_moves(seq![channel], config, now) == seq![archive_order(config)(channel)],
{
    reveal_with_fuel(Seq::filter, 2);
    let listed = seq![channel];
    assert(listed.drop_last() =~= Seq::<ArchivalCandidate>::empty());
    assert(listed.filter(quiet_at(config, now)) =~= listed);
    assert(archival_moves(listed, config, now) =~= seq![archive_order(config)(channel)]);
}

/// Picks the channels to archive out of a listing.
pub fn channels_to_archive(
    channels: &Vec<ArchivalCandidate>,
    config: &ArchivalConfig,
    now: i64,
) -> (moves: Vec<CategoryMove>)
    ensures
        moves@ == archival_moves(channels@, *config, now as int),
{
    let mut moves: Vec<CategoryMove> = Vec::new();
    let mut i: usize = 0;
    proof {
        reveal(Seq::filter);
        assert(archival_moves(channels@.take(0), *config, now as int) =~= moves@);
    }
    while i < channels.len()
        invariant
            i <= channels.len(),
            moves@ == archival_moves(channels@.take(i as int), *config, now as int),
        decreases channels.len() - i,
    {
        let channel = &channels[i];
        proof {
            reveal(Seq::filter);
            let seen = channels@.take(i + 1);
            assert(seen.drop_last() =~= channels@.take(i as int));
            assert(seen.last() == *channel);
        }
        if should_archive(channel, config.thread_category.id, config.threshold, now) {
            moves.push(
                CategoryMove { channel_id: channel.id, category_id: config.archive_category_id },
            );
            assert(moves@ =~= archival_moves(channels@.take(i + 1), *config, now as int));
        }
        i = i + 1;
    }
    assert(channels@.take(i as int) =~= channels@);
    moves
}

/// Where the scheduler stands in its cycle.
#[derive(Clone, Copy, Debug, PartialEq, Eq, Structural)]
pub enum SchedulerState {
    /// Asleep between two scans.
    Polling,
    /// Awake, and waiting for the listing of the channels.
    Scanning,
}

/// What happened.
#[derive(Debug)]
pub enum SchedulerEvent {
    /// The sleep is over.
    Woke,
    /// The channels were listed, at the instant `now`.
    Listed { channels: Vec<ArchivalCandidate>, now: i64 },
    /// The channels could not be listed.
    ListFailed,
}

/// The mathematical value of a [`SchedulerEvent`].
pub enum SchedulerEventView {
    Woke,
    Listed { channels: Seq<ArchivalCandidate>, now: int },
    ListFailed,
}

impl View for SchedulerEvent {
    type V = SchedulerEventView;

    open spec fn view(&self) -> SchedulerEventView {
        match self {
            SchedulerEvent::Woke => SchedulerEventView::Woke,
            SchedulerEvent::Listed { channels, now } => SchedulerEventView::Listed {
                channels: channels@,
                now: *now as int,
            },
            SchedulerEvent::ListFailed => SchedulerEventView::ListFailed,
        }
    }
}

/// What the caller is to do next.
#[derive(Debug)]
pub enum SchedulerAction {
    /// List the channels of the guild, and come back with
    /// `SchedulerEvent::Listed` or `SchedulerEvent::ListFailed`.
    ListChannels,
    /// Make each of the moves, going on after one that fails; then sleep
    /// for `seconds`, and come back with `SchedulerEvent::Woke`.
    MoveThenSleep { moves: Vec<CategoryMove>, seconds: u64 },
}

/// The mathematical value of a [`SchedulerAction`].
pub enum SchedulerActionView {
    ListChannels,
    MoveThenSleep { moves: Seq<CategoryMove>, seconds: u64 },
}

impl View for SchedulerAction {
    type V = SchedulerActionView;

    open spec fn view(&self) -> SchedulerActionView {
        match self {
            SchedulerAction::ListChannels => SchedulerActionView::ListChannels,
            SchedulerAction::MoveThenSleep { moves, seconds } => SchedulerActionView::MoveThenSleep {
                moves: moves@,
                seconds: *seconds,
            },
        }
    }
}

/// The action that ends a cycle in which nothing is moved.
pub open spec fn idle_sleep() -> SchedulerActionView {
    SchedulerActionView::MoveThenSleep { moves: Seq::empty(), seconds: SLEEP_TIME_SECS }
}

/// The state and the action that follow on an event.
///
/// Waking starts a scan. A listing ends it with the moves it orders, a
/// failed listing with none; either way the scheduler goes back to sleep.
/// A listing that was not asked for is passed over.
pub open spec fn scheduler_step(
    config: ArchivalConfig,
    state: SchedulerState,
    event: SchedulerEventView,
) -> (SchedulerState, SchedulerActionView) {
    match event {
        SchedulerEventView::Woke => (SchedulerState::Scanning, SchedulerActionView::ListChannels),
        SchedulerEventView::Listed { channels, now } => match state {
            SchedulerState::Scanning => (
                SchedulerState::Polling,
                SchedulerActionView::MoveThenSleep {
                    moves: archival_moves(channels, config, now),
                    seconds: SLEEP_TIME_SECS,
                },
            ),
            SchedulerState::Polling => (SchedulerState::Polling, idle_sleep()),
        },
        SchedulerEventView::ListFailed => (SchedulerState::Polling, idle_sleep()),
    }
}

/// The scheduler of the archival: its set-up and its place in the cycle.
///
/// It starts asleep: the caller sleeps for [`SLEEP_TIME_SECS`] and reports
/// `SchedulerEvent::Woke`. It never ends.
#[derive(Debug)]
pub struct ArchivalScheduler {
    pub config: ArchivalConfig,
    pub state: SchedulerState,
}

impl ArchivalScheduler {
    /// A scheduler that is asleep.
    pub fn new(config: ArchivalConfig) -> (r: ArchivalScheduler)
        ensures
            r.config == config,
            r.state == SchedulerState::Polling,
    {
        ArchivalScheduler { config, state: SchedulerState::Polling }
    }

    /// Takes an event, moves on in the cycle and says what to do next.
    pub fn step(&mut self, event: SchedulerEvent) -> (action: SchedulerAction)
        ensures
            final(self).config == old(self).config,
            (final(self).state, action@) == scheduler_step(
                old(self).config,
                old(self).state,
                event@,
            ),
    {
        match event {
            SchedulerEvent::Woke => {
                self.state = SchedulerState::Scanning;
                SchedulerAction::ListChannels
            },
            SchedulerEvent::Listed { channels, now } => {
                let moves = match self.state {
                    SchedulerState::Scanning => channels_to_archive(&channels, &self.config, now),
                    SchedulerState::Polling => Vec::new(),
                };
                self.state = SchedulerState::Polling;
                SchedulerAction::MoveThenSleep { moves, seconds: SLEEP_TIME_SECS }
            },
            SchedulerEvent::ListFailed => {
                self.state = SchedulerState::Polling;
                SchedulerAction::MoveThenSleep { moves: Vec::new(), seconds: SLEEP_TIME_SECS }
            },
        }
    }
}

} // verus!
