//! Waiting for a song to appear at the content delivery endpoint.
//!
//! The retrier decides; the caller performs. The caller polls the address
//! that the retrier names, hands each outcome to `on_poll`, sleeps when
//! told to wait, and on success stores and decodes the payload and hands
//! the result to `on_delivered`. The interval does not grow. Unless a
//! limit is set, there is no limit on the number of attempts: a song that
//! never appears is then polled for ever.

use crate::text::{concat3, concat5};
use crate::types::{Event, EventView, UserMessage, UserMessageView, UserRoles};
use vstd::prelude::*;
use vstd::string::*;

verus! {

/// Seconds between two polls.
pub const POLL_INTERVAL_SECONDS: u64 = 5;

/// The address at which the audio of `song_id` appears.
pub open spec fn cdn_url(song_id: Seq<char>) -> Seq<char> {
    "https://cdn1.suno.ai/"@ + song_id + ".mp3"@
}

/// The place in the local content store of the audio of `song_id`.
pub open spec fn local_path(song_id: Seq<char>) -> Seq<char> {
    "ai_songs/"@ + song_id + ".mp3"@
}

/// What the requesting user is told once the song is queued.
pub open spec fn arrival_notice(user_name: Seq<char>, song_id: Seq<char>) -> Seq<char> {
    "@"@ + user_name + "'s song "@ + song_id + " added to the Queue."@
}

/// The command that is published when a song has arrived.
pub open spec fn arrival_event(song_id: Seq<char>) -> EventView {
    EventView::UserMessage(
        UserMessageView {
            user_name: "beginbot"@,
            contents: "!play "@ + song_id,
            roles: UserRoles::none(),
        },
    )
}

/// Builds `cdn_url`.
pub fn make_cdn_url(song_id: &str) -> (r: String)
    ensures
        r@ == cdn_url(song_id@),
{
    concat3("https://cdn1.suno.ai/", song_id, ".mp3")
}

/// Builds `local_path`.
pub fn make_local_path(song_id: &str) -> (r: String)
    ensures
        r@ == local_path(song_id@),
{
    concat3("ai_songs/", song_id, ".mp3")
}

/// How one poll ended.
#[derive(Debug, PartialEq, Eq, Structural, Clone, Copy)]
pub enum PollOutcome {
    /// The endpoint answered with success: the payload is there.
    Ready,
    /// The endpoint answered, but not with success: not published yet.
    NotReady,
    /// The request itself failed.
    Failed,
}

/// How storing and decoding the payload ended.
#[derive(Debug, PartialEq, Eq, Structural, Clone, Copy)]
pub enum Delivery {
    /// The payload is stored and decodes to something playable.
    Playable,
    /// The payload could not be written to the local store.
    StoreFailed,
    /// The payload is stored but is no audio.
    Undecodable,
}

/// Where a retrier stands.
#[derive(Debug, PartialEq, Eq, Structural, Clone, Copy)]
pub enum RetryPhase {
    /// The song has not appeared yet.
    Polling,
    /// The song appeared; its payload is being stored and decoded.
    Delivering,
    /// The song was handed to the output.
    Delivered,
    /// The payload was of no use, or the song did not appear within the
    /// limit of attempts; nothing was played.
    Abandoned,
}

/// What the caller does after a poll.
#[derive(Debug)]
pub enum RetryAction {
    /// Sleep this many seconds, then poll `url` again.
    Wait { seconds: u64, url: String },
    /// Store the payload at `path`, decode it, and report the result.
    Deliver { song_id: String, path: String },
    /// Stop: the limit of attempts is reached and the song did not appear.
    GiveUp { attempts: u64 },
    /// Nothing: this retrier is not polling.
    Nothing,
}

/// Mathematical value of a `RetryAction`.
pub enum RetryActionView {
    Wait { seconds: nat, url: Seq<char> },
    Deliver { song_id: Seq<char>, path: Seq<char> },
    GiveUp { attempts: nat },
    Nothing,
}

impl View for RetryAction {
    type V = RetryActionView;

    open spec fn view(&self) -> RetryActionView {
        match self {
            RetryAction::Wait { seconds, url } => RetryActionView::Wait {
                seconds: *seconds as nat,
                url: url@,
            },
            RetryAction::Deliver { song_id, path } => RetryActionView::Deliver {
                song_id: song_id@,
                path: path@,
            },
            RetryAction::GiveUp { attempts } => RetryActionView::GiveUp {
                attempts: *attempts as nat,
            },
            RetryAction::Nothing => RetryActionView::Nothing,
        }
    }
}

/// What follows a delivery.
#[derive(Debug)]
pub enum Arrival {
    /// Nothing happens: the payload was of no use, or nothing was being
    /// delivered.
    Nothing,
    /// The song is played, the requesting user is told, and, where the
    /// retrier was made to, a command is published for the other handlers.
    Play { song_id: String, notice: String, publish: Option<Event> },
}

/// Mathematical value of an `Arrival`.
pub enum ArrivalView {
    Nothing,
    Play { song_id: Seq<char>, notice: Seq<char>, publish: Option<EventView> },
}

impl View for Arrival {
    type V = ArrivalView;

    open spec fn view(&self) -> ArrivalView {
        match self {
            Arrival::Nothing => ArrivalView::Nothing,
            Arrival::Play { song_id, notice, publish } => ArrivalView::Play {
                song_id: song_id@,
                notice: notice@,
                publish: match publish {
                    Some(e) => Some(e@),
                    None => None,
                },
            },
        }
    }
}

/// Mathematical value of a `DownloadRetrier`.
pub struct RetrierView {
    pub song_id: Seq<char>,
    pub requested_by: Seq<char>,
    /// Whether a command is published on arrival.
    pub republish: bool,
    /// After how many polls without success the retrier gives up; `None`
    /// for never.
    pub limit: Option<nat>,
    /// How many polls were reported, held at the greatest value that fits.
    pub attempts: nat,
    pub phase: RetryPhase,
}

impl RetrierView {
    /// The retrier before its first poll, without a limit of attempts.
    pub open spec fn initial(
        song_id: Seq<char>,
        requested_by: Seq<char>,
        republish: bool,
    ) -> RetrierView {
        RetrierView {
            song_id,
            requested_by,
            republish,
            limit: None,
            attempts: 0,
            phase: RetryPhase::Polling,
        }
    }

    /// The count of attempts after one more poll.
    pub open spec fn counted(self) -> nat {
        if self.attempts < u64::MAX {
            self.attempts + 1
        } else {
            self.attempts
        }
    }

    /// Whether one more poll without success exhausts the limit.
    pub open spec fn exhausted(self) -> bool {
        match self.limit {
            Some(l) => self.counted() >= l,
            None => false,
        }
    }

    /// The retrier after a poll with `outcome` was reported.
    pub open spec fn on_poll(self, outcome: PollOutcome) -> RetrierView {
        if self.phase != RetryPhase::Polling {
            self
        } else {
            RetrierView {
                attempts: self.counted(),
                phase: if outcome == PollOutcome::Ready {
                    RetryPhase::Delivering
                } else if self.exhausted() {
                    RetryPhase::Abandoned
                } else {
                    RetryPhase::Polling
                },
                ..self
            }
        }
    }

    /// What the caller does after a poll with `outcome` was reported.
    pub open spec fn poll_action(self, outcome: PollOutcome) -> RetryActionView {
        if self.phase != RetryPhase::Polling {
            RetryActionView::Nothing
        } else if outcome == PollOutcome::Ready {
            RetryActionView::Deliver { song_id: self.song_id, path: local_path(self.song_id) }
        } else if self.exhausted() {
            RetryActionView::GiveUp { attempts: self.counted() }
        } else {
            RetryActionView::Wait {
                seconds: POLL_INTERVAL_SECONDS as nat,
                url: cdn_url(self.song_id),
            }
        }
    }

    /// The retrier after the delivery was reported.
    pub open spec fn on_delivered(self, delivery: Delivery) -> RetrierView {
        if self.phase != RetryPhase::Delivering {
            self
        } else {
            RetrierView {
                phase: if delivery == Delivery::Playable {
                    RetryPhase::Delivered
                } else {
                    RetryPhase::Abandoned
                },
                ..self
            }
        }
    }

    /// What follows the delivery.
    pub open spec fn arrival(self, delivery: Delivery) -> ArrivalView {
        if self.phase == RetryPhase::Delivering && delivery == Delivery::Playable {
            ArrivalView::Play {
                song_id: self.song_id,
                notice: arrival_notice(self.requested_by, self.song_id),
                publish: if self.republish {
                    Some(arrival_event(self.song_id))
                } else {
                    None
                },
            }
        } else {
            ArrivalView::Nothing
        }
    }
}

/// Polls for one song until it appears, then hands it over, once.
pub struct DownloadRetrier {
    song_id: String,
    requested_by: String,
    republish: bool,
    limit: Option<u64>,
    attempts: u64,
    phase: RetryPhase,
}

impl View for DownloadRetrier {
    type V = RetrierView;

    closed spec fn view(&self) -> RetrierView {
        RetrierView {
            song_id: self.song_id@,
            requested_by: self.requested_by@,
            republish: self.republish,
            limit: match self.limit {
                Some(l) => Some(l as nat),
                None => None,
            },
            attempts: self.attempts as nat,
            phase: self.phase,
        }
    }
}

impl DownloadRetrier {
    /// A retrier for `song_id`, asked for by `requested_by`. With
    /// `republish`, the arrival is also published as a `!play` command.
    pub fn new(song_id: &str, requested_by: &str, republish: bool) -> (r: Self)
        ensures
            r@ == RetrierView::initial(song_id@, requested_by@, republish),
    {
        DownloadRetrier {
            song_id: String::from_str(song_id),
            requested_by: String::from_str(requested_by),
            republish,
            limit: None,
            attempts: 0,
            phase: RetryPhase::Polling,
        }
    }

    /// The same retrier, giving up after `max_attempts` polls without
    /// success.
    pub fn with_limit(self, max_attempts: u64) -> (r: Self)
        ensures
            r@ == (RetrierView { limit: Some(max_attempts as nat), ..self@ }),
    {
        DownloadRetrier { limit: Some(max_attempts), ..self }
    }

    /// The address to poll.
    pub fn url(&self) -> (r: String)
        ensures
            r@ == cdn_url(self@.song_id),
    {
        make_cdn_url(self.song_id.as_str())
    }

    /// How many polls were reported.
    pub fn attempts(&self) -> (n: u64)
        ensures
            n as nat == self@.attempts,
    {
        self.attempts
    }

    pub fn phase(&self) -> (p: RetryPhase)
        ensures
            p == self@.phase,
    {
        self.phase
    }

    /// Takes the outcome of one poll and says what to do next.
    pub fn on_poll(&mut self, outcome: PollOutcome) -> (action: RetryAction)
        ensures
            final(self)@ == old(self)@.on_poll(outcome),
            action@ == old(self)@.poll_action(outcome),
    {
        match self.phase {
            RetryPhase::Polling => {},
            _ => {
                return RetryAction::Nothing;
            },
        }
        if self.attempts < u64::MAX {
            self.attempts = self.attempts + 1;
        }
        let exhausted = match self.limit {
            Some(l) => self.attempts >= l,
            None => false,
        };
        match outcome {
            PollOutcome::Ready => {
                self.phase = RetryPhase::Delivering;
                RetryAction::Deliver {
                    song_id: self.song_id.clone(),
                    path: make_local_path(self.song_id.as_str()),
                }
            },
            _ => if exhausted {
                self.phase = RetryPhase::Abandoned;
                RetryAction::GiveUp { attempts: self.attempts }
            } else {
                RetryAction::Wait {
                    seconds: POLL_INTERVAL_SECONDS,
                    url: make_cdn_url(self.song_id.as_str()),
                }
            },
        }
    }

    /// Takes the result of storing and decoding the payload and says what
    /// follows.
    pub fn on_delivered(&mut self, delivery: Delivery) -> (arrival: Arrival)
        ensures
            final(self)@ == old(self)@.on_delivered(delivery),
            arrival@ == old(self)@.arrival(delivery),
    {
        match self.phase {
            RetryPhase::Delivering => {},
            _ => {
                return Arrival::Nothing;
            },
        }
        match delivery {
            Delivery::Playable => {
                self.phase = RetryPhase::Delivered;
                let notice = concat5(
                    "@",
                    self.requested_by.as_str(),
                    "'s song ",
                    self.song_id.as_str(),
                    " added to the Queue.",
                );
                let publish = if self.republish {
                    let mut contents = String::from_str("!play ");
                    contents.append(self.song_id.as_str());
                    Some(
                        Event::UserMessage(
                            UserMessage {
                                user_name: String::from_str("beginbot"),
                                contents,
                                roles: UserRoles::default(),
                            },
                        ),
                    )
                } else {
                    None
                };
                Arrival::Play { song_id: self.song_id.clone(), notice, publish }
            },
            _ => {
                self.phase = RetryPhase::Abandoned;
                Arrival::Nothing
            },
        }
    }
}

/// The retrier after the polls of `outcomes` were reported in order.
pub open spec fn after_polls(r: RetrierView, outcomes: Seq<PollOutcome>) -> RetrierView
    decreases outcomes.len(),
{
    if outcomes.len() == 0 {
        r
    } else {
        after_polls(r, outcomes.drop_last()).on_poll(outcomes.last())
    }
}

/// A song that appears at the `n`-th poll costs exactly `n` polls. Every
/// poll before it is answered with a wait of the fixed interval; the
/// `n`-th is answered with the delivery; and then, and only then, the
/// song is played.
pub proof fn lemma_ready_at_nth_poll(r: RetrierView, outcomes: Seq<PollOutcome>)
    requires
        r.phase == RetryPhase::Polling,
        r.attempts == 0,
        0 < outcomes.len() <= u64::MAX,
        r.limit matches Some(l) ==> outcomes.len() <= l,
        outcomes.last() == PollOutcome::Ready,
        forall|i: int| 0 <= i < outcomes.len() - 1 ==> outcomes[i] != PollOutcome::Ready,
    ensures
        forall|i: int|
            0 <= i < outcomes.len() - 1 ==> #[trigger] after_polls(
                r,
                outcomes.take(i),
            ).poll_action(outcomes[i]) == (RetryActionView::Wait {
                seconds: POLL_INTERVAL_SECONDS as nat,
                url: cdn_url(r.song_id),
            }),
        after_polls(r, outcomes.drop_last()).poll_action(outcomes.last())
            == (RetryActionView::Deliver { song_id: r.song_id, path: local_path(r.song_id) }),
        after_polls(r, outcomes).attempts == outcomes.len(),
        after_polls(r, outcomes).phase == RetryPhase::Delivering,
        after_polls(r, outcomes).arrival(Delivery::Playable) is Play,
        after_polls(r, outcomes).on_delivered(Delivery::Playable).phase == RetryPhase::Delivered,
{
    lemma_still_polling(r, outcomes.drop_last());
    assert forall|i: int| 0 <= i < outcomes.len() - 1 implies #[trigger] after_polls(
        r,
        outcomes.take(i),
    ).poll_action(outcomes[i]) == (RetryActionView::Wait {
        seconds: POLL_INTERVAL_SECONDS as nat,
        url: cdn_url(r.song_id),
    }) by {
        assert forall|j: int| 0 <= j < outcomes.take(i).len() implies outcomes.take(i)[j]
            != PollOutcome::Ready by {
            assert(outcomes.take(i)[j] == outcomes[j]);
        }
        lemma_still_polling(r, outcomes.take(i));
    }
}

/// While the song has not appeared, the retrier keeps polling and counts.
pub proof fn lemma_still_polling(r: RetrierView, outcomes: Seq<PollOutcome>)
    requires
        r.phase == RetryPhase::Polling,
        r.attempts + outcomes.len() <= u64::MAX,
        r.limit matches Some(l) ==> r.attempts + outcomes.len() < l,
        forall|i: int| 0 <= i < outcomes.len() ==> outcomes[i] != PollOutcome::Ready,
    ensures
        after_polls(r, outcomes) == (RetrierView {
            attempts: r.attempts + outcomes.len(),
            ..r
        }),
    decreases outcomes.len(),
{
    if outcomes.len() > 0 {
        lemma_still_polling(r, outcomes.drop_last());
    }
}

/// A song is handed over at most once: whatever is reported after the
/// delivery changes nothing and plays nothing.
pub proof fn lemma_delivered_is_final(r: RetrierView, outcome: PollOutcome, delivery: Delivery)
    requires
        r.phase == RetryPhase::Delivered || r.phase == RetryPhase::Abandoned,
    ensures
        r.on_poll(outcome) == r,
        r.poll_action(outcome) == RetryActionView::Nothing,
        r.on_delivered(delivery) == r,
        r.arrival(delivery) == ArrivalView::Nothing,
{
}

/// Nothing is played while the retrier polls.
pub proof fn lemma_no_play_while_polling(r: RetrierView, delivery: Delivery)
    requires
        r.phase == RetryPhase::Polling,
    ensures
        r.arrival(delivery) == ArrivalView::Nothing,
        r.on_delivered(delivery) == r,
{
}


/// A retrier with a limit gives up at the limit and not before: after
/// as many polls without success as the limit allows, it has counted
/// them all, is told to stop, and plays nothing from then on.
pub proof fn lemma_gives_up_at_the_limit(r: RetrierView, outcomes: Seq<PollOutcome>)
    requires
        r.phase == RetryPhase::Polling,
        r.attempts == 0,
        r.limit == Some(outcomes.len()),
        0 < outcomes.len() <= u64::MAX,
        forall|i: int| 0 <= i < outcomes.len() ==> outcomes[i] != PollOutcome::Ready,
    ensures
        after_polls(r, outcomes.drop_last()).phase == RetryPhase::Polling,
        after_polls(r, outcomes.drop_last()).poll_action(outcomes.last())
            == (RetryActionView::GiveUp { attempts: outcomes.len() }),
        after_polls(r, outcomes).phase == RetryPhase::Abandoned,
        after_polls(r, outcomes).attempts == outcomes.len(),
        forall|d: Delivery| #[trigger] after_polls(r, outcomes).arrival(d) == ArrivalView::Nothing,
{
    lemma_still_polling(r, outcomes.drop_last());
}

} // verus!
