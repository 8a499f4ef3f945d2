//! The polling loop as a state machine.
//!
//! A tick reads the checkpoint, fetches the notifications newer than it,
//! handles them in the order received, and moves the checkpoint past the
//! newest one. The machine does no outside work itself: each call of
//! [`Poller::step`] takes the outcome of the previous command and returns the
//! next command to carry out.

use vstd::prelude::*;
use crate::checkpoint::{
    CheckpointError,
    checkpoint_after,
    checkpoint_record,
    decode_checkpoint,
    encode_checkpoint,
    high_water,
    read_checkpoint,
};
use crate::content::{build_reply, capped, reply_json_of, resolve_content, resolved_text};
use crate::notification::{Dispatch, Notification, classify, dispatch_of};

verus! {

/// Where the machine stands within a tick.
#[derive(Debug, Clone, Copy, PartialEq, Eq, Structural)]
pub enum Stage {
    /// Between ticks, waiting for the timer.
    Idle,
    /// The checkpoint has been asked for.
    Loading,
    /// The notifications have been asked for.
    Fetching,
    /// Walking the fetched notifications.
    Dispatching,
    /// The text of a mentioning post has been asked for.
    Resolving,
    /// An answer has been asked of the generator.
    Generating,
    /// A reply is being stored.
    Publishing,
    /// The new checkpoint is being stored.
    Storing,
    /// The new checkpoint is being read back.
    Verifying,
}

/// How an outside call failed.
#[derive(Debug, Clone, Copy, PartialEq, Eq, Structural)]
pub enum Fault {
    /// The store holds nothing at the address.
    NotFound,
    /// Any other failure: transport, status, decoding.
    Failed,
}

/// The outcome of the last command, handed back to the machine.
#[derive(Debug, PartialEq, Eq)]
pub enum Event {
    /// The pause after `Sleep` is over.
    TimerFired,
    /// A `Log` command was carried out.
    Continue,
    /// The stored checkpoint bytes, after `ReadCheckpoint`.
    CheckpointRead(Result<Vec<u8>, Fault>),
    /// The notifications, after `FetchNotifications`.
    NotificationsFetched(Result<Vec<Notification>, Fault>),
    /// The stored bytes of a post, after `ReadPost`.
    PostRead(Result<Vec<u8>, Fault>),
    /// The generator's answer, after `Generate`.
    ResponseGenerated(Result<String, Fault>),
    /// The outcome of `PublishReply`.
    ReplyPublished(Result<(), Fault>),
    /// The outcome of `WriteCheckpoint`.
    CheckpointWritten(Result<(), Fault>),
}

/// Something worth reporting; no outside work follows from it.
#[derive(Debug, Clone, PartialEq, Eq)]
pub enum Note {
    /// Reading the checkpoint or fetching failed; the tick ends unchanged.
    TickAbandoned,
    /// This many notifications arrived.
    Fetched { count: usize },
    /// A notification at or below the checkpoint, passed over.
    Stale { timestamp: i64 },
    /// `actor` followed the bot.
    Follow { actor: String },
    /// A notification that lacks a field its kind needs, passed over.
    Incomplete { timestamp: i64 },
    /// A notification of a kind the bot does not handle.
    Unknown { kind: String },
    /// A reply to `parent` was stored.
    Replied { parent: String },
    /// Answering `parent` failed; the tick goes on with the next notification.
    ReplyFailed { parent: String },
    /// The checkpoint now reads `value`.
    CheckpointAdvanced { value: i64 },
    /// The checkpoint read back is not the one written (`None`: unreadable).
    CheckpointMismatch { expected: i64, found: Option<i64> },
    /// Storing checkpoint `value` failed.
    CheckpointWriteFailed { value: i64 },
}

/// The next piece of outside work.
#[derive(Debug, Clone, PartialEq, Eq)]
pub enum Command {
    /// Wait the polling period, then answer `TimerFired`.
    Sleep,
    /// Read the stored checkpoint; answer `CheckpointRead`.
    ReadCheckpoint,
    /// Fetch the notifications newer than `since`; answer `NotificationsFetched`.
    FetchNotifications { since: i64 },
    /// Read the post at `uri`; answer `PostRead`.
    ReadPost { uri: String },
    /// Ask the generator to answer `text`; answer `ResponseGenerated`.
    Generate { text: String },
    /// Store the reply record `body` (text `content`, answering `parent`) as a
    /// new post; answer `ReplyPublished`.
    PublishReply { content: String, parent: String, body: Vec<u8> },
    /// Store `body`, the record of checkpoint `value`; answer `CheckpointWritten`.
    WriteCheckpoint { value: i64, body: Vec<u8> },
    /// Report `note`; answer `Continue`.
    Log(Note),
}

/// The timestamps of a batch of notifications, in order.
pub open spec fn timestamps(batch: Seq<Notification>) -> Seq<i64> {
    batch.map_values(|n: Notification| n.timestamp)
}

/// What taking up notification `n` asks for, in a tick that started at
/// `since`: a reply starts by reading the mentioning post; every other
/// notification is only reported.
pub open spec fn take_up(n: Notification, since: i64) -> Command {
    if n.timestamp <= since {
        Command::Log(Note::Stale { timestamp: n.timestamp })
    } else {
        match dispatch_of(n) {
            Dispatch::Mention { actor, post_uri } => Command::ReadPost { uri: post_uri },
            Dispatch::Follow { actor } => Command::Log(Note::Follow { actor }),
            Dispatch::Incomplete => Command::Log(Note::Incomplete { timestamp: n.timestamp }),
            Dispatch::Unknown { kind } => Command::Log(Note::Unknown { kind }),
        }
    }
}

/// The state of the polling loop.
#[derive(Debug)]
pub struct Poller {
    pub stage: Stage,
    /// The checkpoint that the current tick started from.
    pub since: i64,
    /// The newest timestamp seen so far in this tick, or `since`.
    pub high: i64,
    /// The notifications of the current tick.
    pub batch: Vec<Notification>,
    /// How many of them have been taken up.
    pub next: usize,
    /// The post being answered.
    pub parent: String,
    /// The checkpoint being stored.
    pub target: i64,
}

impl Poller {
    /// The machine's invariant.
    pub open spec fn wf(&self) -> bool {
        &&& self.next <= self.batch@.len()
        &&& self.high == high_water(self.since, timestamps(self.batch@).take(self.next as int))
        &&& (self.stage == Stage::Storing || self.stage == Stage::Verifying) ==> {
            &&& self.target == checkpoint_after(self.since, timestamps(self.batch@))
            &&& self.target > self.since
        }
    }

    /// A machine between ticks.
    pub fn new() -> (r: Poller)
        ensures
            r.wf(),
            r.stage == Stage::Idle,
    {
        let r = Poller {
            stage: Stage::Idle,
            since: 0,
            high: 0,
            batch: Vec::new(),
            next: 0,
            parent: String::new(),
            target: 0,
        };
        assert(timestamps(r.batch@).take(0) =~= Seq::<i64>::empty());
        r
    }

    /// Takes the outcome of the last command and returns the next command.
    ///
    /// Faults while reading the checkpoint or fetching end the tick with the
    /// checkpoint untouched; faults while answering one mention end that
    /// answer only. A checkpoint is written once per tick, at the end of the
    /// batch, and only when some notification lies above the tick's start.
    pub fn step(&mut self, event: Event) -> (c: Command)
        requires
            old(self).wf(),
        ensures
            final(self).wf(),
            old(self).stage != Stage::Loading ==> final(self).since == old(self).since,
            old(self).stage == Stage::Resolving || old(self).stage == Stage::Generating
                || old(self).stage == Stage::Publishing ==> {
                &&& final(self).batch == old(self).batch
                &&& final(self).next == old(self).next
                &&& final(self).high == old(self).high
                &&& final(self).parent == old(self).parent
            },
            old(self).stage == Stage::Storing || old(self).stage == Stage::Verifying ==> {
                &&& final(self).batch == old(self).batch
                &&& final(self).next == old(self).next
                &&& final(self).high == old(self).high
                &&& final(self).target == old(self).target
            },
            old(self).stage == Stage::Dispatching && event != Event::Continue ==> c == Command::Log(
                Note::TickAbandoned,
            ) && final(self).stage == Stage::Idle,
            c matches Command::WriteCheckpoint { value, body } ==> {
                &&& old(self).stage == Stage::Dispatching
                &&& event == Event::Continue
                &&& old(self).next == old(self).batch@.len()
                &&& value == checkpoint_after(old(self).since, timestamps(old(self).batch@))
                &&& value > old(self).since
                &&& body@ == checkpoint_record(value)
            },
            c matches Command::PublishReply { content, parent, body } ==> {
                &&& old(self).stage == Stage::Generating
                &&& (event matches Event::ResponseGenerated(Ok(raw)) && content@ == capped(raw@))
                &&& parent == old(self).parent
                &&& body@ == reply_json_of(content@, parent@)
            },
            old(self).stage == Stage::Idle ==> if event == Event::TimerFired {
                c == Command::ReadCheckpoint && final(self).stage == Stage::Loading
            } else {
                c == Command::Sleep && final(self).stage == Stage::Idle
            },
            old(self).stage == Stage::Loading ==> match event {
                Event::CheckpointRead(Ok(b)) => match read_checkpoint(b@) {
                    Ok(t) => c == (Command::FetchNotifications { since: t })
                        && final(self).since == t && final(self).stage == Stage::Fetching,
                    Err(CheckpointError::Missing) => c == (Command::FetchNotifications { since: 0 })
                        && final(self).since == 0 && final(self).stage == Stage::Fetching,
                    Err(CheckpointError::Malformed) => c == Command::Log(Note::TickAbandoned)
                        && final(self).since == old(self).since && final(self).stage == Stage::Idle,
                },
                Event::CheckpointRead(Err(Fault::NotFound)) => c == (Command::FetchNotifications {
                    since: 0,
                }) && final(self).since == 0 && final(self).stage == Stage::Fetching,
                _ => c == Command::Log(Note::TickAbandoned) && final(self).since == old(self).since
                    && final(self).stage == Stage::Idle,
            },
            old(self).stage == Stage::Fetching ==> match event {
                Event::NotificationsFetched(Ok(batch)) => {
                    &&& c == Command::Log(Note::Fetched { count: batch@.len() as usize })
                    &&& final(self).stage == Stage::Dispatching
                    &&& final(self).batch == batch
                    &&& final(self).next == 0
                },
                _ => c == Command::Log(Note::TickAbandoned) && final(self).stage == Stage::Idle,
            },
            old(self).stage == Stage::Dispatching && event == Event::Continue
                && old(self).next < old(self).batch@.len() ==> ({
                let n = old(self).batch@[old(self).next as int];
                &&& final(self).next == old(self).next + 1
                &&& final(self).batch == old(self).batch
                &&& c == take_up(n, old(self).since)
                &&& c matches Command::ReadPost { uri } ==> final(self).stage == Stage::Resolving
                    && final(self).parent == uri
                &&& !(c is ReadPost) ==> final(self).stage == Stage::Dispatching
            }),
            old(self).stage == Stage::Dispatching && event == Event::Continue
                && old(self).next == old(self).batch@.len() ==> final(self).batch == old(self).batch
                && if old(self).high > old(self).since {
                (c matches Command::WriteCheckpoint { value, body } && value == final(self).target)
                    && final(self).stage == Stage::Storing
            } else {
                c == Command::Sleep && final(self).stage == Stage::Idle
            },
            old(self).stage == Stage::Resolving ==> match event {
                Event::PostRead(Ok(b)) => match resolved_text(b@) {
                    Some(text) => (c matches Command::Generate { text: t } && t@ == text)
                        && final(self).stage == Stage::Generating,
                    None => c == Command::Log(Note::ReplyFailed { parent: old(self).parent })
                        && final(self).stage == Stage::Dispatching,
                },
                Event::PostRead(Err(_)) => c == Command::Log(
                    Note::ReplyFailed { parent: old(self).parent },
                ) && final(self).stage == Stage::Dispatching,
                _ => c == Command::Log(Note::TickAbandoned) && final(self).stage == Stage::Idle,
            },
            old(self).stage == Stage::Generating ==> match event {
                Event::ResponseGenerated(Ok(raw)) => (c matches Command::PublishReply {
                    content,
                    parent,
                    body,
                } && content@ == capped(raw@) && parent == old(self).parent && body@
                    == reply_json_of(content@, parent@)) && final(self).stage == Stage::Publishing,
                Event::ResponseGenerated(Err(_)) => c == Command::Log(
                    Note::ReplyFailed { parent: old(self).parent },
                ) && final(self).stage == Stage::Dispatching,
                _ => c == Command::Log(Note::TickAbandoned) && final(self).stage == Stage::Idle,
            },
            old(self).stage == Stage::Publishing ==> match event {
                Event::ReplyPublished(Ok(())) => c == Command::Log(
                    Note::Replied { parent: old(self).parent },
                ) && final(self).stage == Stage::Dispatching,
                Event::ReplyPublished(Err(_)) => c == Command::Log(
                    Note::ReplyFailed { parent: old(self).parent },
                ) && final(self).stage == Stage::Dispatching,
                _ => c == Command::Log(Note::TickAbandoned) && final(self).stage == Stage::Idle,
            },
            old(self).stage == Stage::Storing ==> match event {
                Event::CheckpointWritten(Ok(())) => c == Command::ReadCheckpoint && final(self).stage
                    == Stage::Verifying,
                Event::CheckpointWritten(Err(_)) => c == Command::Log(
                    Note::CheckpointWriteFailed { value: old(self).target },
                ) && final(self).stage == Stage::Idle,
                _ => c == Command::Log(Note::TickAbandoned) && final(self).stage == Stage::Idle,
            },
            old(self).stage == Stage::Verifying ==> final(self).stage == Stage::Idle && match event {
                Event::CheckpointRead(Ok(b)) => c == Command::Log(
                    if read_checkpoint(b@) == Ok::<i64, CheckpointError>(old(self).target) {
                        Note::CheckpointAdvanced { value: old(self).target }
                    } else {
                        Note::CheckpointMismatch {
                            expected: old(self).target,
                            found: match read_checkpoint(b@) {
                                Ok(t) => Some(t),
                                Err(_) => None,
                            },
                        }
                    },
                ),
                Event::CheckpointRead(Err(_)) => c == Command::Log(
                    Note::CheckpointMismatch { expected: old(self).target, found: None },
                ),
                _ => c == Command::Log(Note::TickAbandoned),
            },
    {
        match self.stage {
            Stage::Idle => match event {
                Event::TimerFired => {
                    self.stage = Stage::Loading;
                    Command::ReadCheckpoint
                },
                _ => Command::Sleep,
            },
            Stage::Loading => match event {
                Event::CheckpointRead(Ok(b)) => match decode_checkpoint(&b) {
                    Ok(t) => self.start_tick(t),
                    Err(CheckpointError::Missing) => self.start_tick(0),
                    Err(CheckpointError::Malformed) => self.abandon(),
                },
                Event::CheckpointRead(Err(Fault::NotFound)) => self.start_tick(0),
                _ => self.abandon(),
            },
            Stage::Fetching => match event {
                Event::NotificationsFetched(Ok(batch)) => {
                    let count = batch.len();
                    self.batch = batch;
                    self.next = 0;
                    self.high = self.since;
                    self.stage = Stage::Dispatching;
                    assert(timestamps(self.batch@).take(0) =~= Seq::<i64>::empty());
                    Command::Log(Note::Fetched { count })
                },
                _ => self.abandon(),
            },
            Stage::Dispatching => match event {
                Event::Continue => {
                    let ghost ts = timestamps(self.batch@);
                    proof {
                        if self.next == self.batch@.len() && self.high > self.since {
                            assert(ts.take(self.next as int) =~= ts);
                        }
                    }
                    self.dispatch_next()
                },
                _ => self.abandon(),
            },
            Stage::Resolving => match event {
                Event::PostRead(Ok(b)) => match resolve_content(&b) {
                    Ok(text) => {
                        self.stage = Stage::Generating;
                        Command::Generate { text }
                    },
                    Err(_) => self.reply_failed(),
                },
                Event::PostRead(Err(_)) => self.reply_failed(),
                _ => self.abandon(),
            },
            Stage::Generating => match event {
                Event::ResponseGenerated(Ok(raw)) => {
                    let (content, body) = build_reply(&raw, &self.parent);
                    self.stage = Stage::Publishing;
                    Command::PublishReply { content, parent: self.parent.clone(), body }
                },
                Event::ResponseGenerated(Err(_)) => self.reply_failed(),
                _ => self.abandon(),
            },
            Stage::Publishing => match event {
                Event::ReplyPublished(Ok(())) => {
                    self.stage = Stage::Dispatching;
                    Command::Log(Note::Replied { parent: self.parent.clone() })
                },
                Event::ReplyPublished(Err(_)) => self.reply_failed(),
                _ => self.abandon(),
            },
            Stage::Storing => match event {
                Event::CheckpointWritten(Ok(())) => {
                    self.stage = Stage::Verifying;
                    Command::ReadCheckpoint
                },
                Event::CheckpointWritten(Err(_)) => {
                    self.stage = Stage::Idle;
                    Command::Log(Note::CheckpointWriteFailed { value: self.target })
                },
                _ => self.abandon(),
            },
            Stage::Verifying => {
                self.stage = Stage::Idle;
                match event {
                    Event::CheckpointRead(Ok(b)) => match decode_checkpoint(&b) {
                        Ok(t) => if t == self.target {
                            Command::Log(Note::CheckpointAdvanced { value: self.target })
                        } else {
                            Command::Log(
                                Note::CheckpointMismatch { expected: self.target, found: Some(t) },
                            )
                        },
                        Err(_) => Command::Log(
                            Note::CheckpointMismatch { expected: self.target, found: None },
                        ),
                    },
                    Event::CheckpointRead(Err(_)) => Command::Log(
                        Note::CheckpointMismatch { expected: self.target, found: None },
                    ),
                    _ => Command::Log(Note::TickAbandoned),
                }
            },
        }
    }

    fn abandon(&mut self) -> (c: Command)
        requires
            old(self).wf(),
        ensures
            final(self).wf(),
            final(self).stage == Stage::Idle,
            final(self).since == old(self).since,
            final(self).batch == old(self).batch,
            final(self).next == old(self).next,
            final(self).high == old(self).high,
            final(self).parent == old(self).parent,
            final(self).target == old(self).target,
            c == Command::Log(Note::TickAbandoned),
    {
        self.stage = Stage::Idle;
        Command::Log(Note::TickAbandoned)
    }

    fn start_tick(&mut self, since: i64) -> (c: Command)
        ensures
            final(self).wf(),
            final(self).stage == Stage::Fetching,
            final(self).since == since,
            c == (Command::FetchNotifications { since }),
    {
        self.since = since;
        self.high = since;
        self.batch = Vec::new();
        self.next = 0;
        self.stage = Stage::Fetching;
        assert(timestamps(self.batch@).take(0) =~= Seq::<i64>::empty());
        Command::FetchNotifications { since }
    }


    /// Takes up the next notification of the batch, or ends the batch.
    fn dispatch_next(&mut self) -> (c: Command)
        requires
            old(self).wf(),
        ensures
            final(self).wf(),
            final(self).since == old(self).since,
            final(self).batch == old(self).batch,
            old(self).next < old(self).batch@.len() ==> ({
                let n = old(self).batch@[old(self).next as int];
                &&& final(self).next == old(self).next + 1
                &&& c == take_up(n, old(self).since)
                &&& c matches Command::ReadPost { uri } ==> final(self).stage == Stage::Resolving
                    && final(self).parent == uri
                &&& !(c is ReadPost) ==> final(self).stage == Stage::Dispatching
            }),
            old(self).next == old(self).batch@.len() ==> if old(self).high > old(self).since {
                &&& final(self).stage == Stage::Storing
                &&& c matches Command::WriteCheckpoint { value, body } && value == final(self).target
                    && body@ == checkpoint_record(value)
            } else {
                &&& final(self).stage == Stage::Idle
                &&& c == Command::Sleep
            },
    {
        let ghost ts = timestamps(self.batch@);
        if self.next < self.batch.len() {
            let d = classify(&self.batch[self.next]);
            let t = self.batch[self.next].timestamp;
            proof {
                assert(ts[self.next as int] == t);
                assert(ts.take(self.next + 1).drop_last() =~= ts.take(self.next as int));
            }
            if t > self.high {
                self.high = t;
            }
            self.next = self.next + 1;
            if t <= self.since {
                self.stage = Stage::Dispatching;
                return Command::Log(Note::Stale { timestamp: t });
            }
            match d {
                Dispatch::Mention { actor, post_uri } => {
                    self.parent = post_uri.clone();
                    self.stage = Stage::Resolving;
                    Command::ReadPost { uri: post_uri }
                },
                Dispatch::Follow { actor } => {
                    self.stage = Stage::Dispatching;
                    Command::Log(Note::Follow { actor })
                },
                Dispatch::Incomplete => {
                    self.stage = Stage::Dispatching;
                    Command::Log(Note::Incomplete { timestamp: t })
                },
                Dispatch::Unknown { kind } => {
                    self.stage = Stage::Dispatching;
                    Command::Log(Note::Unknown { kind })
                },
            }
        } else if self.high > self.since {
            assert(ts.take(self.next as int) =~= ts);
            let value: i64 = if self.high == i64::MAX {
                self.high
            } else {
                self.high + 1
            };
            self.target = value;
            self.stage = Stage::Storing;
            Command::WriteCheckpoint { value, body: encode_checkpoint(value) }
        } else {
            self.stage = Stage::Idle;
            Command::Sleep
        }
    }

    fn reply_failed(&mut self) -> (c: Command)
        requires
            old(self).wf(),
        ensures
            final(self).wf(),
            final(self).stage == Stage::Dispatching,
            final(self).since == old(self).since,
            final(self).next == old(self).next,
            final(self).batch == old(self).batch,
            final(self).high == old(self).high,
            final(self).parent == old(self).parent,
            c == Command::Log(Note::ReplyFailed { parent: old(self).parent }),
    {
        self.stage = Stage::Dispatching;
        Command::Log(Note::ReplyFailed { parent: self.parent.clone() })
    }
}

/// A notification that lacks a field its kind needs is only reported: it
/// starts no reply and writes nothing, and the batch goes on with the next one.
pub proof fn lemma_incomplete_only_reported(n: Notification, since: i64)
    requires
        (n.kind@ == "mention"@ && (n.mentioned_by is None || n.post_uri is None)) || (n.kind@
            == "follow"@ && n.followed_by is None),
    ensures
        take_up(n, since) is Log,
        n.timestamp > since ==> take_up(n, since) == Command::Log(
            Note::Incomplete { timestamp: n.timestamp },
        ),
{
    reveal_strlit("mention");
    reveal_strlit("follow");
    if n.kind@ == "follow"@ {
        assert(n.kind@[0] != "mention"@[0]);
    }
}

/// A notification of any kind but mention and follow is only reported: it
/// starts no reply and writes nothing, and the batch goes on with the next one.
pub proof fn lemma_unknown_kind_only_reported(n: Notification, since: i64)
    requires
        n.kind@ != "mention"@,
        n.kind@ != "follow"@,
    ensures
        take_up(n, since) is Log,
        n.timestamp > since ==> take_up(n, since) == Command::Log(Note::Unknown { kind: n.kind }),
{
}

} // verus!
