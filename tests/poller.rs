use mention_bot::checkpoint::encode_checkpoint;
use mention_bot::notification::Notification;
use mention_bot::poller::{Command, Event, Fault, Note, Poller, Stage};

fn note(timestamp: i64, kind: &str) -> Notification {
    Notification {
        timestamp,
        kind: kind.to_string(),
        mentioned_by: None,
        post_uri: None,
        followed_by: None,
        tagged_by: None,
        tag_label: None,
        replied_by: None,
        parent_post_uri: None,
        reply_uri: None,
    }
}

fn mention(timestamp: i64, actor: &str, uri: &str) -> Notification {
    let mut n = note(timestamp, "mention");
    n.mentioned_by = Some(actor.to_string());
    n.post_uri = Some(uri.to_string());
    n
}

fn follow(timestamp: i64, actor: &str) -> Notification {
    let mut n = note(timestamp, "follow");
    n.followed_by = Some(actor.to_string());
    n
}

/// A machine that has read checkpoint `since` and received `batch`.
fn fetched(since: i64, batch: Vec<Notification>) -> Poller {
    let mut p = Poller::new();
    assert_eq!(p.step(Event::TimerFired), Command::ReadCheckpoint);
    assert_eq!(
        p.step(Event::CheckpointRead(Ok(encode_checkpoint(since)))),
        Command::FetchNotifications { since }
    );
    let count = batch.len();
    assert_eq!(
        p.step(Event::NotificationsFetched(Ok(batch))),
        Command::Log(Note::Fetched { count })
    );
    p
}

#[test]
fn tick_mention_and_follow() {
    let mut p = fetched(100, vec![mention(105, "A", "u1"), follow(103, "B")]);
    assert_eq!(p.step(Event::Continue), Command::ReadPost { uri: "u1".to_string() });
    assert_eq!(
        p.step(Event::PostRead(Ok(b"hello bot".to_vec()))),
        Command::Generate { text: "hello bot".to_string() }
    );
    match p.step(Event::ResponseGenerated(Ok("Hi A!".to_string()))) {
        Command::PublishReply { content, parent, body } => {
            assert_eq!(content, "Hi A!");
            assert_eq!(parent, "u1");
            let post: pubky_app_specs::PubkyAppPost = serde_json::from_slice(&body).unwrap();
            assert_eq!(post.parent.as_deref(), Some("u1"));
            assert_eq!(post.content, "Hi A!");
        }
        other => panic!("expected a reply, got {:?}", other),
    }
    assert_eq!(
        p.step(Event::ReplyPublished(Ok(()))),
        Command::Log(Note::Replied { parent: "u1".to_string() })
    );
    assert_eq!(p.step(Event::Continue), Command::Log(Note::Follow { actor: "B".to_string() }));
    assert_eq!(
        p.step(Event::Continue),
        Command::WriteCheckpoint { value: 106, body: encode_checkpoint(106) }
    );
    assert_eq!(p.step(Event::CheckpointWritten(Ok(()))), Command::ReadCheckpoint);
    assert_eq!(
        p.step(Event::CheckpointRead(Ok(encode_checkpoint(106)))),
        Command::Log(Note::CheckpointAdvanced { value: 106 })
    );
    assert_eq!(p.stage, Stage::Idle);
    assert_eq!(p.step(Event::Continue), Command::Sleep);
}

#[test]
fn long_answer_is_cut_to_cap() {
    let mut p = fetched(0, vec![mention(5, "A", "u1")]);
    p.step(Event::Continue);
    p.step(Event::PostRead(Ok(b"question".to_vec())));
    let raw = "y".repeat(5000);
    match p.step(Event::ResponseGenerated(Ok(raw.clone()))) {
        Command::PublishReply { content, .. } => {
            assert_eq!(content.chars().count(), 1000);
            assert!(raw.starts_with(&content));
        }
        other => panic!("expected a reply, got {:?}", other),
    }
}

#[test]
fn fetch_failure_leaves_checkpoint() {
    let mut p = Poller::new();
    p.step(Event::TimerFired);
    p.step(Event::CheckpointRead(Ok(encode_checkpoint(100))));
    assert_eq!(
        p.step(Event::NotificationsFetched(Err(Fault::Failed))),
        Command::Log(Note::TickAbandoned)
    );
    assert_eq!(p.since, 100);
    assert_eq!(p.stage, Stage::Idle);
    assert_eq!(p.step(Event::Continue), Command::Sleep);
    assert_eq!(p.step(Event::TimerFired), Command::ReadCheckpoint);
}

#[test]
fn stale_batch_writes_nothing() {
    let mut p = fetched(100, vec![mention(100, "A", "u1"), follow(42, "B")]);
    assert_eq!(p.step(Event::Continue), Command::Log(Note::Stale { timestamp: 100 }));
    assert_eq!(p.step(Event::Continue), Command::Log(Note::Stale { timestamp: 42 }));
    assert_eq!(p.step(Event::Continue), Command::Sleep);
    assert_eq!(p.since, 100);
}

#[test]
fn empty_batch_writes_nothing() {
    let mut p = fetched(7, Vec::new());
    assert_eq!(p.step(Event::Continue), Command::Sleep);
}

#[test]
fn incomplete_and_unknown_are_passed_over() {
    let mut bare = note(110, "mention");
    bare.mentioned_by = Some("A".to_string());
    let mut p = fetched(100, vec![bare, note(111, "tag"), follow(108, "C")]);
    assert_eq!(p.step(Event::Continue), Command::Log(Note::Incomplete { timestamp: 110 }));
    assert_eq!(p.step(Event::Continue), Command::Log(Note::Unknown { kind: "tag".to_string() }));
    assert_eq!(p.step(Event::Continue), Command::Log(Note::Follow { actor: "C".to_string() }));
    assert_eq!(
        p.step(Event::Continue),
        Command::WriteCheckpoint { value: 112, body: encode_checkpoint(112) }
    );
}

#[test]
fn failed_reply_does_not_stop_the_batch() {
    let mut p = fetched(0, vec![mention(3, "A", "u1"), mention(9, "B", "u2")]);
    p.step(Event::Continue);
    p.step(Event::PostRead(Ok(b"q".to_vec())));
    assert_eq!(
        p.step(Event::ResponseGenerated(Err(Fault::Failed))),
        Command::Log(Note::ReplyFailed { parent: "u1".to_string() })
    );
    assert_eq!(p.step(Event::Continue), Command::ReadPost { uri: "u2".to_string() });
    assert_eq!(
        p.step(Event::PostRead(Err(Fault::Failed))),
        Command::Log(Note::ReplyFailed { parent: "u2".to_string() })
    );
    assert_eq!(
        p.step(Event::Continue),
        Command::WriteCheckpoint { value: 10, body: encode_checkpoint(10) }
    );
}

#[test]
fn undecodable_post_fails_that_reply() {
    let mut p = fetched(0, vec![mention(3, "A", "u1")]);
    p.step(Event::Continue);
    assert_eq!(
        p.step(Event::PostRead(Ok(vec![0xff, 0xfe]))),
        Command::Log(Note::ReplyFailed { parent: "u1".to_string() })
    );
}

#[test]
fn failed_publish_is_reported() {
    let mut p = fetched(0, vec![mention(3, "A", "u1")]);
    p.step(Event::Continue);
    p.step(Event::PostRead(Ok(Vec::new())));
    p.step(Event::ResponseGenerated(Ok("ok".to_string())));
    assert_eq!(
        p.step(Event::ReplyPublished(Err(Fault::Failed))),
        Command::Log(Note::ReplyFailed { parent: "u1".to_string() })
    );
    assert_eq!(
        p.step(Event::Continue),
        Command::WriteCheckpoint { value: 4, body: encode_checkpoint(4) }
    );
}

#[test]
fn missing_checkpoint_starts_at_zero() {
    let mut p = Poller::new();
    p.step(Event::TimerFired);
    assert_eq!(
        p.step(Event::CheckpointRead(Err(Fault::NotFound))),
        Command::FetchNotifications { since: 0 }
    );
    let mut q = Poller::new();
    q.step(Event::TimerFired);
    assert_eq!(
        q.step(Event::CheckpointRead(Ok(Vec::new()))),
        Command::FetchNotifications { since: 0 }
    );
}

#[test]
fn unreadable_checkpoint_abandons_tick() {
    let mut p = Poller::new();
    p.step(Event::TimerFired);
    assert_eq!(
        p.step(Event::CheckpointRead(Ok(b"garbage".to_vec()))),
        Command::Log(Note::TickAbandoned)
    );
    let mut q = Poller::new();
    q.step(Event::TimerFired);
    assert_eq!(
        q.step(Event::CheckpointRead(Err(Fault::Failed))),
        Command::Log(Note::TickAbandoned)
    );
}

#[test]
fn checkpoint_mismatch_is_reported() {
    let mut p = fetched(0, vec![follow(20, "B")]);
    p.step(Event::Continue);
    assert_eq!(
        p.step(Event::Continue),
        Command::WriteCheckpoint { value: 21, body: encode_checkpoint(21) }
    );
    p.step(Event::CheckpointWritten(Ok(())));
    assert_eq!(
        p.step(Event::CheckpointRead(Ok(encode_checkpoint(5)))),
        Command::Log(Note::CheckpointMismatch { expected: 21, found: Some(5) })
    );
}

#[test]
fn checkpoint_write_failure_is_reported() {
    let mut p = fetched(0, vec![follow(20, "B")]);
    p.step(Event::Continue);
    p.step(Event::Continue);
    assert_eq!(
        p.step(Event::CheckpointWritten(Err(Fault::Failed))),
        Command::Log(Note::CheckpointWriteFailed { value: 21 })
    );
    assert_eq!(p.stage, Stage::Idle);
}

#[test]
fn checkpoint_holds_at_largest_timestamp() {
    let mut p = fetched(0, vec![follow(i64::MAX, "B")]);
    p.step(Event::Continue);
    assert_eq!(
        p.step(Event::Continue),
        Command::WriteCheckpoint { value: i64::MAX, body: encode_checkpoint(i64::MAX) }
    );
}

#[test]
fn checkpoint_never_decreases_over_ticks() {
    let mut stored: i64 = 50;
    let batches = vec![
        Some(vec![follow(60, "A"), follow(55, "B")]),
        None,
        Some(vec![follow(10, "C")]),
        Some(vec![follow(61, "D"), follow(90, "E")]),
    ];
    for batch in batches {
        let mut p = Poller::new();
        p.step(Event::TimerFired);
        p.step(Event::CheckpointRead(Ok(encode_checkpoint(stored))));
        let before = stored;
        match batch {
            None => {
                p.step(Event::NotificationsFetched(Err(Fault::Failed)));
            }
            Some(b) => {
                p.step(Event::NotificationsFetched(Ok(b)));
                loop {
                    match p.step(Event::Continue) {
                        Command::WriteCheckpoint { value, .. } => {
                            stored = value;
                            break;
                        }
                        Command::Sleep => break,
                        _ => {}
                    }
                }
            }
        }
        assert!(stored >= before);
    }
    assert_eq!(stored, 91);
}

#[test]
fn idle_ignores_stray_events() {
    let mut p = Poller::new();
    assert_eq!(p.step(Event::Continue), Command::Sleep);
    assert_eq!(p.step(Event::PostRead(Ok(Vec::new()))), Command::Sleep);
    assert_eq!(p.stage, Stage::Idle);
}
