//! Notifications as the feed delivers them, and their routing by kind.

use vstd::prelude::*;

verus! {

/// One event record from the notification feed.
///
/// Fields beyond `timestamp` and `kind` may be absent even where the kind
/// implies them.
#[derive(Debug, Clone, PartialEq, Eq)]
pub struct Notification {
    pub timestamp: i64,
    pub kind: String,
    pub mentioned_by: Option<String>,
    pub post_uri: Option<String>,
    pub followed_by: Option<String>,
    pub tagged_by: Option<String>,
    pub tag_label: Option<String>,
    pub replied_by: Option<String>,
    pub parent_post_uri: Option<String>,
    pub reply_uri: Option<String>,
}

/// What is to be done with one notification.
#[derive(Debug, Clone, PartialEq, Eq)]
pub enum Dispatch {
    /// Answer the post at `post_uri`, written by `actor`.
    Mention { actor: String, post_uri: String },
    /// Record that `actor` followed; nothing is written.
    Follow { actor: String },
    /// A known kind that lacks a field it needs; skipped quietly.
    Incomplete,
    /// Any other kind; recorded and otherwise ignored.
    Unknown { kind: String },
}

/// The routing of notification `n`.
pub open spec fn dispatch_of(n: Notification) -> Dispatch {
    if n.kind@ == "mention"@ {
        match (n.mentioned_by, n.post_uri) {
            (Some(actor), Some(post_uri)) => Dispatch::Mention { actor, post_uri },
            _ => Dispatch::Incomplete,
        }
    } else if n.kind@ == "follow"@ {
        match n.followed_by {
            Some(actor) => Dispatch::Follow { actor },
            None => Dispatch::Incomplete,
        }
    } else {
        Dispatch::Unknown { kind: n.kind }
    }
}

/// Routes a notification by its kind.
pub fn classify(n: &Notification) -> (r: Dispatch)
    ensures
        r == dispatch_of(*n),
{
    let mention = "mention".to_owned();
    let follow = "follow".to_owned();
    if n.kind == mention {
        match (&n.mentioned_by, &n.post_uri) {
            (Some(actor), Some(post_uri)) => Dispatch::Mention {
                actor: actor.clone(),
                post_uri: post_uri.clone(),
            },
            _ => Dispatch::Incomplete,
        }
    } else if n.kind == follow {
        match &n.followed_by {
            Some(actor) => Dispatch::Follow { actor: actor.clone() },
            None => Dispatch::Incomplete,
        }
    } else {
        Dispatch::Unknown { kind: n.kind.clone() }
    }
}

} // verus!
