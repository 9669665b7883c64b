//! The GitHub activity feed: which events are fetched and how each one is
//! described.
use vstd::prelude::*;

use crate::text::{
    concat2, concat3, decimal_text, i64_text, owned, remove_all, remove_all_of, same_text,
};

verus! {

broadcast use vstd::string::group_string_axioms;

/// A repository as GitHub's events API names it.
#[derive(Debug, Clone, PartialEq, Eq)]
pub struct GitHubRepo {
    pub name: String,
    pub url: String,
}

/// The parts of an event's payload that its description reads: `size` when it
/// is an integer, and `ref`, `ref_type` and `action` when they are strings.
#[derive(Debug, Clone, PartialEq, Eq)]
pub struct EventPayload {
    pub size: Option<i64>,
    pub git_ref: Option<String>,
    pub ref_type: Option<String>,
    pub action: Option<String>,
}

/// One event of GitHub's events API.
#[derive(Debug, Clone, PartialEq, Eq)]
pub struct GitHubEvent {
    pub id: String,
    pub event_type: String,
    pub repo: GitHubRepo,
    pub created_at: String,
    pub payload: EventPayload,
}

/// The answer of `GET /api/github/activity`.
#[derive(Debug, Clone, PartialEq, Eq)]
pub struct ActivityResponse {
    pub username: String,
    pub events: Vec<ActivityEvent>,
}

/// One event as the feed shows it.
#[derive(Debug, Clone, PartialEq, Eq)]
pub struct ActivityEvent {
    pub id: String,
    pub event_type: String,
    pub repo: String,
    pub created_at: String,
    pub description: String,
}

/// The URL of a user's fifteen most recent public events.
pub open spec fn events_url_for(username: Seq<char>) -> Seq<char> {
    "https://api.github.com/users/"@ + username + "/events?per_page=15"@
}

/// The URL of a user's fifteen most recent public events.
pub fn events_url(username: &str) -> (url: String)
    ensures
        url@ == events_url_for(username@),
{
    concat3("https://api.github.com/users/", username, "/events?per_page=15")
}

/// A payload text, or `unknown` when it is missing.
pub open spec fn or_unknown(value: Option<String>) -> Seq<char> {
    match value {
        Some(v) => v@,
        None => "unknown"@,
    }
}

/// The one-line description of an event of the given type.
pub open spec fn event_description(event_type: Seq<char>, payload: EventPayload) -> Seq<char> {
    if event_type == "PushEvent"@ {
        let count: int = match payload.size {
            Some(n) => n as int,
            None => 0,
        };
        "Pushed "@ + decimal_text(count) + " commit(s) to "@ + remove_all(
            or_unknown(payload.git_ref),
            "refs/heads/"@,
        )
    } else if event_type == "CreateEvent"@ {
        "Created "@ + or_unknown(payload.ref_type)
    } else if event_type == "DeleteEvent"@ {
        "Deleted "@ + or_unknown(payload.ref_type)
    } else if event_type == "WatchEvent"@ {
        "Starred repository"@
    } else if event_type == "ForkEvent"@ {
        "Forked repository"@
    } else if event_type == "IssuesEvent"@ {
        "Issue "@ + or_unknown(payload.action)
    } else if event_type == "PullRequestEvent"@ {
        "Pull request "@ + or_unknown(payload.action)
    } else if event_type == "IssueCommentEvent"@ {
        "Commented on an issue"@
    } else {
        remove_all(event_type, "Event"@)
    }
}

fn text_or_unknown(value: &Option<String>) -> (r: String)
    ensures
        r@ == or_unknown(*value),
{
    match value {
        Some(v) => owned(v.as_str()),
        None => owned("unknown"),
    }
}

/// Describes an event in one line.
pub fn describe_event(event_type: &str, payload: &EventPayload) -> (d: String)
    ensures
        d@ == event_description(event_type@, *payload),
{
    if same_text(event_type, "PushEvent") {
        let count: i64 = match payload.size {
            Some(n) => n,
            None => 0,
        };
        let branch_ref = text_or_unknown(&payload.git_ref);
        let branch = remove_all_of(branch_ref.as_str(), "refs/heads/");
        let head = concat3("Pushed ", i64_text(count).as_str(), " commit(s) to ");
        concat2(head.as_str(), branch.as_str())
    } else if same_text(event_type, "CreateEvent") {
        concat2("Created ", text_or_unknown(&payload.ref_type).as_str())
    } else if same_text(event_type, "DeleteEvent") {
        concat2("Deleted ", text_or_unknown(&payload.ref_type).as_str())
    } else if same_text(event_type, "WatchEvent") {
        owned("Starred repository")
    } else if same_text(event_type, "ForkEvent") {
        owned("Forked repository")
    } else if same_text(event_type, "IssuesEvent") {
        concat2("Issue ", text_or_unknown(&payload.action).as_str())
    } else if same_text(event_type, "PullRequestEvent") {
        concat2("Pull request ", text_or_unknown(&payload.action).as_str())
    } else if same_text(event_type, "IssueCommentEvent") {
        owned("Commented on an issue")
    } else {
        remove_all_of(event_type, "Event")
    }
}

/// `shown` is how the feed shows `event`.
pub open spec fn shows_event(shown: ActivityEvent, event: GitHubEvent) -> bool {
    &&& shown.id == event.id
    &&& shown.event_type == event.event_type
    &&& shown.repo == event.repo.name
    &&& shown.created_at == event.created_at
    &&& shown.description@ == event_description(event.event_type@, event.payload)
}

/// The feed of `username` from the events GitHub returned, in order.
pub fn activity_response(username: String, events: Vec<GitHubEvent>) -> (r: ActivityResponse)
    ensures
        r.username == username,
        r.events.len() == events.len(),
        forall|i: int| 0 <= i < events.len() ==> shows_event(#[trigger] r.events@[i], events@[i]),
{
    let ghost all = events@;
    let mut shown: Vec<ActivityEvent> = Vec::new();
    for e in it: events.into_iter()
        invariant
            it.seq() == all,
            shown.len() == it.index(),
            forall|i: int| 0 <= i < it.index() ==> shows_event(#[trigger] shown@[i], all[i]),
    {
        let description = describe_event(e.event_type.as_str(), &e.payload);
        shown.push(
            ActivityEvent {
                id: e.id,
                event_type: e.event_type,
                repo: e.repo.name,
                created_at: e.created_at,
                description,
            },
        );
    }
    ActivityResponse { username, events: shown }
}


/// Each known event type is described from the payload fields it names, and
/// from no other: a delete or create names the kind of ref it touched (not
/// the ref), an issue or pull request names the action, a push names the
/// commit count and the branch without its `refs/heads/` prefix; a missing
/// field reads `unknown` (a missing count, 0).
pub proof fn lemma_event_descriptions(p: EventPayload, q: EventPayload)
    ensures
        event_description("DeleteEvent"@, p) == "Deleted "@ + match p.ref_type {
            Some(t) => t@,
            None => "unknown"@,
        },
        event_description("CreateEvent"@, p) == "Created "@ + match p.ref_type {
            Some(t) => t@,
            None => "unknown"@,
        },
        event_description("IssuesEvent"@, p) == "Issue "@ + match p.action {
            Some(a) => a@,
            None => "unknown"@,
        },
        event_description("PullRequestEvent"@, p) == "Pull request "@ + match p.action {
            Some(a) => a@,
            None => "unknown"@,
        },
        event_description("PushEvent"@, p) == "Pushed "@ + decimal_text(
            match p.size {
                Some(n) => n as int,
                None => 0,
            },
        ) + " commit(s) to "@ + remove_all(
            match p.git_ref {
                Some(r) => r@,
                None => "unknown"@,
            },
            "refs/heads/"@,
        ),
        event_description("WatchEvent"@, p) == "Starred repository"@,
        event_description("ForkEvent"@, p) == "Forked repository"@,
        event_description("IssueCommentEvent"@, p) == "Commented on an issue"@,
        p.ref_type == q.ref_type ==> event_description("DeleteEvent"@, p) == event_description(
            "DeleteEvent"@,
            q,
        ),
        p.ref_type == q.ref_type ==> event_description("CreateEvent"@, p) == event_description(
            "CreateEvent"@,
            q,
        ),
        p.action == q.action ==> event_description("IssuesEvent"@, p) == event_description(
            "IssuesEvent"@,
            q,
        ),
        p.action == q.action ==> event_description("PullRequestEvent"@, p) == event_description(
            "PullRequestEvent"@,
            q,
        ),
{
    reveal_strlit("PushEvent");
    reveal_strlit("CreateEvent");
    reveal_strlit("DeleteEvent");
    reveal_strlit("WatchEvent");
    reveal_strlit("ForkEvent");
    reveal_strlit("IssuesEvent");
    reveal_strlit("PullRequestEvent");
    reveal_strlit("IssueCommentEvent");
    assert("PushEvent"@.len() == 9 && "PushEvent"@[0] == 'P');
    assert("CreateEvent"@.len() == 11 && "CreateEvent"@[0] == 'C');
    assert("DeleteEvent"@.len() == 11 && "DeleteEvent"@[0] == 'D');
    assert("WatchEvent"@.len() == 10 && "WatchEvent"@[0] == 'W');
    assert("ForkEvent"@.len() == 9 && "ForkEvent"@[0] == 'F');
    assert("IssuesEvent"@.len() == 11 && "IssuesEvent"@[0] == 'I');
    assert("PullRequestEvent"@.len() == 16 && "PullRequestEvent"@[0] == 'P');
    assert("IssueCommentEvent"@.len() == 17 && "IssueCommentEvent"@[0] == 'I');
}

} // verus!
