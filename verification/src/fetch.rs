//! What an object does with a request, one action at a time.

use crate::http;
use crate::http::Reply;
use crate::origin;
use crate::origin::OriginLink;
use crate::route;
use crate::route::RouteError;
use crate::text;
use crate::waiting;
use vstd::prelude::*;

verus! {

/// The kinds of requests that an object takes.
#[derive(Debug, Clone, Copy, PartialEq, Eq, Structural)]
pub enum FetchKind {
    Master,
    Viewer,
    Playlist,
}

/// The next thing to be done for a request.
#[derive(Debug, PartialEq, Eq)]
pub enum Action<S> {
    /// Reply. The request is done.
    Reply(Reply),
    /// Fail. The request is done.
    Fail(RouteError),
    /// Hand out the answers and store the stream key; the request goes on after that.
    Store { key: String, answers: Vec<(S, String)> },
    /// Set an alarm in so many milliseconds, and reply with this playlist, the last of an ended
    /// stream. The request is done.
    Clear { alarm_ms: i64, playlist: String },
    /// Open the feed, where there is one to open, set an alarm in so many milliseconds, and let
    /// the request wait.
    Enlist { feed: Result<Option<OriginLink>, RouteError>, alarm_ms: i64 },
    /// Open the feed, where there is one to open, and accept the viewer's WebSocket.
    Upgrade { feed: Result<Option<OriginLink>, RouteError> },
}

/// An action with its texts as sequences.
pub enum ActionView<S> {
    Reply(http::ReplyView),
    Fail(RouteError),
    Store { key: Seq<char>, answers: Seq<(S, Seq<char>)> },
    Clear { alarm_ms: i64, playlist: Seq<char> },
    Enlist { feed: Result<Option<(Seq<char>, route::RouteView)>, RouteError>, alarm_ms: i64 },
    Upgrade { feed: Result<Option<(Seq<char>, route::RouteView)>, RouteError> },
}

impl<S> View for Action<S> {
    type V = ActionView<S>;

    open spec fn view(&self) -> ActionView<S> {
        match *self {
            Action::Reply(reply) => ActionView::Reply(reply@),
            Action::Fail(e) => ActionView::Fail(e),
            Action::Store { key, answers } => ActionView::Store {
                key: key@,
                answers: waiting::answers(answers@),
            },
            Action::Clear { alarm_ms, playlist } => ActionView::Clear {
                alarm_ms,
                playlist: playlist@,
            },
            Action::Enlist { feed, alarm_ms } => ActionView::Enlist {
                feed: origin::feed_view(feed),
                alarm_ms,
            },
            Action::Upgrade { feed } => ActionView::Upgrade { feed: origin::feed_view(feed) },
        }
    }
}

/// The kind of a request, by the headers that mark it.
pub open spec fn fetch_kind(
    playlist_type: Option<Seq<char>>,
    viewer_ws: Option<Seq<char>>,
) -> FetchKind {
    if playlist_type == Some("master"@) {
        FetchKind::Master
    } else if viewer_ws == Some("1"@) {
        FetchKind::Viewer
    } else {
        FetchKind::Playlist
    }
}

/// The kind of a request, by its `X-Playlist-Type` and `X-Viewer-WS` headers.
pub fn classify_fetch(playlist_type: Option<&str>, viewer_ws: Option<&str>) -> (k: FetchKind)
    ensures
        k == fetch_kind(text::opt_str(playlist_type), text::opt_str(viewer_ws)),
{
    if let Some(t) = playlist_type {
        if text::same_text(t, "master") {
            return FetchKind::Master;
        }
    }
    if let Some(v) = viewer_ws {
        if text::same_text(v, "1") {
            return FetchKind::Viewer;
        }
    }
    FetchKind::Playlist
}

/// A request is one for the master playlist if and only if it is marked so, a viewer's if it is
/// marked as one and not as the other, and otherwise one for the playlist.
pub proof fn law_marks_tell_the_kind(playlist_type: Option<Seq<char>>, viewer_ws: Option<Seq<char>>)
    ensures
        fetch_kind(playlist_type, viewer_ws) == FetchKind::Master <==> (playlist_type matches Some(
            t,
        ) && t == "master"@),
        fetch_kind(playlist_type, viewer_ws) == FetchKind::Viewer <==> (viewer_ws matches Some(v)
            && v == "1"@) && !(playlist_type matches Some(t) && t == "master"@),
{
}

/// Actions are taken as they are.
pub proof fn law_actions_are_taken_as_they_are<S>(
    reply: Reply,
    e: RouteError,
    text: String,
    answers: Vec<(S, String)>,
    link: OriginLink,
    ms: i64,
)
    ensures
        Action::<S>::Reply(reply)@ == ActionView::<S>::Reply(reply@),
        Action::<S>::Fail(e)@ == ActionView::<S>::Fail(e),
        (Action::Store { key: text, answers })@ == (ActionView::Store {
            key: text@,
            answers: waiting::answers(answers@),
        }),
        (Action::<S>::Clear { alarm_ms: ms, playlist: text })@ == (ActionView::<S>::Clear {
            alarm_ms: ms,
            playlist: text@,
        }),
        (Action::<S>::Enlist { feed: Ok(Some(link)), alarm_ms: ms })@ == (ActionView::<S>::Enlist {
            feed: Ok(Some((link.url@, link.route@))),
            alarm_ms: ms,
        }),
        (Action::<S>::Enlist { feed: Ok(None), alarm_ms: ms })@ == (ActionView::<S>::Enlist {
            feed: Ok(None),
            alarm_ms: ms,
        }),
        (Action::<S>::Enlist { feed: Err(e), alarm_ms: ms })@ == (ActionView::<S>::Enlist {
            feed: Err(e),
            alarm_ms: ms,
        }),
        (Action::<S>::Upgrade { feed: Ok(Some(link)) })@ == (ActionView::<S>::Upgrade {
            feed: Ok(Some((link.url@, link.route@))),
        }),
        (Action::<S>::Upgrade { feed: Ok(None) })@ == (ActionView::<S>::Upgrade { feed: Ok(None) }),
        (Action::<S>::Upgrade { feed: Err(e) })@ == (ActionView::<S>::Upgrade { feed: Err(e) }),
{
}

} // verus!
