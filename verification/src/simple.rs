//! The object that serves simple playlists.
//!
//! A request waits only until there is a playlist. A viewer's WebSocket is pushed every new one.

use crate::fetch::{Action, ActionView};
use crate::http;
use crate::http::Reply;
use crate::origin;
use crate::origin::{Configured, OriginEvent, OriginLink, Step, StepView};
use crate::protocol;
use crate::protocol::{DoMsg, OriginMsg, ViewerMsg, ViewerView};
use crate::route;
use crate::route::{OriginRoute, RouteChange, RouteError, RouteHeaders};
use crate::text;
use crate::waiting;
use crate::waiting::{Greeting, GreetingView, PlaylistStep, PlaylistStepView};
use vstd::prelude::*;

verus! {

/// The state of the object. `S` answers a waiting request, `W` is a viewer's connection.
#[derive(Debug)]
pub struct SimpleInner<S, W> {
    pub simple_playlist: String,
    pub simple_seq: u64,
    pub stream_key: String,
    pub origin_route: Option<OriginRoute>,
    /// Requests that wait for the first playlist.
    pub http_waiters: Vec<S>,
    /// Connected viewers.
    pub viewer_ws: Vec<W>,
    pub initialized: bool,
    pub origin_connected: bool,
    /// The stream is over, and its state is to be cleared.
    pub should_clear: bool,
}

/// The state with its texts and lists as sequences.
#[verifier::ext_equal]
pub struct SimpleView<S, W> {
    pub simple_playlist: Seq<char>,
    pub simple_seq: u64,
    pub stream_key: Seq<char>,
    pub origin_route: Option<route::RouteView>,
    pub http_waiters: Seq<S>,
    pub viewer_ws: Seq<W>,
    pub initialized: bool,
    pub origin_connected: bool,
    pub should_clear: bool,
}

impl<S, W> View for SimpleInner<S, W> {
    type V = SimpleView<S, W>;

    open spec fn view(&self) -> SimpleView<S, W> {
        SimpleView {
            simple_playlist: self.simple_playlist@,
            simple_seq: self.simple_seq,
            stream_key: self.stream_key@,
            origin_route: route::opt_route(self.origin_route),
            http_waiters: self.http_waiters@,
            viewer_ws: self.viewer_ws@,
            initialized: self.initialized,
            origin_connected: self.origin_connected,
            should_clear: self.should_clear,
        }
    }
}

/// Whether a request is a viewer's WebSocket upgrade, by the header that marks one.
pub open spec fn is_viewer_request(viewer_ws: Option<Seq<char>>) -> bool {
    viewer_ws == Some("1"@)
}

/// A sequence number as the origin is told of it: modulo 2^32, in the place of a part.
pub open spec fn reported_part(seq: u64) -> u32 {
    (seq as nat % 0x1_0000_0000) as u32
}

impl<S, W> SimpleView<S, W> {
    /// The state of a new object.
    pub open spec fn fresh() -> Self {
        SimpleView {
            simple_playlist: Seq::empty(),
            simple_seq: 0,
            stream_key: Seq::empty(),
            origin_route: None,
            http_waiters: Seq::empty(),
            viewer_ws: Seq::empty(),
            initialized: false,
            origin_connected: false,
            should_clear: false,
        }
    }

    /// The state with what was stored.
    pub open spec fn restored(self, playlist: Option<Seq<char>>, seq: Option<u64>) -> Self {
        SimpleView {
            simple_playlist: match playlist {
                Some(v) => v,
                None => Seq::empty(),
            },
            simple_seq: match seq {
                Some(v) => v,
                None => 0,
            },
            initialized: true,
            ..self
        }
    }

    /// The state after an ended stream was cleared.
    pub open spec fn cleared(self) -> Self {
        SimpleView { simple_playlist: Seq::empty(), should_clear: false, ..self }
    }

    /// The state after all waiting requests were answered.
    pub open spec fn drained(self) -> Self {
        SimpleView { http_waiters: Seq::empty(), ..self }
    }

    /// The number of viewers that is reported.
    pub open spec fn head_count(self) -> u32 {
        waiting::head_count(self.http_waiters.len(), self.viewer_ws.len())
    }

    /// The state after a request with this stream and route.
    pub open spec fn configured(
        self,
        change: RouteChange,
        stream_key: Seq<char>,
        route: route::RouteView,
    ) -> Self {
        match change {
            RouteChange::Same => self,
            RouteChange::First => SimpleView { stream_key, origin_route: Some(route), ..self },
            RouteChange::Newer => SimpleView {
                simple_playlist: Seq::empty(),
                simple_seq: 0,
                http_waiters: Seq::empty(),
                origin_connected: false,
                should_clear: false,
                stream_key,
                origin_route: Some(route),
                ..self
            },
        }
    }

    /// The requests that are sent away by a request with this route.
    pub open spec fn sent_away(self, change: RouteChange) -> Seq<(S, Seq<char>)> {
        match change {
            RouteChange::Newer => waiting::answered(self.http_waiters, Seq::empty()),
            _ => Seq::empty(),
        }
    }

    /// The reply with a playlist, or that there is none.
    pub open spec fn reply_with(self, playlist: Seq<char>) -> http::ReplyView {
        if playlist.len() == 0 {
            http::cors_error_view("Stream not started yet"@, 404)
        } else {
            http::simple_playlist_view(playlist, self.head_count() as nat)
        }
    }

    /// The feed that is opened when a request needs one.
    pub open spec fn feed(self, secret: Option<Seq<char>>) -> Result<
        Option<(Seq<char>, route::RouteView)>,
        RouteError,
    > {
        origin::feed_to_open(self.origin_connected, self.origin_route, self.stream_key, secret)
    }

    /// The state after that.
    pub open spec fn connected(self, secret: Option<Seq<char>>) -> Self {
        SimpleView { origin_connected: self.feed(secret) is Ok, ..self }
    }

    /// What is done with a playlist request.
    pub open spec fn playlist_step(self) -> PlaylistStepView {
        if self.should_clear {
            PlaylistStepView::Clear(self.simple_playlist)
        } else if self.simple_playlist.len() > 0 {
            PlaylistStepView::Now(self.reply_with(self.simple_playlist))
        } else {
            PlaylistStepView::Wait
        }
    }

    /// The reply to a request that has waited. `outcome` is what it was answered, if it was.
    pub open spec fn settled_playlist(self, outcome: Option<Seq<char>>) -> http::ReplyView {
        match outcome {
            Some(playlist) => http::simple_playlist_view(playlist, self.head_count() as nat),
            None => self.reply_with(self.simple_playlist),
        }
    }

    /// What is done for a request when its stream and route are taken.
    pub open spec fn routed(self, is_viewer: bool, secret: Option<Seq<char>>) -> (
        Self,
        ActionView<S>,
    ) {
        if is_viewer {
            (self.connected(secret), ActionView::Upgrade { feed: self.feed(secret) })
        } else {
            match self.playlist_step() {
                PlaylistStepView::Clear(playlist) => (
                    self,
                    ActionView::Clear { alarm_ms: waiting::CLEAR_DELAY_MS, playlist },
                ),
                PlaylistStepView::Now(reply) => (self, ActionView::Reply(reply)),
                PlaylistStepView::Wait => (
                    self.connected(secret),
                    ActionView::Enlist {
                        feed: self.feed(secret),
                        alarm_ms: waiting::VIEWER_TIMEOUT_MS,
                    },
                ),
            }
        }
    }

    /// What is done for a request when it comes in. A stream or a route that is new is stored
    /// first; otherwise the request goes on at once.
    pub open spec fn fetched(
        self,
        is_viewer: bool,
        stream_key: Option<Seq<char>>,
        route: Result<route::RouteView, RouteError>,
        secret: Option<Seq<char>>,
    ) -> (Self, ActionView<S>) {
        if !is_viewer && waiting::is_full(self.http_waiters.len()) {
            (self, ActionView::Reply(http::shard_full_view()))
        } else {
            match route::route_change(self.origin_route, self.stream_key, stream_key, route) {
                Err(e) => (self, ActionView::Fail(e)),
                Ok(RouteChange::Same) => self.routed(is_viewer, secret),
                Ok(change) => (
                    self.configured(change, stream_key->0, route->Ok_0),
                    ActionView::Store { key: stream_key->0, answers: self.sent_away(change) },
                ),
            }
        }
    }

    /// The message about the current playlist.
    pub open spec fn current_message(self) -> Seq<char> {
        protocol::viewer_json(
            ViewerView::Simple { seq: self.simple_seq, playlist: self.simple_playlist },
        )
    }

    /// What a new viewer is sent.
    pub open spec fn greeting(self) -> GreetingView {
        if self.should_clear {
            GreetingView::Goodbye(protocol::viewer_json(ViewerView::End))
        } else if self.simple_playlist.len() > 0 {
            GreetingView::Welcome(Some(self.current_message()))
        } else {
            GreetingView::Welcome(None)
        }
    }

    /// A playlist that is not older than the current one: all waiting requests get it, all
    /// viewers are told, and the origin learns how many there were. An older one is ignored.
    pub open spec fn after_playlist(self, seq: u64, playlist: Seq<char>) -> (
        Self,
        StepView<S, W>,
    ) {
        if seq < self.simple_seq {
            (self, StepView::Ignored)
        } else {
            (
                SimpleView {
                    simple_seq: seq,
                    simple_playlist: playlist,
                    http_waiters: Seq::empty(),
                    ..self
                },
                StepView::Updated {
                    answers: waiting::answered(self.http_waiters, playlist),
                    push: protocol::viewer_json(ViewerView::Simple { seq, playlist }),
                    report: protocol::report_json(
                        DoMsg::Viewers {
                            count: self.head_count(),
                            msn: 0,
                            part: reported_part(seq),
                        },
                    ),
                },
            )
        }
    }

    /// The end of the stream: all waiting requests get the last playlist, and the viewers are
    /// disconnected.
    pub open spec fn after_end(self) -> (Self, StepView<S, W>) {
        (
            SimpleView {
                http_waiters: Seq::empty(),
                viewer_ws: Seq::empty(),
                should_clear: true,
                origin_connected: false,
                ..self
            },
            StepView::Ended {
                answers: waiting::answered(self.http_waiters, self.simple_playlist),
                farewell: protocol::viewer_json(ViewerView::End),
                viewers: self.viewer_ws,
            },
        )
    }

    /// The state and the step after an event on the feed that belongs to the route `link`.
    /// When the feed is over the object counts as not connected.
    pub open spec fn after_event(self, link: route::RouteView, event: OriginEvent) -> (
        Self,
        StepView<S, W>,
    ) {
        match event {
            OriginEvent::Lost => (SimpleView { origin_connected: false, ..self }, StepView::Lost),
            OriginEvent::Unreadable => (self, StepView::Ignored),
            OriginEvent::Message(OriginMsg::Part { msn, part, playlist }) => (
                self,
                StepView::Ignored,
            ),
            OriginEvent::Message(OriginMsg::Master { playlist }) => (self, StepView::Ignored),
            OriginEvent::Message(msg) => if self.origin_route != Some(link) {
                (SimpleView { origin_connected: false, ..self }, StepView::Detached)
            } else {
                match msg {
                    OriginMsg::Simple { seq, playlist } => self.after_playlist(seq, playlist@),
                    OriginMsg::End => self.after_end(),
                    _ => (self, StepView::Ignored),
                }
            },
        }
    }
}

/// Whether a request is a viewer's WebSocket upgrade, by its `X-Viewer-WS` header.
pub fn is_viewer_fetch(viewer_ws: Option<&str>) -> (b: bool)
    ensures
        b == is_viewer_request(text::opt_str(viewer_ws)),
{
    match viewer_ws {
        Some(v) => text::same_text(v, "1"),
        None => false,
    }
}

impl<S, W> Default for SimpleInner<S, W> {
    fn default() -> (r: Self)
        ensures
            r@ == SimpleView::<S, W>::fresh(),
    {
        SimpleInner {
            simple_playlist: String::new(),
            simple_seq: 0,
            stream_key: String::new(),
            origin_route: None,
            http_waiters: Vec::new(),
            viewer_ws: Vec::new(),
            initialized: false,
            origin_connected: false,
            should_clear: false,
        }
    }
}

impl<S, W> SimpleInner<S, W> {
    /// The number of viewers: requests that wait, and WebSocket viewers.
    pub fn total_viewers(&self) -> (n: u32)
        ensures
            n == self@.head_count(),
    {
        waiting::count_heads(self.http_waiters.len(), self.viewer_ws.len())
    }

    /// Whether the stored state is still to be read.
    pub fn needs_restore(&self) -> (b: bool)
        ensures
            b == !self.initialized,
    {
        !self.initialized
    }

    /// Takes over what was stored; what is missing there is empty or zero.
    pub fn restore(&mut self, playlist: Option<String>, seq: Option<u64>)
        ensures
            final(self)@ == old(self)@.restored(text::opt_text(playlist), seq),
    {
        self.simple_playlist = match playlist {
            Some(playlist) => playlist,
            None => String::new(),
        };
        self.simple_seq = seq.unwrap_or(0);
        self.initialized = true;
    }

    /// Takes the stream and the route of a request, or refuses them and leaves everything as it
    /// is. A newer route starts over: what waited for the old one is answered with nothing.
    pub fn configure_origin_route(&mut self, stream_key: Option<String>, headers: RouteHeaders) -> (r:
        Result<Configured<S>, RouteError>)
        ensures
            ({
                let change = route::route_change(
                    old(self)@.origin_route,
                    old(self)@.stream_key,
                    text::opt_text(stream_key),
                    route::route_from_headers(headers),
                );
                match r {
                    Ok(c) => {
                        &&& change matches Ok(ch)
                        &&& final(self)@ == old(self)@.configured(
                            ch,
                            stream_key->0@,
                            route::route_from_headers(headers)->Ok_0,
                        )
                        &&& waiting::answers(c.answers@) == old(self)@.sent_away(ch)
                        &&& text::opt_text(c.store_key) == (if ch == RouteChange::Same {
                            None
                        } else {
                            Some(stream_key->0@)
                        })
                    },
                    Err(e) => change == Err::<RouteChange, RouteError>(e) && final(self)@ == old(
                        self,
                    )@,
                }
            }),
    {
        let route = route::origin_route_from_headers(headers);
        let change = match route::compare_route(
            &self.origin_route,
            &self.stream_key,
            &stream_key,
            &route,
        ) {
            Ok(change) => change,
            Err(e) => {
                return Err(e);
            },
        };
        let mut answers: Vec<(S, String)> = Vec::new();
        assert(waiting::answers(answers@) =~= Seq::empty());
        if let RouteChange::Same = change {
            return Ok(Configured { store_key: None, answers });
        }
        if let RouteChange::Newer = change {
            self.simple_playlist = String::new();
            self.simple_seq = 0;
            let nothing = String::new();
            answers = waiting::answer_all(&mut self.http_waiters, nothing.as_str());
            self.origin_connected = false;
            self.should_clear = false;
        }
        let key = stream_key.unwrap();
        self.stream_key = key.clone();
        self.origin_route = match route {
            Ok(route) => Some(route),
            Err(_) => None,
        };
        Ok(Configured { store_key: Some(key), answers })
    }

    /// The refusal of a playlist request where too many wait already.
    pub fn refuse_playlist(&self) -> (r: Option<Reply>)
        ensures
            http::opt_reply(r) == (if waiting::is_full(self@.http_waiters.len()) {
                Some(http::shard_full_view())
            } else {
                None
            }),
    {
        if waiting::at_capacity(self.http_waiters.len()) {
            Some(http::shard_full())
        } else {
            None
        }
    }

    fn reply_now(&self) -> (reply: Reply)
        ensures
            reply@ == self@.reply_with(self@.simple_playlist),
    {
        self.settle_cleared(self.simple_playlist.as_str())
    }

    /// The reply to a request that came for an ended stream, when the alarm is set. `playlist` is
    /// the last that the stream had.
    pub fn settle_cleared(&self, playlist: &str) -> (reply: Reply)
        ensures
            reply@ == self@.reply_with(playlist@),
    {
        if playlist.is_empty() {
            http::cors_error("Stream not started yet", 404)
        } else {
            http::simple_playlist_response(playlist, self.total_viewers())
        }
    }

    /// What is done with a playlist request.
    pub fn answer_playlist(&self) -> (step: PlaylistStep)
        ensures
            step@ == self@.playlist_step(),
    {
        if self.should_clear {
            PlaylistStep::Clear(self.simple_playlist.clone())
        } else if !self.simple_playlist.as_str().is_empty() {
            PlaylistStep::Now(self.reply_now())
        } else {
            PlaylistStep::Wait
        }
    }

    /// Takes a request and says what is to be done for it first.
    pub fn fetch(
        &mut self,
        is_viewer: bool,
        stream_key: Option<String>,
        headers: RouteHeaders,
        secret: Option<&str>,
    ) -> (action: Action<S>)
        ensures
            (final(self)@, action@) == old(self)@.fetched(
                is_viewer,
                text::opt_text(stream_key),
                route::route_from_headers(headers),
                text::opt_str(secret),
            ),
    {
        if !is_viewer {
            if let Some(reply) = self.refuse_playlist() {
                return Action::Reply(reply);
            }
        }
        match self.configure_origin_route(stream_key, headers) {
            Err(e) => Action::Fail(e),
            Ok(configured) => match configured.store_key {
                Some(key) => Action::Store { key, answers: configured.answers },
                None => self.fetch_routed(is_viewer, secret),
            },
        }
    }

    /// Says what is to be done for a request after its stream key was stored.
    pub fn fetch_routed(&mut self, is_viewer: bool, secret: Option<&str>) -> (action: Action<S>)
        ensures
            (final(self)@, action@) == old(self)@.routed(is_viewer, text::opt_str(secret)),
    {
        if is_viewer {
            return Action::Upgrade { feed: self.connect_origin(secret) };
        }
        match self.answer_playlist() {
            PlaylistStep::Clear(playlist) => Action::Clear {
                alarm_ms: waiting::CLEAR_DELAY_MS,
                playlist,
            },
            PlaylistStep::Now(reply) => Action::Reply(reply),
            PlaylistStep::Wait => Action::Enlist {
                feed: self.connect_origin(secret),
                alarm_ms: waiting::VIEWER_TIMEOUT_MS,
            },
        }
    }

    /// Lets a request wait for the first playlist.
    pub fn wait_for_playlist(&mut self, tx: S)
        ensures
            final(self)@ == (SimpleView {
                http_waiters: old(self)@.http_waiters.push(tx),
                ..old(self)@
            }),
    {
        self.http_waiters.push(tx);
    }

    /// The reply to a request that has waited. A request that was dropped gets what there is.
    pub fn settle_playlist(&self, outcome: Option<String>) -> (reply: Reply)
        ensures
            reply@ == self@.settled_playlist(text::opt_text(outcome)),
    {
        match outcome {
            Some(playlist) => http::simple_playlist_response(
                playlist.as_str(),
                self.total_viewers(),
            ),
            None => self.reply_now(),
        }
    }

    /// What a new viewer is sent: the current playlist at once, or that the stream is over.
    pub fn greet_viewer(&self) -> (g: Greeting)
        ensures
            g@ == self@.greeting(),
    {
        if self.should_clear {
            return Greeting::Goodbye(protocol::encode_viewer_msg(&ViewerMsg::End));
        }
        if self.simple_playlist.as_str().is_empty() {
            return Greeting::Welcome(None);
        }
        let msg = ViewerMsg::Simple {
            seq: self.simple_seq,
            playlist: self.simple_playlist.as_str(),
        };
        Greeting::Welcome(Some(protocol::encode_viewer_msg(&msg)))
    }

    /// Connects a viewer for what is pushed from now on.
    pub fn add_viewer(&mut self, ws: W)
        ensures
            final(self)@ == (SimpleView {
                viewer_ws: old(self)@.viewer_ws.push(ws),
                ..old(self)@
            }),
    {
        self.viewer_ws.push(ws);
    }

    /// Keeps the viewers to which a pushed message could be delivered. `delivered` has one
    /// entry for each viewer.
    pub fn fan_out_ws(&mut self, delivered: &Vec<bool>)
        requires
            old(self).viewer_ws@.len() == delivered@.len(),
        ensures
            final(self)@ == (SimpleView {
                viewer_ws: waiting::kept(old(self)@.viewer_ws, delivered@),
                ..old(self)@
            }),
    {
        waiting::keep_delivered(&mut self.viewer_ws, delivered);
    }

    /// Disconnects all viewers: the message that each is sent, and the viewers.
    pub fn close_all_viewer_ws(&mut self) -> (r: (String, Vec<W>))
        ensures
            r.0@ == protocol::viewer_json(ViewerView::End),
            r.1@ == old(self)@.viewer_ws,
            final(self)@ == (SimpleView { viewer_ws: Seq::empty(), ..old(self)@ }),
    {
        let farewell = protocol::encode_viewer_msg(&ViewerMsg::End);
        (farewell, waiting::take_all(&mut self.viewer_ws))
    }

    /// The feed to be opened for the current route, if none is open. From then on the object
    /// counts as connected.
    pub fn connect_origin(&mut self, secret: Option<&str>) -> (r: Result<
        Option<OriginLink>,
        RouteError,
    >)
        ensures
            origin::feed_view(r) == old(self)@.feed(text::opt_str(secret)),
            final(self)@ == old(self)@.connected(text::opt_str(secret)),
    {
        if self.origin_connected {
            return Ok(None);
        }
        let route = match &self.origin_route {
            Some(route) => route.clone(),
            None => {
                return Err(RouteError::RouteNotSet);
            },
        };
        match route::build_ws_url(self.stream_key.as_str(), &route, secret) {
            Ok(url) => {
                self.origin_connected = true;
                Ok(Some(OriginLink { url, route }))
            },
            Err(e) => Err(e),
        }
    }

    fn follows(&self, link: &OriginRoute) -> (b: bool)
        ensures
            b == (self@.origin_route == Some(link@)),
    {
        match &self.origin_route {
            Some(route) => route::same_route(route, link),
            None => false,
        }
    }

    /// Takes an event on the feed that belongs to the route `link`, and says what is to be
    /// done about it.
    pub fn on_origin_event(&mut self, link: &OriginRoute, event: OriginEvent) -> (step: Step<S, W>)
        ensures
            (final(self)@, step@) == old(self)@.after_event(link@, event),
    {
        let msg = match event {
            OriginEvent::Message(msg) => msg,
            OriginEvent::Unreadable => {
                return Step::Ignored;
            },
            OriginEvent::Lost => {
                self.origin_connected = false;
                return Step::Lost;
            },
        };
        match msg {
            OriginMsg::Part { .. } => Step::Ignored,
            OriginMsg::Master { .. } => Step::Ignored,
            OriginMsg::Simple { seq, playlist } => {
                if !self.follows(link) {
                    self.origin_connected = false;
                    return Step::Detached;
                }
                if seq < self.simple_seq {
                    return Step::Ignored;
                }
                self.simple_seq = seq;
                self.simple_playlist = playlist.clone();
                let count = self.total_viewers();
                let answers = waiting::answer_all(&mut self.http_waiters, playlist.as_str());
                let push = protocol::encode_viewer_msg(
                    &ViewerMsg::Simple { seq, playlist: playlist.as_str() },
                );
                let part = (seq % 0x1_0000_0000) as u32;
                let report = protocol::encode_do_msg(&DoMsg::Viewers { count, msn: 0, part });
                Step::Updated { answers, push, report }
            },
            OriginMsg::End => {
                if !self.follows(link) {
                    self.origin_connected = false;
                    return Step::Detached;
                }
                let playlist = self.simple_playlist.clone();
                let answers = waiting::answer_all(&mut self.http_waiters, playlist.as_str());
                let (farewell, viewers) = self.close_all_viewer_ws();
                self.should_clear = true;
                self.origin_connected = false;
                Step::Ended { answers, farewell, viewers }
            },
        }
    }

    /// Whether an alarm is to clear the state of an ended stream, after its storage was
    /// deleted. Otherwise it is to answer the requests that have waited too long.
    pub fn alarm_clears(&self) -> (b: bool)
        ensures
            b == self.should_clear,
    {
        self.should_clear
    }

    /// Clears the playlist of an ended stream.
    pub fn clear_ended(&mut self)
        ensures
            final(self)@ == old(self)@.cleared(),
    {
        self.simple_playlist = String::new();
        self.should_clear = false;
    }

    /// Answers all waiting requests with what there is.
    pub fn drain_on_timeout(&mut self) -> (r: Vec<(S, String)>)
        ensures
            waiting::answers(r@) == waiting::answered(
                old(self)@.http_waiters,
                old(self)@.simple_playlist,
            ),
            final(self)@ == old(self)@.drained(),
    {
        waiting::answer_all(&mut self.http_waiters, self.simple_playlist.as_str())
    }
}

/// Whatever the feed brings, each waiting request is either answered once or goes on waiting.
pub proof fn law_feed_loses_no_request<S, W>(
    st: SimpleView<S, W>,
    link: route::RouteView,
    event: OriginEvent,
)
    ensures
        ({
            let (after, step) = st.after_event(link, event);
            waiting::none_lost(st.http_waiters, step.all_answers(), after.http_waiters)
        }),
{
    let (after, step) = st.after_event(link, event);
    match step {
        StepView::Updated { answers, push, report } => {
            waiting::law_each_waiter_is_answered_once(st.http_waiters, after.simple_playlist);
            waiting::lemma_all_answered(st.http_waiters, answers);
        },
        StepView::Ended { answers, farewell, viewers } => {
            waiting::law_each_waiter_is_answered_once(st.http_waiters, st.simple_playlist);
            waiting::lemma_all_answered(st.http_waiters, answers);
        },
        _ => {
            waiting::lemma_none_answered(st.http_waiters);
        },
    }
}

/// A request with another route loses no waiting request either, nor does a timeout, after
/// which nobody waits. The clearing of an ended stream lets everybody wait on.
pub proof fn law_objects_lose_no_request<S, W>(
    st: SimpleView<S, W>,
    change: RouteChange,
    stream_key: Seq<char>,
    route: route::RouteView,
)
    ensures
        waiting::none_lost(
            st.http_waiters,
            st.sent_away(change),
            st.configured(change, stream_key, route).http_waiters,
        ),
        waiting::none_lost(
            st.http_waiters,
            waiting::answered(st.http_waiters, st.simple_playlist),
            st.drained().http_waiters,
        ),
        st.drained().http_waiters == Seq::<S>::empty(),
        st.cleared().http_waiters == st.http_waiters,
{
    waiting::law_each_waiter_is_answered_once(st.http_waiters, st.simple_playlist);
    waiting::lemma_all_answered(
        st.http_waiters,
        waiting::answered(st.http_waiters, st.simple_playlist),
    );
    waiting::law_each_waiter_is_answered_once(st.http_waiters, Seq::empty());
    waiting::lemma_all_answered(
        st.http_waiters,
        waiting::answered(st.http_waiters, Seq::empty()),
    );
    waiting::lemma_none_answered(st.http_waiters);
}

/// The sequence number never goes down while the route stays, and a playlist that is older than
/// the current one changes nothing at all.
pub proof fn law_playlists_never_go_back<S, W>(
    st: SimpleView<S, W>,
    link: route::RouteView,
    event: OriginEvent,
    seq: u64,
    playlist: Seq<char>,
)
    ensures
        st.after_event(link, event).0.simple_seq >= st.simple_seq,
        seq < st.simple_seq ==> st.after_playlist(seq, playlist) == (
            st,
            StepView::<S, W>::Ignored,
        ),
{
}

/// While a stream runs, a playlist that was pushed is served: every request is answered at once
/// with it, and a viewer that joins is sent the very message that the connected viewers were
/// pushed.
pub proof fn law_pushed_playlist_is_served<S, W>(
    st: SimpleView<S, W>,
    seq: u64,
    playlist: Seq<char>,
)
    requires
        !st.should_clear,
        playlist.len() > 0,
        seq >= st.simple_seq,
    ensures
        ({
            let (after, step) = st.after_playlist(seq, playlist);
            &&& after.playlist_step() == PlaylistStepView::Now(
                http::simple_playlist_view(playlist, after.head_count() as nat),
            )
            &&& after.playlist_step() matches PlaylistStepView::Now(reply) && reply.status == 200
                && reply.body == playlist
            &&& after.http_waiters == Seq::<S>::empty()
            &&& step is Updated
            &&& after.greeting() == GreetingView::Welcome(Some(step->push))
        }),
{
}

/// When a stream is over nobody waits and no viewer is connected. From then on every request is
/// answered at once, with the last playlist if there was one, and a viewer is told that it is
/// over, until the state is cleared.
pub proof fn law_ended_stream_keeps_nobody_waiting<S, W>(st: SimpleView<S, W>)
    ensures
        ({
            let (after, step) = st.after_end();
            &&& after.http_waiters == Seq::<S>::empty()
            &&& after.viewer_ws == Seq::<W>::empty()
            &&& after.playlist_step() == PlaylistStepView::Clear(st.simple_playlist)
            &&& after.reply_with(st.simple_playlist) == (if st.simple_playlist.len() == 0 {
                http::cors_error_view("Stream not started yet"@, 404)
            } else {
                http::simple_playlist_view(st.simple_playlist, 0)
            })
            &&& after.greeting() == GreetingView::Goodbye(protocol::viewer_json(ViewerView::End))
            &&& !after.cleared().should_clear
            &&& after.cleared().simple_playlist == Seq::<char>::empty()
        }),
{
}

/// When an ended stream was cleared it can be played again: a request waits, and the feed of
/// the known route is opened once more.
pub proof fn law_cleared_stream_can_be_played_again<S, W>(
    st: SimpleView<S, W>,
    route: route::RouteView,
    secret: Option<Seq<char>>,
)
    requires
        st.origin_route == Some(route),
        st.stream_key.len() > 0,
    ensures
        ({
            let cleared = st.after_end().0.cleared();
            let (after, action) = cleared.fetched(false, Some(st.stream_key), Ok(route), secret);
            &&& action == (ActionView::<S>::Enlist {
                feed: Ok(
                    Some((route::feed_url(st.stream_key, route.origin_base_url, secret), route)),
                ),
                alarm_ms: waiting::VIEWER_TIMEOUT_MS,
            })
            &&& after.origin_connected
        }),
{
}

/// A feed that belongs to another route than the current one changes neither playlist nor
/// waiting requests nor viewers, and answers nobody. Any message of it that the object would
/// have used makes it close the feed.
pub proof fn law_other_feeds_change_nothing<S, W>(
    st: SimpleView<S, W>,
    link: route::RouteView,
    event: OriginEvent,
)
    requires
        st.origin_route != Some(link),
    ensures
        ({
            let (after, step) = st.after_event(link, event);
            &&& after == (SimpleView { origin_connected: after.origin_connected, ..st })
            &&& step.all_answers() == Seq::<(S, Seq<char>)>::empty()
            &&& step is Ignored || step.stops()
            &&& (event matches OriginEvent::Message(m) && (m is Simple || m is End)) ==> step
                is Detached
        }),
{
}

/// After a newer route, the feed of the old one has no say any more.
pub proof fn law_newer_route_cuts_off_the_old_feed<S, W>(
    st: SimpleView<S, W>,
    known: route::RouteView,
    stream_key: Option<Seq<char>>,
    new: route::RouteView,
    msg: OriginMsg,
)
    requires
        st.origin_route == Some(known),
        route::route_change(Some(known), st.stream_key, stream_key, Ok(new)) == Ok::<
            RouteChange,
            RouteError,
        >(RouteChange::Newer),
        msg is Simple || msg is End,
    ensures
        st.configured(RouteChange::Newer, stream_key->0, new).after_event(
            known,
            OriginEvent::Message(msg),
        ).1 is Detached,
{
}

/// The feed disconnects no viewer before the stream ends, and never lets another request wait.
/// Where fewer requests wait than may, one more does not exceed the limit.
pub proof fn law_feed_keeps_viewers_and_capacity<S, W>(
    st: SimpleView<S, W>,
    link: route::RouteView,
    event: OriginEvent,
)
    ensures
        ({
            let (after, step) = st.after_event(link, event);
            &&& step is Ended || after.viewer_ws == st.viewer_ws
            &&& after.http_waiters.len() <= st.http_waiters.len()
        }),
        st.http_waiters.len() <= waiting::MAX_WAITERS_PER_SHARD && !waiting::is_full(
            st.http_waiters.len(),
        ) ==> st.http_waiters.len() + 1 <= waiting::MAX_WAITERS_PER_SHARD,
{
}

/// A request that is done at once, refused or answered, leaves the object as it was. A request
/// is made to wait only while the running stream has no playlist: it waits with an alarm set,
/// and with the feed open, unless no feed can be opened. The same holds of a request that goes on
/// after its stream key was stored: it waits if and only if the running stream has no playlist.
pub proof fn law_requests_wait_only_for_the_future<S, W>(
    st: SimpleView<S, W>,
    is_viewer: bool,
    stream_key: Option<Seq<char>>,
    route: Result<route::RouteView, RouteError>,
    secret: Option<Seq<char>>,
)
    ensures
        ({
            let (after, action) = st.fetched(is_viewer, stream_key, route, secret);
            &&& action is Reply || action is Fail || action is Clear ==> after == st
            &&& action matches ActionView::Enlist { feed, alarm_ms } ==> {
                &&& alarm_ms == waiting::VIEWER_TIMEOUT_MS
                &&& after.origin_connected <==> feed is Ok
                &&& !is_viewer && !st.should_clear && st.simple_playlist.len() == 0
            }
        }),
        ({
            let (after, action) = st.routed(is_viewer, secret);
            &&& action is Reply || action is Clear ==> after == st
            &&& action matches ActionView::Enlist { feed, alarm_ms } ==> {
                &&& alarm_ms == waiting::VIEWER_TIMEOUT_MS
                &&& after.origin_connected <==> feed is Ok
            }
            &&& is_viewer ==> action is Upgrade
            &&& !is_viewer ==> {
                &&& action is Clear <==> st.should_clear
                &&& action is Enlist <==> !st.should_clear && st.simple_playlist.len() == 0
                &&& action is Reply || action is Clear || action is Enlist
            }
        }),
{
}

/// A request for the known stream and route is answered by what the object holds. A full object
/// turns it away; an ended stream gives its last playlist; a playlist that is there is handed out
/// whole, with the number of viewers; and in any other case the request waits for five seconds at
/// most, with the feed of that stream open. Nothing but the feed is touched.
pub proof fn law_simple_requests_get_what_they_ask_for<S, W>(
    st: SimpleView<S, W>,
    route: route::RouteView,
    secret: Option<Seq<char>>,
)
    requires
        st.origin_route == Some(route),
        st.stream_key.len() > 0,
    ensures
        ({
            let (after, action) = st.fetched(false, Some(st.stream_key), Ok(route), secret);
            if st.http_waiters.len() >= 500 {
                &&& after == st
                &&& action matches ActionView::Reply(r)
                &&& r.status == 503
                &&& r.body == "Shard full"@
            } else if st.should_clear {
                &&& after == st
                &&& action matches ActionView::Clear { alarm_ms, playlist }
                &&& alarm_ms == 1
                &&& playlist == st.simple_playlist
            } else if st.simple_playlist.len() > 0 {
                &&& after == st
                &&& action matches ActionView::Reply(r)
                &&& r.status == 200
                &&& r.body == st.simple_playlist
                &&& r == http::simple_playlist_view(
                    st.simple_playlist,
                    (st.http_waiters.len() + st.viewer_ws.len()) % 0x1_0000_0000,
                )
            } else {
                &&& after == (SimpleView { origin_connected: true, ..st })
                &&& action matches ActionView::Enlist { feed, alarm_ms }
                &&& alarm_ms == 5000
                &&& feed == Ok::<_, RouteError>(
                    if st.origin_connected {
                        None
                    } else {
                        Some((route::feed_url(st.stream_key, route.origin_base_url, secret), route))
                    },
                )
            }
        }),
{
}

/// A request that has waited gets the text that it was answered with, whole and whatever state the
/// object is in by then, with the number of viewers. One that was not answered, and one for an
/// ended stream, gets the playlist that there is, or learns that there is none.
pub proof fn law_waiting_requests_get_their_answer<S, W>(st: SimpleView<S, W>, answer: Seq<char>)
    ensures
        ({
            let viewers = (st.http_waiters.len() + st.viewer_ws.len()) % 0x1_0000_0000;
            &&& st.settled_playlist(Some(answer)).status == 200
            &&& st.settled_playlist(Some(answer)).body == answer
            &&& st.settled_playlist(Some(answer)) == http::simple_playlist_view(answer, viewers)
            &&& st.settled_playlist(None) == st.reply_with(st.simple_playlist)
            &&& answer.len() > 0 ==> st.reply_with(answer).status == 200 && st.reply_with(
                answer,
            ).body == answer && st.reply_with(answer) == http::simple_playlist_view(answer, viewers)
            &&& answer.len() == 0 ==> st.reply_with(answer).status == 404 && st.reply_with(
                answer,
            ).body == "Stream not started yet"@
        }),
{
}

/// A viewer of the known stream and route is always accepted, with the feed open, however many
/// requests wait. It is sent the current playlist at once if there is one, and the end if the
/// stream is over.
pub proof fn law_viewers_are_always_accepted<S, W>(
    st: SimpleView<S, W>,
    route: route::RouteView,
    secret: Option<Seq<char>>,
    mark: Option<Seq<char>>,
)
    requires
        st.origin_route == Some(route),
        st.stream_key.len() > 0,
    ensures
        ({
            let (after, action) = st.fetched(true, Some(st.stream_key), Ok(route), secret);
            &&& after == (SimpleView { origin_connected: true, ..st })
            &&& action matches ActionView::Upgrade { feed }
            &&& feed == Ok::<_, RouteError>(
                if st.origin_connected {
                    None
                } else {
                    Some((route::feed_url(st.stream_key, route.origin_base_url, secret), route))
                },
            )
        }),
        st.should_clear ==> st.greeting() == GreetingView::Goodbye(
            protocol::viewer_json(ViewerView::End),
        ),
        !st.should_clear && st.simple_playlist.len() == 0 ==> st.greeting()
            == GreetingView::Welcome(None),
        !st.should_clear && st.simple_playlist.len() > 0 ==> st.greeting()
            == GreetingView::Welcome(
            Some(
                protocol::viewer_json(
                    ViewerView::Simple { seq: st.simple_seq, playlist: st.simple_playlist },
                ),
            ),
        ),
        is_viewer_request(mark) <==> (mark matches Some(m) && m == "1"@),
{
}

/// A request with a newer route starts the object over, wherever the stream has moved: the
/// playlist is gone, everybody who waited is answered with nothing, in order, the viewers stay,
/// and the stream and the route are those of the request. A first route is taken the same way with
/// nothing to start over. A request whose route is refused fails with the reason, and changes
/// nothing.
pub proof fn law_newer_routes_start_over<S, W>(
    st: SimpleView<S, W>,
    known: route::RouteView,
    is_viewer: bool,
    key: Seq<char>,
    new: route::RouteView,
    secret: Option<Seq<char>>,
)
    requires
        key.len() > 0,
        !is_viewer ==> st.http_waiters.len() < 500,
    ensures
        ({
            let (after, action) = st.fetched(is_viewer, Some(key), Ok(new), secret);
            &&& st.origin_route is None ==> {
                &&& after == (SimpleView { stream_key: key, origin_route: Some(new), ..st })
                &&& action matches ActionView::Store { key: stored, answers }
                &&& stored == key
                &&& answers.len() == 0
            }
            &&& st.origin_route == Some(known) && new.route_version > known.route_version ==> {
                &&& after.simple_seq == 0
                &&& after.simple_playlist.len() == 0
                &&& after.http_waiters.len() == 0
                &&& !after.origin_connected
                &&& !after.should_clear
                &&& after.stream_key == key
                &&& after.origin_route == Some(new)
                &&& after.viewer_ws == st.viewer_ws
                &&& after.initialized == st.initialized
                &&& action matches ActionView::Store { key: stored, answers }
                &&& stored == key
                &&& answers.len() == st.http_waiters.len()
                &&& forall|i: int|
                    0 <= i < answers.len() ==> #[trigger] answers[i] == (
                        st.http_waiters[i],
                        Seq::<char>::empty(),
                    )
                &&& after.feed(secret) == Ok::<_, RouteError>(
                    Some((route::feed_url(key, new.origin_base_url, secret), new)),
                )
            }
            &&& st.origin_route == Some(known) && new.route_version < known.route_version ==> after
                == st && action == ActionView::<S>::Fail(RouteError::Stale)
            &&& st.origin_route == Some(known) && new.route_version == known.route_version && (new
                != known || key != st.stream_key) ==> after == st && action
                == ActionView::<S>::Fail(RouteError::Conflicting)
            &&& st.fetched(is_viewer, None, Ok(new), secret) == (
                st,
                ActionView::<S>::Fail(RouteError::MissingStreamKey),
            )
            &&& st.fetched(is_viewer, Some(Seq::empty()), Ok(new), secret) == (
                st,
                ActionView::<S>::Fail(RouteError::MissingStreamKey),
            )
            &&& forall|e: RouteError|
                #[trigger] st.fetched(is_viewer, Some(key), Err(e), secret) == (
                    st,
                    ActionView::<S>::Fail(e),
                )
        }),
{
}

/// What a route does to the object is the same wherever it is taken: the same route does nothing,
/// the first sets stream and route alone, and only a newer one sends requests away.
pub proof fn law_routes_touch_only_what_they_must<S, W>(
    st: SimpleView<S, W>,
    key: Seq<char>,
    new: route::RouteView,
)
    ensures
        st.configured(RouteChange::Same, key, new) == st,
        st.configured(RouteChange::First, key, new) == (SimpleView {
            stream_key: key,
            origin_route: Some(new),
            ..st
        }),
        st.configured(RouteChange::Newer, key, new) == (SimpleView {
            stream_key: key,
            origin_route: Some(new),
            viewer_ws: st.viewer_ws,
            initialized: st.initialized,
            ..SimpleView::<S, W>::fresh()
        }),
        st.sent_away(RouteChange::Same).len() == 0,
        st.sent_away(RouteChange::First).len() == 0,
        st.sent_away(RouteChange::Newer).len() == st.http_waiters.len(),
        forall|i: int|
            0 <= i < st.http_waiters.len() ==> #[trigger] st.sent_away(RouteChange::Newer)[i] == (
                st.http_waiters[i],
                Seq::<char>::empty(),
            ),
{
}

/// A playlist on the feed of the known route that is not older than the current one becomes the
/// current one. Everybody who waits leaves with it, in order, and the reply to each has status 200
/// and that text as its body. The viewers are pushed exactly this playlist, and the origin learns
/// how many there were before anybody was answered. An older playlist changes nothing.
pub proof fn law_playlists_are_taken_and_handed_on<S, W>(
    st: SimpleView<S, W>,
    link: route::RouteView,
    seq: u64,
    playlist: String,
)
    requires
        st.origin_route == Some(link),
    ensures
        ({
            let (after, step) = st.after_event(
                link,
                OriginEvent::Message(OriginMsg::Simple { seq, playlist }),
            );
            if seq < st.simple_seq {
                after == st && step == StepView::<S, W>::Ignored
            } else {
                &&& after == (SimpleView {
                    simple_seq: seq,
                    simple_playlist: playlist@,
                    http_waiters: Seq::empty(),
                    ..st
                })
                &&& step matches StepView::Updated { answers, push, report }
                &&& answers.len() == st.http_waiters.len()
                &&& forall|i: int|
                    0 <= i < answers.len() ==> #[trigger] answers[i] == (
                        st.http_waiters[i],
                        playlist@,
                    )
                &&& forall|i: int|
                    0 <= i < answers.len() ==> {
                        let reply = after.settled_playlist(Some((#[trigger] answers[i]).1));
                        reply.status == 200 && reply.body == playlist@
                    }
                &&& push == protocol::viewer_json(ViewerView::Simple { seq, playlist: playlist@ })
                &&& report == protocol::report_json(
                    DoMsg::Viewers {
                        count: ((st.http_waiters.len() + st.viewer_ws.len())
                            % 0x1_0000_0000) as u32,
                        msn: 0,
                        part: (seq % 0x1_0000_0000) as u32,
                    },
                )
            }
        }),
{
}

/// The end on the feed of the known route answers everybody, in order, with the last playlist, and
/// sends all viewers away with the same last message. The playlist stays until it is cleared.
pub proof fn law_the_end_answers_everybody<S, W>(st: SimpleView<S, W>, link: route::RouteView)
    requires
        st.origin_route == Some(link),
    ensures
        ({
            let (after, step) = st.after_event(link, OriginEvent::Message(OriginMsg::End));
            &&& after == (SimpleView {
                http_waiters: Seq::empty(),
                viewer_ws: Seq::empty(),
                should_clear: true,
                origin_connected: false,
                ..st
            })
            &&& step matches StepView::Ended { answers, farewell, viewers }
            &&& answers.len() == st.http_waiters.len()
            &&& forall|i: int|
                0 <= i < answers.len() ==> #[trigger] answers[i] == (
                    st.http_waiters[i],
                    st.simple_playlist,
                )
            &&& farewell == "{\"type\":\"end\"}"@
            &&& viewers == st.viewer_ws
        }),
{
}

/// Whatever else happens on a feed changes at most whether the object counts as connected: what
/// cannot be read and what is meant for the other kind of object is ignored, a lost feed is closed,
/// and so is the feed of another route when it says anything.
pub proof fn law_everything_else_is_ignored_or_closes_the_feed<S, W>(
    st: SimpleView<S, W>,
    link: route::RouteView,
    msg: OriginMsg,
)
    ensures
        st.after_event(link, OriginEvent::Unreadable) == (st, StepView::<S, W>::Ignored),
        st.after_event(link, OriginEvent::Lost) == (
            SimpleView { origin_connected: false, ..st },
            StepView::<S, W>::Lost,
        ),
        msg is Part || msg is Master ==> st.after_event(link, OriginEvent::Message(msg)) == (
            st,
            StepView::<S, W>::Ignored,
        ),
        (msg is Simple || msg is End) && st.origin_route != Some(link) ==> st.after_event(
            link,
            OriginEvent::Message(msg),
        ) == (SimpleView { origin_connected: false, ..st }, StepView::<S, W>::Detached),
{
}

/// A new object holds nothing. What was stored is taken over as it is, and what was not is empty.
/// A timeout takes out the waiting requests and nothing else, and clearing takes away the playlist
/// and the mark of the end, and nothing else.
pub proof fn law_objects_begin_and_end_empty<S, W>(
    st: SimpleView<S, W>,
    playlist: Seq<char>,
    seq: u64,
)
    ensures
        ({
            let new = SimpleView::<S, W>::fresh();
            &&& new.simple_playlist.len() == 0
            &&& new.simple_seq == 0
            &&& new.stream_key.len() == 0
            &&& new.origin_route is None
            &&& new.http_waiters.len() == 0
            &&& new.viewer_ws.len() == 0
            &&& !new.initialized
            &&& !new.origin_connected
            &&& !new.should_clear
        }),
        st.restored(Some(playlist), Some(seq)) == (SimpleView {
            simple_playlist: playlist,
            simple_seq: seq,
            initialized: true,
            ..st
        }),
        st.restored(None, Some(seq)) == (SimpleView {
            simple_playlist: Seq::empty(),
            simple_seq: seq,
            initialized: true,
            ..st
        }),
        st.restored(Some(playlist), None) == (SimpleView {
            simple_playlist: playlist,
            simple_seq: 0,
            initialized: true,
            ..st
        }),
        st.restored(None, None) == (SimpleView {
            simple_playlist: Seq::empty(),
            simple_seq: 0,
            initialized: true,
            ..st
        }),
        st.drained() == (SimpleView { http_waiters: Seq::empty(), ..st }),
        st.cleared() == (SimpleView {
            simple_playlist: Seq::empty(),
            should_clear: false,
            ..st
        }),
        st.head_count() == (st.http_waiters.len() + st.viewer_ws.len()) % 0x1_0000_0000,
{
}

/// An object is taken as it is.
pub proof fn law_objects_are_taken_as_they_are<S, W>(o: SimpleInner<S, W>)
    ensures
        o@.simple_playlist == o.simple_playlist@,
        o@.simple_seq == o.simple_seq,
        o@.stream_key == o.stream_key@,
        o@.origin_route == route::opt_route(o.origin_route),
        o@.http_waiters == o.http_waiters@,
        o@.viewer_ws == o.viewer_ws@,
        o@.initialized == o.initialized,
        o@.origin_connected == o.origin_connected,
        o@.should_clear == o.should_clear,
{
}

/// A request that goes on after its stream key was stored is treated as one whose route was known
/// all along, and each single decision is the one that the whole request leads to.
pub proof fn law_stored_requests_go_on_as_known_ones<S, W>(
    st: SimpleView<S, W>,
    route: route::RouteView,
    is_viewer: bool,
    secret: Option<Seq<char>>,
)
    requires
        st.origin_route == Some(route),
        st.stream_key.len() > 0,
        !is_viewer ==> st.http_waiters.len() < 500,
    ensures
        st.routed(is_viewer, secret) == st.fetched(
            is_viewer,
            Some(st.stream_key),
            Ok(route),
            secret,
        ),
        st.feed(secret) == Ok::<_, RouteError>(
            if st.origin_connected {
                None
            } else {
                Some((route::feed_url(st.stream_key, route.origin_base_url, secret), route))
            },
        ),
        st.connected(secret) == (SimpleView { origin_connected: true, ..st }),
        !is_viewer ==> st.routed(is_viewer, secret).1 == (match st.playlist_step() {
            PlaylistStepView::Clear(playlist) => ActionView::<S>::Clear { alarm_ms: 1, playlist },
            PlaylistStepView::Now(reply) => ActionView::Reply(reply),
            PlaylistStepView::Wait => ActionView::Enlist {
                feed: st.feed(secret),
                alarm_ms: 5000,
            },
        }),
{
}

/// An object without a route or without a stream opens no feed and says why.
pub proof fn law_feeds_need_a_route_and_a_stream<S, W>(
    st: SimpleView<S, W>,
    secret: Option<Seq<char>>,
)
    requires
        !st.origin_connected,
        st.origin_route is None || st.stream_key.len() == 0,
    ensures
        st.connected(secret) == st,
        st.origin_route is None ==> st.feed(secret) == Err::<Option<(Seq<char>, route::RouteView)>, _>(
            RouteError::RouteNotSet,
        ),
        st.origin_route is Some ==> st.feed(secret) == Err::<Option<(Seq<char>, route::RouteView)>, _>(
            RouteError::StreamKeyNotSet,
        ),
{
}

/// Waiting and joining put a request or a viewer behind those that are there, and touch nothing
/// else.
pub proof fn law_calls_let_requests_wait<S, W>(
    o: &mut SimpleInner<S, W>,
    p: &mut SimpleInner<S, W>,
    tx: S,
    ws: W,
)
    requires
        call_ensures(SimpleInner::<S, W>::wait_for_playlist, (o, tx), ()),
        call_ensures(SimpleInner::<S, W>::add_viewer, (p, ws), ()),
    ensures
        final(o)@ == (SimpleView { http_waiters: old(o)@.http_waiters + seq![tx], ..old(o)@ }),
        final(p)@ == (SimpleView { viewer_ws: old(p)@.viewer_ws + seq![ws], ..old(p)@ }),
{
    assert(old(o)@.http_waiters.push(tx) =~= old(o)@.http_waiters + seq![tx]);
    assert(old(p)@.viewer_ws.push(ws) =~= old(p)@.viewer_ws + seq![ws]);
}

/// An alarm clears an ended stream and otherwise answers everybody who waits, in order, with the
/// playlist that there is. Nothing else changes.
pub proof fn law_alarms_answer_everybody<S, W>(
    o: &mut SimpleInner<S, W>,
    p: &mut SimpleInner<S, W>,
    seen: SimpleInner<S, W>,
    timed_out: Vec<(S, String)>,
    clears: bool,
)
    requires
        call_ensures(SimpleInner::<S, W>::drain_on_timeout, (o,), timed_out),
        call_ensures(SimpleInner::<S, W>::clear_ended, (p,), ()),
        call_ensures(SimpleInner::<S, W>::alarm_clears, (&seen,), clears),
    ensures
        timed_out@.len() == old(o).http_waiters@.len(),
        forall|i: int|
            0 <= i < timed_out@.len() ==> (#[trigger] timed_out@[i]).0 == old(o).http_waiters@[i]
                && timed_out@[i].1@ == old(o).simple_playlist@,
        final(o)@ == (SimpleView { http_waiters: Seq::empty(), ..old(o)@ }),
        final(p)@ == (SimpleView {
            simple_playlist: Seq::empty(),
            should_clear: false,
            ..old(p)@
        }),
        clears <==> seen.should_clear,
{
    let a = waiting::answers(timed_out@);
    assert(a.len() == timed_out@.len());
    assert forall|i: int| 0 <= i < timed_out@.len() implies a[i] == (
        (#[trigger] timed_out@[i]).0,
        timed_out@[i].1@,
    ) by {}
}

/// After a message was pushed, exactly the viewers that it reached stay, and when all are sent away
/// each gets the same last message. Nothing else changes.
pub proof fn law_calls_keep_the_viewers_that_were_reached<S, W>(
    o: &mut SimpleInner<S, W>,
    p: &mut SimpleInner<S, W>,
    delivered: Vec<bool>,
    sent_away: (String, Vec<W>),
)
    requires
        old(o).viewer_ws@.len() == delivered@.len(),
        call_ensures(SimpleInner::<S, W>::fan_out_ws, (o, &delivered), ()),
        call_ensures(SimpleInner::<S, W>::close_all_viewer_ws, (p,), sent_away),
    ensures
        final(o)@ == (SimpleView { viewer_ws: final(o)@.viewer_ws, ..old(o)@ }),
        forall|i: int|
            0 <= i < delivered@.len() && delivered@[i] ==> final(o)@.viewer_ws.contains(
                #[trigger] old(o).viewer_ws@[i],
            ),
        forall|w: W|
            #[trigger] final(o)@.viewer_ws.contains(w) ==> exists|i: int|
                0 <= i < delivered@.len() && delivered@[i] && #[trigger] old(o).viewer_ws@[i] == w,
        final(p)@ == (SimpleView { viewer_ws: Seq::empty(), ..old(p)@ }),
        sent_away.0@ == "{\"type\":\"end\"}"@,
        sent_away.1@ == old(p).viewer_ws@,
{
    waiting::law_reached_viewers_stay(old(o).viewer_ws@, delivered@);
}

/// Whatever is replied to a request that has waited, it is the text that it was answered with, and
/// what is replied for an ended stream is its last playlist, if it had one.
pub proof fn law_calls_settle_requests_with_their_answer<S, W>(
    o: SimpleInner<S, W>,
    answer: String,
    last: &str,
    reply: Reply,
    ended: Reply,
    fresh: bool,
)
    requires
        call_ensures(SimpleInner::<S, W>::settle_playlist, (&o, Some(answer)), reply),
        call_ensures(SimpleInner::<S, W>::settle_cleared, (&o, last), ended),
        call_ensures(SimpleInner::<S, W>::needs_restore, (&o,), fresh),
    ensures
        reply.status == 200,
        reply.body@ == answer@,
        last@.len() > 0 ==> ended.status == 200 && ended.body@ == last@,
        last@.len() == 0 ==> ended.status == 404,
        fresh <==> !o.initialized,
{
    assert(reply@.body == reply.body@);
    assert(ended@.body == ended.body@);
}

} // verus!
