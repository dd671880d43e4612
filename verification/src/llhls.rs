//! The object that serves low-latency playlists and master playlists.
//!
//! A request for a playlist position that the stream has not reached waits until it does. A
//! viewer's WebSocket is pushed every new part.

use crate::fetch::{Action, ActionView, FetchKind};
use crate::http;
use crate::http::Reply;
use crate::origin;
use crate::origin::{Configured, OriginEvent, OriginLink, Step, StepView};
use crate::protocol;
use crate::protocol::{DoMsg, HlsQuery, OriginMsg, ViewerMsg, ViewerView};
use crate::route;
use crate::route::{OriginRoute, RouteChange, RouteError, RouteHeaders};
use crate::text;
use crate::waiting;
use crate::waiting::{Greeting, GreetingView, PlaylistStep, PlaylistStepView};
use vstd::prelude::*;

verus! {

/// The state of the object. `S` answers a waiting request, `W` is a viewer's connection.
#[derive(Debug)]
pub struct LlHlsInner<S, W> {
    pub current_msn: u64,
    pub current_part: u32,
    pub playlist: String,
    pub stream_key: String,
    pub origin_route: Option<OriginRoute>,
    /// Requests that wait for a position.
    pub http_waiters: Vec<(u64, u32, S)>,
    /// Connected viewers.
    pub viewer_ws: Vec<W>,
    pub initialized: bool,
    pub origin_connected: bool,
    /// The stream is over, and its state is to be cleared.
    pub should_clear: bool,
    pub master_playlist: String,
    /// Requests that wait for the master playlist.
    pub master_waiters: Vec<S>,
}

/// The state with its texts and lists as sequences.
#[verifier::ext_equal]
pub struct LlView<S, W> {
    pub current_msn: u64,
    pub current_part: u32,
    pub playlist: Seq<char>,
    pub stream_key: Seq<char>,
    pub origin_route: Option<route::RouteView>,
    pub http_waiters: Seq<(u64, u32, S)>,
    pub viewer_ws: Seq<W>,
    pub initialized: bool,
    pub origin_connected: bool,
    pub should_clear: bool,
    pub master_playlist: Seq<char>,
    pub master_waiters: Seq<S>,
}

impl<S, W> View for LlHlsInner<S, W> {
    type V = LlView<S, W>;

    open spec fn view(&self) -> LlView<S, W> {
        LlView {
            current_msn: self.current_msn,
            current_part: self.current_part,
            playlist: self.playlist@,
            stream_key: self.stream_key@,
            origin_route: route::opt_route(self.origin_route),
            http_waiters: self.http_waiters@,
            viewer_ws: self.viewer_ws@,
            initialized: self.initialized,
            origin_connected: self.origin_connected,
            should_clear: self.should_clear,
            master_playlist: self.master_playlist@,
            master_waiters: self.master_waiters@,
        }
    }
}

/// What an alarm is for.
#[derive(Debug, PartialEq, Eq)]
pub enum AlarmPlan {
    /// To clear the state of an ended stream, after its storage was deleted. The requests that
    /// wait for the master playlist get the one that is known now.
    Clear { master: String },
    /// To answer the requests that have waited too long.
    Timeout,
}

/// The requests in a list of those that wait for positions.
pub open spec fn senders<S>(waiters: Seq<(u64, u32, S)>) -> Seq<S> {
    waiters.map_values(|w: (u64, u32, S)| w.2)
}

/// The requests whose position a playlist has reached.
pub open spec fn due<S>(waiters: Seq<(u64, u32, S)>, msn: u64, part: u32) -> Seq<(u64, u32, S)> {
    waiters.filter(|w: (u64, u32, S)| protocol::reached(msn, part, w.0, w.1))
}

/// The requests whose position a playlist has not reached.
pub open spec fn pending<S>(waiters: Seq<(u64, u32, S)>, msn: u64, part: u32) -> Seq<
    (u64, u32, S),
> {
    waiters.filter(|w: (u64, u32, S)| !protocol::reached(msn, part, w.0, w.1))
}

impl<S, W> LlView<S, W> {
    /// The state of a new object.
    pub open spec fn fresh() -> Self {
        LlView {
            current_msn: 0,
            current_part: 0,
            playlist: Seq::empty(),
            stream_key: Seq::empty(),
            origin_route: None,
            http_waiters: Seq::empty(),
            viewer_ws: Seq::empty(),
            initialized: false,
            origin_connected: false,
            should_clear: false,
            master_playlist: Seq::empty(),
            master_waiters: Seq::empty(),
        }
    }

    /// The state with what was stored.
    pub open spec fn restored(
        self,
        msn: Option<u64>,
        part: Option<u32>,
        playlist: Option<Seq<char>>,
    ) -> Self {
        LlView {
            current_msn: match msn {
                Some(v) => v,
                None => 0,
            },
            current_part: match part {
                Some(v) => v,
                None => 0,
            },
            playlist: match playlist {
                Some(v) => v,
                None => Seq::empty(),
            },
            initialized: true,
            ..self
        }
    }

    /// The state after an ended stream was cleared.
    pub open spec fn cleared(self) -> Self {
        LlView {
            playlist: Seq::empty(),
            should_clear: false,
            master_waiters: Seq::empty(),
            ..self
        }
    }

    /// The state after all waiting requests were answered.
    pub open spec fn drained(self) -> Self {
        LlView { http_waiters: Seq::empty(), master_waiters: Seq::empty(), ..self }
    }

    /// The number of viewers that is reported to the origin.
    pub open spec fn head_count(self) -> u32 {
        waiting::head_count(self.http_waiters.len(), self.viewer_ws.len())
    }

    /// The state after a request with this stream and route.
    pub open spec fn configured(
        self,
        change: RouteChange,
        stream_key: Seq<char>,
        route: route::RouteView,
    ) -> Self {
        match change {
            RouteChange::Same => self,
            RouteChange::First => LlView { stream_key, origin_route: Some(route), ..self },
            RouteChange::Newer => LlView {
                current_msn: 0,
                current_part: 0,
                playlist: Seq::empty(),
                master_playlist: Seq::empty(),
                http_waiters: Seq::empty(),
                master_waiters: Seq::empty(),
                origin_connected: false,
                should_clear: false,
                stream_key,
                origin_route: Some(route),
                ..self
            },
        }
    }

    /// The requests that are sent away by a request with this route.
    pub open spec fn sent_away(self, change: RouteChange) -> Seq<(S, Seq<char>)> {
        match change {
            RouteChange::Newer => waiting::answered(senders(self.http_waiters), Seq::empty())
                + waiting::answered(self.master_waiters, Seq::empty()),
            _ => Seq::empty(),
        }
    }

    /// The feed that is opened when a request needs one.
    pub open spec fn feed(self, secret: Option<Seq<char>>) -> Result<
        Option<(Seq<char>, route::RouteView)>,
        RouteError,
    > {
        origin::feed_to_open(self.origin_connected, self.origin_route, self.stream_key, secret)
    }

    /// The state after that.
    pub open spec fn connected(self, secret: Option<Seq<char>>) -> Self {
        LlView { origin_connected: self.feed(secret) is Ok, ..self }
    }

    /// What is done with a playlist request.
    pub open spec fn playlist_step(self, is_initial: bool, query: HlsQuery) -> PlaylistStepView {
        if self.should_clear {
            PlaylistStepView::Clear(self.playlist)
        } else if self.playlist.len() > 0 && (is_initial || protocol::reached(
            self.current_msn,
            self.current_part,
            query.msn,
            query.part,
        )) {
            PlaylistStepView::Now(http::ll_playlist_view(self.playlist, 0))
        } else {
            PlaylistStepView::Wait
        }
    }

    /// The reply to a request that has waited. `outcome` is what it was answered, if it was.
    pub open spec fn settled_playlist(self, outcome: Option<Seq<char>>) -> http::ReplyView {
        http::ll_playlist_view(
            match outcome {
                Some(playlist) => playlist,
                None => self.playlist,
            },
            0,
        )
    }

    /// The reply to a request for the master playlist, if it does not have to wait.
    pub open spec fn master_reply(self) -> Option<http::ReplyView> {
        if self.master_playlist.len() > 0 {
            Some(http::master_playlist_view(self.master_playlist))
        } else if self.should_clear {
            Some(http::cors_error_view("Stream ended"@, 404))
        } else if waiting::is_full(self.master_waiters.len()) {
            Some(http::shard_full_view())
        } else {
            None
        }
    }

    /// The reply to a request that has waited for the master playlist.
    pub open spec fn settled_master(self, outcome: Option<Seq<char>>) -> http::ReplyView {
        let master = match outcome {
            Some(master) => master,
            None => self.master_playlist,
        };
        if master.len() == 0 {
            http::cors_error_view("Master not available"@, 404)
        } else {
            http::master_playlist_view(master)
        }
    }

    /// The reply to a request that is not even asked for its route: what needs no origin, and
    /// what there is no room for.
    pub open spec fn early_reply(self, kind: FetchKind) -> Option<http::ReplyView> {
        match kind {
            FetchKind::Master => self.master_reply(),
            FetchKind::Viewer => None,
            FetchKind::Playlist => if waiting::is_full(self.http_waiters.len()) {
                Some(http::shard_full_view())
            } else {
                None
            },
        }
    }

    /// What is done for a request when its stream and route are taken.
    pub open spec fn routed(
        self,
        kind: FetchKind,
        is_initial: bool,
        query: HlsQuery,
        secret: Option<Seq<char>>,
    ) -> (Self, ActionView<S>) {
        let enlisted = (
            self.connected(secret),
            ActionView::Enlist { feed: self.feed(secret), alarm_ms: waiting::VIEWER_TIMEOUT_MS },
        );
        match kind {
            FetchKind::Master => enlisted,
            FetchKind::Viewer => (
                self.connected(secret),
                ActionView::Upgrade { feed: self.feed(secret) },
            ),
            FetchKind::Playlist => match self.playlist_step(is_initial, query) {
                PlaylistStepView::Clear(playlist) => (
                    self,
                    ActionView::Clear { alarm_ms: waiting::CLEAR_DELAY_MS, playlist },
                ),
                PlaylistStepView::Now(reply) => (self, ActionView::Reply(reply)),
                PlaylistStepView::Wait => enlisted,
            },
        }
    }

    /// What is done for a request when it comes in. A stream or a route that is new is stored
    /// first; otherwise the request goes on at once.
    pub open spec fn fetched(
        self,
        kind: FetchKind,
        stream_key: Option<Seq<char>>,
        route: Result<route::RouteView, RouteError>,
        is_initial: bool,
        query: HlsQuery,
        secret: Option<Seq<char>>,
    ) -> (Self, ActionView<S>) {
        match self.early_reply(kind) {
            Some(reply) => (self, ActionView::Reply(reply)),
            None => match route::route_change(
                self.origin_route,
                self.stream_key,
                stream_key,
                route,
            ) {
                Err(e) => (self, ActionView::Fail(e)),
                Ok(RouteChange::Same) => self.routed(kind, is_initial, query, secret),
                Ok(change) => (
                    self.configured(change, stream_key->0, route->Ok_0),
                    ActionView::Store { key: stream_key->0, answers: self.sent_away(change) },
                ),
            },
        }
    }

    /// The message about the current part.
    pub open spec fn current_message(self) -> Seq<char> {
        protocol::viewer_json(
            ViewerView::Part {
                msn: self.current_msn,
                part: self.current_part,
                playlist: self.playlist,
            },
        )
    }

    /// What a new viewer is sent.
    pub open spec fn greeting(self) -> GreetingView {
        if self.should_clear {
            GreetingView::Goodbye(protocol::viewer_json(ViewerView::End))
        } else if self.playlist.len() > 0 {
            GreetingView::Welcome(Some(self.current_message()))
        } else {
            GreetingView::Welcome(None)
        }
    }

    /// A new part: the requests that it satisfies are answered, all viewers are told, and the
    /// origin learns how many there were.
    pub open spec fn after_part(self, msn: u64, part: u32, playlist: Seq<char>) -> (
        Self,
        StepView<S, W>,
    ) {
        (
            LlView {
                current_msn: msn,
                current_part: part,
                playlist,
                http_waiters: pending(self.http_waiters, msn, part),
                ..self
            },
            StepView::Updated {
                answers: waiting::answered(senders(due(self.http_waiters, msn, part)), playlist),
                push: protocol::viewer_json(ViewerView::Part { msn, part, playlist }),
                report: protocol::report_json(
                    DoMsg::Viewers { count: self.head_count(), msn, part },
                ),
            },
        )
    }

    /// A new master playlist: every request that waits for one gets it.
    pub open spec fn after_master(self, playlist: Seq<char>) -> (Self, StepView<S, W>) {
        (
            LlView { master_playlist: playlist, master_waiters: Seq::empty(), ..self },
            StepView::Woken { answers: waiting::answered(self.master_waiters, playlist) },
        )
    }

    /// The end of the stream: all waiting requests get the last playlists, and the viewers are
    /// disconnected.
    pub open spec fn after_end(self) -> (Self, StepView<S, W>) {
        (
            LlView {
                http_waiters: Seq::empty(),
                master_waiters: Seq::empty(),
                viewer_ws: Seq::empty(),
                should_clear: true,
                origin_connected: false,
                ..self
            },
            StepView::Ended {
                answers: waiting::answered(senders(self.http_waiters), self.playlist)
                    + waiting::answered(self.master_waiters, self.master_playlist),
                farewell: protocol::viewer_json(ViewerView::End),
                viewers: self.viewer_ws,
            },
        )
    }

    /// The state and the step after an event on the feed that belongs to the route `link`.
    /// When the feed is over the object counts as not connected.
    pub open spec fn after_event(self, link: route::RouteView, event: OriginEvent) -> (
        Self,
        StepView<S, W>,
    ) {
        match event {
            OriginEvent::Lost => (LlView { origin_connected: false, ..self }, StepView::Lost),
            OriginEvent::Unreadable => (self, StepView::Ignored),
            OriginEvent::Message(OriginMsg::Simple { seq, playlist }) => (self, StepView::Ignored),
            OriginEvent::Message(msg) => if self.origin_route != Some(link) {
                (LlView { origin_connected: false, ..self }, StepView::Detached)
            } else {
                match msg {
                    OriginMsg::Part { msn, part, playlist } => self.after_part(
                        msn,
                        part,
                        playlist@,
                    ),
                    OriginMsg::Master { playlist } => self.after_master(playlist@),
                    OriginMsg::End => self.after_end(),
                    OriginMsg::Simple { seq, playlist } => (self, StepView::Ignored),
                }
            },
        }
    }
}

/// Takes out all requests that wait for positions and answers each with `text`.
fn answer_positions<S>(waiters: &mut Vec<(u64, u32, S)>, text: &str) -> (r: Vec<(S, String)>)
    ensures
        waiting::answers(r@) == waiting::answered(senders(old(waiters)@), text@),
        final(waiters)@ == Seq::<(u64, u32, S)>::empty(),
{
    let all = waiting::take_all(waiters);
    let ghost every = all@;
    let mut r: Vec<(S, String)> = Vec::new();
    for w in it: all.into_iter()
        invariant
            it.seq() == every,
            waiting::answers(r@) == waiting::answered(
                senders(every.take(it.index() as int)),
                text@,
            ),
    {
        let ghost i = it.index() as int;
        let ghost before = r@;
        let (_, _, tx) = w;
        r.push((tx, text.to_owned()));
        assert(waiting::answers(r@) =~= waiting::answers(before).push((tx, text@)));
        assert(waiting::answered(senders(every.take(i + 1)), text@) =~= waiting::answered(
            senders(every.take(i)),
            text@,
        ).push((tx, text@)));
    }
    assert(every.take(every.len() as int) =~= every);
    r
}

/// Takes out the requests whose position is reached and answers each with `playlist`.
fn answer_due<S>(waiters: &mut Vec<(u64, u32, S)>, msn: u64, part: u32, playlist: &str) -> (r: Vec<
    (S, String),
>)
    ensures
        waiting::answers(r@) == waiting::answered(
            senders(due(old(waiters)@, msn, part)),
            playlist@,
        ),
        final(waiters)@ == pending(old(waiters)@, msn, part),
{
    let all = waiting::take_all(waiters);
    let ghost every = all@;
    let mut r: Vec<(S, String)> = Vec::new();
    proof {
        reveal(Seq::filter);
        assert(waiting::answers(r@) =~= waiting::answered(
            senders(due(every.take(0), msn, part)),
            playlist@,
        ));
        assert(pending(every.take(0), msn, part) =~= Seq::empty());
    }
    for w in it: all.into_iter()
        invariant
            it.seq() == every,
            waiting::answers(r@) == waiting::answered(
                senders(due(every.take(it.index() as int), msn, part)),
                playlist@,
            ),
            waiters@ == pending(every.take(it.index() as int), msn, part),
    {
        let ghost i = it.index() as int;
        let ghost before = r@;
        let ghost due_before = due(every.take(i), msn, part);
        assert(every.take(i + 1).drop_last() =~= every.take(i));
        assert(every.take(i + 1).last() == w);
        proof {
            reveal(Seq::filter);
        }
        let (req_msn, req_part, tx) = w;
        if protocol::satisfies(msn, part, req_msn, req_part) {
            r.push((tx, playlist.to_owned()));
            assert(waiting::answers(r@) =~= waiting::answers(before).push((tx, playlist@)));
            assert(waiting::answered(senders(due_before.push(w)), playlist@)
                =~= waiting::answered(senders(due_before), playlist@).push((tx, playlist@)));
        } else {
            waiters.push((req_msn, req_part, tx));
        }
    }
    assert(every.take(every.len() as int) =~= every);
    r
}

impl<S, W> Default for LlHlsInner<S, W> {
    fn default() -> (r: Self)
        ensures
            r@ == LlView::<S, W>::fresh(),
    {
        LlHlsInner {
            current_msn: 0,
            current_part: 0,
            playlist: String::new(),
            stream_key: String::new(),
            origin_route: None,
            http_waiters: Vec::new(),
            viewer_ws: Vec::new(),
            initialized: false,
            origin_connected: false,
            should_clear: false,
            master_playlist: String::new(),
            master_waiters: Vec::new(),
        }
    }
}

impl<S, W> LlHlsInner<S, W> {
    /// The number of viewers: requests that wait for a position, and WebSocket viewers.
    pub fn total_viewers(&self) -> (n: u32)
        ensures
            n == self@.head_count(),
    {
        waiting::count_heads(self.http_waiters.len(), self.viewer_ws.len())
    }

    /// Whether the stored state is still to be read.
    pub fn needs_restore(&self) -> (b: bool)
        ensures
            b == !self.initialized,
    {
        !self.initialized
    }

    /// Takes over what was stored; what is missing there is empty or zero.
    pub fn restore(&mut self, msn: Option<u64>, part: Option<u32>, playlist: Option<String>)
        ensures
            final(self)@ == old(self)@.restored(msn, part, text::opt_text(playlist)),
    {
        self.current_msn = msn.unwrap_or(0);
        self.current_part = part.unwrap_or(0);
        self.playlist = match playlist {
            Some(playlist) => playlist,
            None => String::new(),
        };
        self.initialized = true;
    }

    /// Takes the stream and the route of a request, or refuses them and leaves everything as it
    /// is. A newer route starts over: what waited for the old one is answered with nothing.
    pub fn configure_origin_route(&mut self, stream_key: Option<String>, headers: RouteHeaders) -> (r:
        Result<Configured<S>, RouteError>)
        ensures
            ({
                let change = route::route_change(
                    old(self)@.origin_route,
                    old(self)@.stream_key,
                    text::opt_text(stream_key),
                    route::route_from_headers(headers),
                );
                match r {
                    Ok(c) => {
                        &&& change matches Ok(ch)
                        &&& final(self)@ == old(self)@.configured(
                            ch,
                            stream_key->0@,
                            route::route_from_headers(headers)->Ok_0,
                        )
                        &&& waiting::answers(c.answers@) == old(self)@.sent_away(ch)
                        &&& text::opt_text(c.store_key) == (if ch == RouteChange::Same {
                            None
                        } else {
                            Some(stream_key->0@)
                        })
                    },
                    Err(e) => change == Err::<RouteChange, RouteError>(e) && final(self)@ == old(
                        self,
                    )@,
                }
            }),
    {
        let route = route::origin_route_from_headers(headers);
        let change = match route::compare_route(
            &self.origin_route,
            &self.stream_key,
            &stream_key,
            &route,
        ) {
            Ok(change) => change,
            Err(e) => {
                return Err(e);
            },
        };
        let mut answers: Vec<(S, String)> = Vec::new();
        assert(waiting::answers(answers@) =~= Seq::empty());
        if let RouteChange::Same = change {
            return Ok(Configured { store_key: None, answers });
        }
        if let RouteChange::Newer = change {
            self.current_msn = 0;
            self.current_part = 0;
            self.playlist = String::new();
            self.master_playlist = String::new();
            let nothing = String::new();
            answers = answer_positions(&mut self.http_waiters, nothing.as_str());
            let mut masters = waiting::answer_all(&mut self.master_waiters, nothing.as_str());
            let ghost first = answers@;
            let ghost second = masters@;
            answers.append(&mut masters);
            assert(waiting::answers(answers@) =~= waiting::answers(first) + waiting::answers(
                second,
            ));
            self.origin_connected = false;
            self.should_clear = false;
        }
        let key = stream_key.unwrap();
        self.stream_key = key.clone();
        self.origin_route = match route {
            Ok(route) => Some(route),
            Err(_) => None,
        };
        Ok(Configured { store_key: Some(key), answers })
    }

    /// The refusal of a playlist request where too many wait already.
    pub fn refuse_playlist(&self) -> (r: Option<Reply>)
        ensures
            http::opt_reply(r) == (if waiting::is_full(self@.http_waiters.len()) {
                Some(http::shard_full_view())
            } else {
                None
            }),
    {
        if waiting::at_capacity(self.http_waiters.len()) {
            Some(http::shard_full())
        } else {
            None
        }
    }

    /// What is done with a playlist request.
    pub fn answer_playlist(&self, is_initial: bool, query: &HlsQuery) -> (step: PlaylistStep)
        ensures
            step@ == self@.playlist_step(is_initial, *query),
    {
        if self.should_clear {
            return PlaylistStep::Clear(self.playlist.clone());
        }
        if !self.playlist.as_str().is_empty() && (is_initial || protocol::satisfies(
            self.current_msn,
            self.current_part,
            query.msn,
            query.part,
        )) {
            return PlaylistStep::Now(http::ll_playlist_response(self.playlist.as_str(), 0));
        }
        PlaylistStep::Wait
    }

    /// Takes a request and says what is to be done for it first.
    pub fn fetch(
        &mut self,
        kind: FetchKind,
        stream_key: Option<String>,
        headers: RouteHeaders,
        is_initial: bool,
        query: &HlsQuery,
        secret: Option<&str>,
    ) -> (action: Action<S>)
        ensures
            (final(self)@, action@) == old(self)@.fetched(
                kind,
                text::opt_text(stream_key),
                route::route_from_headers(headers),
                is_initial,
                *query,
                text::opt_str(secret),
            ),
    {
        let early = match kind {
            FetchKind::Master => self.answer_master(),
            FetchKind::Viewer => None,
            FetchKind::Playlist => self.refuse_playlist(),
        };
        if let Some(reply) = early {
            return Action::Reply(reply);
        }
        match self.configure_origin_route(stream_key, headers) {
            Err(e) => Action::Fail(e),
            Ok(configured) => match configured.store_key {
                Some(key) => Action::Store { key, answers: configured.answers },
                None => self.fetch_routed(kind, is_initial, query, secret),
            },
        }
    }

    /// Says what is to be done for a request after its stream key was stored.
    pub fn fetch_routed(
        &mut self,
        kind: FetchKind,
        is_initial: bool,
        query: &HlsQuery,
        secret: Option<&str>,
    ) -> (action: Action<S>)
        ensures
            (final(self)@, action@) == old(self)@.routed(
                kind,
                is_initial,
                *query,
                text::opt_str(secret),
            ),
    {
        if let FetchKind::Viewer = kind {
            return Action::Upgrade { feed: self.connect_origin(secret) };
        }
        if let FetchKind::Playlist = kind {
            match self.answer_playlist(is_initial, query) {
                PlaylistStep::Clear(playlist) => {
                    return Action::Clear { alarm_ms: waiting::CLEAR_DELAY_MS, playlist };
                },
                PlaylistStep::Now(reply) => {
                    return Action::Reply(reply);
                },
                PlaylistStep::Wait => {},
            }
        }
        Action::Enlist {
            feed: self.connect_origin(secret),
            alarm_ms: waiting::VIEWER_TIMEOUT_MS,
        }
    }

    /// Lets a request wait for a position.
    pub fn wait_for_playlist(&mut self, query: &HlsQuery, tx: S)
        ensures
            final(self)@ == (LlView {
                http_waiters: old(self)@.http_waiters.push((query.msn, query.part, tx)),
                ..old(self)@
            }),
    {
        self.http_waiters.push((query.msn, query.part, tx));
    }

    /// The reply to a request that has waited, or that came for an ended stream. A request that
    /// was dropped gets what there is.
    pub fn settle_playlist(&self, outcome: Option<String>) -> (reply: Reply)
        ensures
            reply@ == self@.settled_playlist(text::opt_text(outcome)),
    {
        match outcome {
            Some(playlist) => http::ll_playlist_response(playlist.as_str(), 0),
            None => http::ll_playlist_response(self.playlist.as_str(), 0),
        }
    }

    /// The reply to a request for the master playlist, if it does not have to wait.
    pub fn answer_master(&self) -> (r: Option<Reply>)
        ensures
            http::opt_reply(r) == self@.master_reply(),
    {
        if !self.master_playlist.as_str().is_empty() {
            return Some(http::master_playlist_response(self.master_playlist.as_str()));
        }
        if self.should_clear {
            return Some(http::cors_error("Stream ended", 404));
        }
        if waiting::at_capacity(self.master_waiters.len()) {
            return Some(http::shard_full());
        }
        None
    }

    /// Lets a request wait for the master playlist.
    pub fn wait_for_master(&mut self, tx: S)
        ensures
            final(self)@ == (LlView {
                master_waiters: old(self)@.master_waiters.push(tx),
                ..old(self)@
            }),
    {
        self.master_waiters.push(tx);
    }

    /// The reply to a request that has waited for the master playlist.
    pub fn settle_master(&self, outcome: Option<String>) -> (reply: Reply)
        ensures
            reply@ == self@.settled_master(text::opt_text(outcome)),
    {
        let master = match &outcome {
            Some(master) => master.as_str(),
            None => self.master_playlist.as_str(),
        };
        if master.is_empty() {
            http::cors_error("Master not available", 404)
        } else {
            http::master_playlist_response(master)
        }
    }

    /// What a new viewer is sent: the current playlist at once, or that the stream is over.
    pub fn greet_viewer(&self) -> (g: Greeting)
        ensures
            g@ == self@.greeting(),
    {
        if self.should_clear {
            return Greeting::Goodbye(protocol::encode_viewer_msg(&ViewerMsg::End));
        }
        if self.playlist.as_str().is_empty() {
            return Greeting::Welcome(None);
        }
        let msg = ViewerMsg::Part {
            msn: self.current_msn,
            part: self.current_part,
            playlist: self.playlist.as_str(),
        };
        Greeting::Welcome(Some(protocol::encode_viewer_msg(&msg)))
    }

    /// Connects a viewer for what is pushed from now on.
    pub fn add_viewer(&mut self, ws: W)
        ensures
            final(self)@ == (LlView { viewer_ws: old(self)@.viewer_ws.push(ws), ..old(self)@ }),
    {
        self.viewer_ws.push(ws);
    }

    /// Keeps the viewers to which a pushed message could be delivered. `delivered` has one
    /// entry for each viewer.
    pub fn fan_out_ws(&mut self, delivered: &Vec<bool>)
        requires
            old(self).viewer_ws@.len() == delivered@.len(),
        ensures
            final(self)@ == (LlView {
                viewer_ws: waiting::kept(old(self)@.viewer_ws, delivered@),
                ..old(self)@
            }),
    {
        waiting::keep_delivered(&mut self.viewer_ws, delivered);
    }

    /// Disconnects all viewers: the message that each is sent, and the viewers.
    pub fn close_all_viewer_ws(&mut self) -> (r: (String, Vec<W>))
        ensures
            r.0@ == protocol::viewer_json(ViewerView::End),
            r.1@ == old(self)@.viewer_ws,
            final(self)@ == (LlView { viewer_ws: Seq::empty(), ..old(self)@ }),
    {
        let farewell = protocol::encode_viewer_msg(&ViewerMsg::End);
        (farewell, waiting::take_all(&mut self.viewer_ws))
    }

    /// The feed to be opened for the current route, if none is open. From then on the object
    /// counts as connected.
    pub fn connect_origin(&mut self, secret: Option<&str>) -> (r: Result<
        Option<OriginLink>,
        RouteError,
    >)
        ensures
            origin::feed_view(r) == old(self)@.feed(text::opt_str(secret)),
            final(self)@ == old(self)@.connected(text::opt_str(secret)),
    {
        if self.origin_connected {
            return Ok(None);
        }
        let route = match &self.origin_route {
            Some(route) => route.clone(),
            None => {
                return Err(RouteError::RouteNotSet);
            },
        };
        match route::build_ws_url(self.stream_key.as_str(), &route, secret) {
            Ok(url) => {
                self.origin_connected = true;
                Ok(Some(OriginLink { url, route }))
            },
            Err(e) => Err(e),
        }
    }

    fn follows(&self, link: &OriginRoute) -> (b: bool)
        ensures
            b == (self@.origin_route == Some(link@)),
    {
        match &self.origin_route {
            Some(route) => route::same_route(route, link),
            None => false,
        }
    }

    /// Takes an event on the feed that belongs to the route `link`, and says what is to be
    /// done about it.
    pub fn on_origin_event(&mut self, link: &OriginRoute, event: OriginEvent) -> (step: Step<S, W>)
        ensures
            (final(self)@, step@) == old(self)@.after_event(link@, event),
    {
        let msg = match event {
            OriginEvent::Message(msg) => msg,
            OriginEvent::Unreadable => {
                return Step::Ignored;
            },
            OriginEvent::Lost => {
                self.origin_connected = false;
                return Step::Lost;
            },
        };
        if let OriginMsg::Simple { .. } = msg {
            return Step::Ignored;
        }
        if !self.follows(link) {
            self.origin_connected = false;
            return Step::Detached;
        }
        match msg {
            OriginMsg::Part { msn, part, playlist } => {
                self.current_msn = msn;
                self.current_part = part;
                self.playlist = playlist.clone();
                let count = self.total_viewers();
                let answers = answer_due(&mut self.http_waiters, msn, part, playlist.as_str());
                let push = protocol::encode_viewer_msg(
                    &ViewerMsg::Part { msn, part, playlist: playlist.as_str() },
                );
                let report = protocol::encode_do_msg(&DoMsg::Viewers { count, msn, part });
                Step::Updated { answers, push, report }
            },
            OriginMsg::Simple { .. } => Step::Ignored,
            OriginMsg::Master { playlist } => {
                self.master_playlist = playlist.clone();
                let answers = waiting::answer_all(&mut self.master_waiters, playlist.as_str());
                Step::Woken { answers }
            },
            OriginMsg::End => {
                let playlist = self.playlist.clone();
                let master = self.master_playlist.clone();
                let mut answers = answer_positions(&mut self.http_waiters, playlist.as_str());
                let mut masters = waiting::answer_all(&mut self.master_waiters, master.as_str());
                let ghost first = answers@;
                let ghost second = masters@;
                answers.append(&mut masters);
                assert(waiting::answers(answers@) =~= waiting::answers(first)
                    + waiting::answers(second));
                let (farewell, viewers) = self.close_all_viewer_ws();
                self.should_clear = true;
                self.origin_connected = false;
                Step::Ended { answers, farewell, viewers }
            },
        }
    }

    /// What an alarm is for.
    pub fn plan_alarm(&self) -> (plan: AlarmPlan)
        ensures
            match plan {
                AlarmPlan::Clear { master } => self.should_clear && master@
                    == self@.master_playlist,
                AlarmPlan::Timeout => !self.should_clear,
            },
    {
        if self.should_clear {
            AlarmPlan::Clear { master: self.master_playlist.clone() }
        } else {
            AlarmPlan::Timeout
        }
    }

    /// Clears the playlist of an ended stream. The requests that wait for the master playlist
    /// get `master`.
    pub fn clear_ended(&mut self, master: String) -> (r: Vec<(S, String)>)
        ensures
            waiting::answers(r@) == waiting::answered(old(self)@.master_waiters, master@),
            final(self)@ == old(self)@.cleared(),
    {
        self.playlist = String::new();
        self.should_clear = false;
        waiting::answer_all(&mut self.master_waiters, master.as_str())
    }

    /// Answers all waiting requests with what there is.
    pub fn drain_on_timeout(&mut self) -> (r: Vec<(S, String)>)
        ensures
            waiting::answers(r@) == waiting::answered(
                senders(old(self)@.http_waiters),
                old(self)@.playlist,
            ) + waiting::answered(old(self)@.master_waiters, old(self)@.master_playlist),
            final(self)@ == old(self)@.drained(),
    {
        let mut answers = answer_positions(&mut self.http_waiters, self.playlist.as_str());
        let mut masters = waiting::answer_all(
            &mut self.master_waiters,
            self.master_playlist.as_str(),
        );
        let ghost first = answers@;
        let ghost second = masters@;
        answers.append(&mut masters);
        assert(waiting::answers(answers@) =~= waiting::answers(first) + waiting::answers(second));
        answers
    }
}

/// All waiting requests of an object.
pub open spec fn all_waiters<S, W>(st: LlView<S, W>) -> Seq<S> {
    senders(st.http_waiters) + st.master_waiters
}

proof fn lemma_due_and_pending<S>(
    waiters: Seq<(u64, u32, S)>,
    msn: u64,
    part: u32,
    playlist: Seq<char>,
)
    ensures
        waiting::none_lost(
            senders(waiters),
            waiting::answered(senders(due(waiters, msn, part)), playlist),
            senders(pending(waiters, msn, part)),
        ),
    decreases waiters.len(),
{
    broadcast use vstd::seq_lib::group_to_multiset_ensures;

    reveal(Seq::filter);
    let answered = waiting::answered(senders(due(waiters, msn, part)), playlist);
    waiting::law_each_waiter_is_answered_once(senders(due(waiters, msn, part)), playlist);
    if waiters.len() == 0 {
        assert(senders(waiters) =~= Seq::empty());
        assert(senders(due(waiters, msn, part)) =~= Seq::empty());
        assert(senders(pending(waiters, msn, part)) =~= Seq::empty());
        assert(senders(waiters).to_multiset() =~= senders(
            due(waiters, msn, part),
        ).to_multiset().add(senders(pending(waiters, msn, part)).to_multiset()));
    } else {
        let front = waiters.drop_last();
        let w = waiters.last();
        lemma_due_and_pending(front, msn, part, playlist);
        waiting::law_each_waiter_is_answered_once(senders(due(front, msn, part)), playlist);
        assert(senders(waiters) =~= senders(front).push(w.2));
        if protocol::reached(msn, part, w.0, w.1) {
            assert(senders(due(waiters, msn, part)) =~= senders(due(front, msn, part)).push(w.2));
        } else {
            assert(senders(pending(waiters, msn, part)) =~= senders(
                pending(front, msn, part),
            ).push(w.2));
        }
        assert(senders(waiters).to_multiset() =~= senders(
            due(waiters, msn, part),
        ).to_multiset().add(senders(pending(waiters, msn, part)).to_multiset()));
    }
}

proof fn lemma_everybody_answered<S, W>(st: LlView<S, W>, first: Seq<char>, second: Seq<char>)
    ensures
        waiting::none_lost(
            all_waiters(st),
            waiting::answered(senders(st.http_waiters), first) + waiting::answered(
                st.master_waiters,
                second,
            ),
            Seq::empty(),
        ),
{
    let left = waiting::answered(senders(st.http_waiters), first) + waiting::answered(
        st.master_waiters,
        second,
    );
    assert(waiting::answered_waiters(left) =~= all_waiters(st));
    waiting::lemma_all_answered(all_waiters(st), left);
}

/// Whatever the feed brings, each waiting request is either answered once or goes on waiting.
pub proof fn law_feed_loses_no_request<S, W>(
    st: LlView<S, W>,
    link: route::RouteView,
    event: OriginEvent,
)
    ensures
        ({
            let (after, step) = st.after_event(link, event);
            waiting::none_lost(all_waiters(st), step.all_answers(), all_waiters(after))
        }),
{
    let (after, step) = st.after_event(link, event);
    let nobody = Seq::<(S, Seq<char>)>::empty();
    match step {
        StepView::Updated { answers, push, report } => {
            lemma_due_and_pending(
                st.http_waiters,
                after.current_msn,
                after.current_part,
                after.playlist,
            );
            waiting::lemma_none_answered(st.master_waiters);
            waiting::lemma_none_lost_of_two(
                senders(st.http_waiters),
                answers,
                senders(after.http_waiters),
                st.master_waiters,
                nobody,
                st.master_waiters,
            );
            assert(answers + nobody =~= answers);
        },
        StepView::Woken { answers } => {
            waiting::lemma_none_answered(senders(st.http_waiters));
            waiting::law_each_waiter_is_answered_once(st.master_waiters, after.master_playlist);
            waiting::lemma_all_answered(st.master_waiters, answers);
            waiting::lemma_none_lost_of_two(
                senders(st.http_waiters),
                nobody,
                senders(st.http_waiters),
                st.master_waiters,
                answers,
                Seq::empty(),
            );
            assert(nobody + answers =~= answers);
            assert(after.master_waiters =~= Seq::empty());
        },
        StepView::Ended { answers, farewell, viewers } => {
            lemma_everybody_answered(st, st.playlist, st.master_playlist);
            assert(all_waiters(after) =~= Seq::empty());
        },
        _ => {
            waiting::lemma_none_answered(all_waiters(st));
        },
    }
}

/// A request with another route loses no waiting request either, nor does a timeout, after
/// which nobody waits, nor the clearing of an ended stream.
pub proof fn law_objects_lose_no_request<S, W>(
    st: LlView<S, W>,
    change: RouteChange,
    stream_key: Seq<char>,
    route: route::RouteView,
    master: Seq<char>,
)
    ensures
        waiting::none_lost(
            all_waiters(st),
            st.sent_away(change),
            all_waiters(st.configured(change, stream_key, route)),
        ),
        waiting::none_lost(
            all_waiters(st),
            waiting::answered(senders(st.http_waiters), st.playlist) + waiting::answered(
                st.master_waiters,
                st.master_playlist,
            ),
            all_waiters(st.drained()),
        ),
        all_waiters(st.drained()) == Seq::<S>::empty(),
        waiting::none_lost(
            all_waiters(st),
            waiting::answered(st.master_waiters, master),
            all_waiters(st.cleared()),
        ),
{
    let nobody = Seq::<(S, Seq<char>)>::empty();
    lemma_everybody_answered(st, Seq::empty(), Seq::empty());
    lemma_everybody_answered(st, st.playlist, st.master_playlist);
    waiting::lemma_none_answered(all_waiters(st));
    assert(all_waiters(st.drained()) =~= Seq::empty());
    if change == RouteChange::Newer {
        assert(all_waiters(st.configured(change, stream_key, route)) =~= Seq::empty());
    } else {
        assert(all_waiters(st.configured(change, stream_key, route)) =~= all_waiters(st));
    }
    waiting::lemma_none_answered(senders(st.http_waiters));
    waiting::law_each_waiter_is_answered_once(st.master_waiters, master);
    waiting::lemma_all_answered(st.master_waiters, waiting::answered(st.master_waiters, master));
    waiting::lemma_none_lost_of_two(
        senders(st.http_waiters),
        nobody,
        senders(st.http_waiters),
        st.master_waiters,
        waiting::answered(st.master_waiters, master),
        Seq::empty(),
    );
    assert(nobody + waiting::answered(st.master_waiters, master) =~= waiting::answered(
        st.master_waiters,
        master,
    ));
    assert(all_waiters(st.cleared()) =~= senders(st.http_waiters) + Seq::<S>::empty());
}

/// A request that waits for a position is answered with the first playlist that has reached
/// it, and with none before: after a part nobody waits for what the playlist holds, and whoever
/// still waits was waiting before.
pub proof fn law_blocked_requests_are_answered_when_reached<S, W>(
    st: LlView<S, W>,
    msn: u64,
    part: u32,
    playlist: Seq<char>,
)
    ensures
        ({
            let (after, step) = st.after_part(msn, part, playlist);
            &&& forall|i: int|
                0 <= i < st.http_waiters.len() && protocol::reached(
                    msn,
                    part,
                    st.http_waiters[i].0,
                    st.http_waiters[i].1,
                ) ==> step.all_answers().contains((#[trigger] st.http_waiters[i].2, playlist))
            &&& forall|i: int|
                0 <= i < st.http_waiters.len() && !protocol::reached(
                    msn,
                    part,
                    st.http_waiters[i].0,
                    st.http_waiters[i].1,
                ) ==> after.http_waiters.contains(#[trigger] st.http_waiters[i])
            &&& forall|i: int|
                0 <= i < after.http_waiters.len() ==> {
                    let w = #[trigger] after.http_waiters[i];
                    !protocol::reached(after.current_msn, after.current_part, w.0, w.1)
                        && st.http_waiters.contains(w)
                }
            &&& after.http_waiters.len() <= st.http_waiters.len()
        }),
{
    let (after, step) = st.after_part(msn, part, playlist);
    let is_due = |w: (u64, u32, S)| protocol::reached(msn, part, w.0, w.1);
    let is_pending = |w: (u64, u32, S)| !protocol::reached(msn, part, w.0, w.1);
    let found = st.http_waiters.filter(is_due);
    let rest = st.http_waiters.filter(is_pending);
    assert(due(st.http_waiters, msn, part) == found);
    assert(after.http_waiters == rest);
    st.http_waiters.lemma_filter_len(is_pending);
    assert forall|i: int|
        0 <= i < st.http_waiters.len() && protocol::reached(
            msn,
            part,
            st.http_waiters[i].0,
            st.http_waiters[i].1,
        ) implies step.all_answers().contains((#[trigger] st.http_waiters[i].2, playlist)) by {
        st.http_waiters.lemma_filter_contains(is_due, i);
        let k = choose|k: int| 0 <= k < found.len() && found[k] == st.http_waiters[i];
        assert(step.all_answers()[k] == (st.http_waiters[i].2, playlist));
    }
    assert forall|i: int|
        0 <= i < st.http_waiters.len() && !protocol::reached(
            msn,
            part,
            st.http_waiters[i].0,
            st.http_waiters[i].1,
        ) implies after.http_waiters.contains(#[trigger] st.http_waiters[i]) by {
        st.http_waiters.lemma_filter_contains(is_pending, i);
    }
    assert forall|i: int| 0 <= i < after.http_waiters.len() implies {
        let w = #[trigger] after.http_waiters[i];
        !protocol::reached(after.current_msn, after.current_part, w.0, w.1)
            && st.http_waiters.contains(w)
    } by {
        st.http_waiters.lemma_filter_pred(is_pending, i);
        lemma_filter_keeps_members(st.http_waiters, is_pending, i);
    }
}

proof fn lemma_filter_keeps_members<A>(s: Seq<A>, pred: spec_fn(A) -> bool, i: int)
    requires
        0 <= i < s.filter(pred).len(),
    ensures
        s.contains(s.filter(pred)[i]),
    decreases s.len(),
{
    reveal(Seq::filter);
    if s.len() > 0 {
        let front = s.drop_last().filter(pred);
        if i < front.len() {
            lemma_filter_keeps_members(s.drop_last(), pred, i);
            let k = choose|k: int| 0 <= k < s.drop_last().len() && s.drop_last()[k] == front[i];
            assert(s[k] == front[i]);
        } else {
            assert(s[s.len() - 1] == s.filter(pred)[i]);
        }
    }
}

/// While a stream runs, a part that was pushed is served: a request for that position or an
/// earlier one is answered at once with its playlist, and so is one that takes what there is. A
/// viewer that joins is sent the very message that the connected viewers were pushed.
pub proof fn law_pushed_part_is_served<S, W>(
    st: LlView<S, W>,
    msn: u64,
    part: u32,
    playlist: Seq<char>,
    is_initial: bool,
    query: HlsQuery,
)
    requires
        !st.should_clear,
        playlist.len() > 0,
        is_initial || protocol::reached(msn, part, query.msn, query.part),
    ensures
        ({
            let (after, step) = st.after_part(msn, part, playlist);
            &&& after.playlist_step(is_initial, query) == PlaylistStepView::Now(
                http::ll_playlist_view(playlist, 0),
            )
            &&& after.playlist_step(is_initial, query) matches PlaylistStepView::Now(reply)
                && reply.status == 200 && reply.body == playlist
            &&& step is Updated
            &&& after.greeting() == GreetingView::Welcome(Some(step->push))
        }),
{
}

/// A master playlist that came over the feed is served from then on.
pub proof fn law_master_playlist_is_served<S, W>(st: LlView<S, W>, playlist: Seq<char>)
    requires
        playlist.len() > 0,
    ensures
        st.after_master(playlist).0.master_reply() == Some(http::master_playlist_view(playlist)),
        st.after_master(playlist).0.master_reply()->0.status == 200,
        st.after_master(playlist).0.master_reply()->0.body == playlist,
        st.after_master(playlist).0.master_waiters == Seq::<S>::empty(),
{
}

/// When a stream is over nobody waits and no viewer is connected. From then on every playlist
/// request gets the last playlist at once, no request waits for a master playlist, and a viewer
/// is told that it is over, until the state is cleared.
pub proof fn law_ended_stream_keeps_nobody_waiting<S, W>(
    st: LlView<S, W>,
    is_initial: bool,
    query: HlsQuery,
)
    ensures
        ({
            let (after, step) = st.after_end();
            &&& all_waiters(after) == Seq::<S>::empty()
            &&& after.viewer_ws == Seq::<W>::empty()
            &&& after.playlist_step(is_initial, query) == PlaylistStepView::Clear(st.playlist)
            &&& after.settled_playlist(Some(st.playlist)) == http::ll_playlist_view(st.playlist, 0)
            &&& after.master_reply() is Some
            &&& after.greeting() == GreetingView::Goodbye(protocol::viewer_json(ViewerView::End))
            &&& !after.cleared().should_clear
            &&& after.cleared().playlist == Seq::<char>::empty()
        }),
{
    assert(all_waiters(st.after_end().0) =~= Seq::empty());
}

/// When an ended stream was cleared it can be played again: a playlist request waits, and the
/// feed of the known route is opened once more.
pub proof fn law_cleared_stream_can_be_played_again<S, W>(
    st: LlView<S, W>,
    route: route::RouteView,
    is_initial: bool,
    query: HlsQuery,
    secret: Option<Seq<char>>,
)
    requires
        st.origin_route == Some(route),
        st.stream_key.len() > 0,
    ensures
        ({
            let cleared = st.after_end().0.cleared();
            let (after, action) = cleared.fetched(
                FetchKind::Playlist,
                Some(st.stream_key),
                Ok(route),
                is_initial,
                query,
                secret,
            );
            &&& action == (ActionView::<S>::Enlist {
                feed: Ok(
                    Some((route::feed_url(st.stream_key, route.origin_base_url, secret), route)),
                ),
                alarm_ms: waiting::VIEWER_TIMEOUT_MS,
            })
            &&& after.origin_connected
        }),
{
}

/// A feed that belongs to another route than the current one changes neither playlists nor
/// waiting requests nor viewers, and answers nobody. Any message of it that the object would
/// have used makes it close the feed.
pub proof fn law_other_feeds_change_nothing<S, W>(
    st: LlView<S, W>,
    link: route::RouteView,
    event: OriginEvent,
)
    requires
        st.origin_route != Some(link),
    ensures
        ({
            let (after, step) = st.after_event(link, event);
            &&& after == (LlView { origin_connected: after.origin_connected, ..st })
            &&& step.all_answers() == Seq::<(S, Seq<char>)>::empty()
            &&& step is Ignored || step.stops()
            &&& (event matches OriginEvent::Message(m) && !(m is Simple)) ==> step is Detached
        }),
{
}

/// After a newer route, the feed of the old one has no say any more.
pub proof fn law_newer_route_cuts_off_the_old_feed<S, W>(
    st: LlView<S, W>,
    known: route::RouteView,
    stream_key: Option<Seq<char>>,
    new: route::RouteView,
    msg: OriginMsg,
)
    requires
        st.origin_route == Some(known),
        route::route_change(Some(known), st.stream_key, stream_key, Ok(new)) == Ok::<
            RouteChange,
            RouteError,
        >(RouteChange::Newer),
        !(msg is Simple),
    ensures
        st.configured(RouteChange::Newer, stream_key->0, new).after_event(
            known,
            OriginEvent::Message(msg),
        ).1 is Detached,
{
}

/// The feed disconnects no viewer before the stream ends, and never lets another request wait.
/// Where fewer requests wait than may, one more does not exceed the limit.
pub proof fn law_feed_keeps_viewers_and_capacity<S, W>(
    st: LlView<S, W>,
    link: route::RouteView,
    event: OriginEvent,
)
    ensures
        ({
            let (after, step) = st.after_event(link, event);
            &&& step is Ended || after.viewer_ws == st.viewer_ws
            &&& after.http_waiters.len() <= st.http_waiters.len()
            &&& after.master_waiters.len() <= st.master_waiters.len()
        }),
        st.http_waiters.len() <= waiting::MAX_WAITERS_PER_SHARD && !waiting::is_full(
            st.http_waiters.len(),
        ) ==> st.http_waiters.len() + 1 <= waiting::MAX_WAITERS_PER_SHARD,
        st.master_waiters.len() <= waiting::MAX_WAITERS_PER_SHARD && st.master_reply() is None
            ==> st.master_waiters.len() + 1 <= waiting::MAX_WAITERS_PER_SHARD,
{
    if let OriginEvent::Message(OriginMsg::Part { msn, part, playlist }) = event {
        law_blocked_requests_are_answered_when_reached(st, msn, part, playlist@);
    }
}

/// A request that is done at once, refused or answered, leaves the object as it was. A request
/// is made to wait only for what the object cannot give it: it waits with an alarm set, and
/// with the feed open, unless no feed can be opened. The same holds of a request that goes on
/// after its stream key was stored: a playlist request then waits if and only if the stream runs
/// and has no playlist, or none that has reached the position that is asked for.
pub proof fn law_requests_wait_only_for_the_future<S, W>(
    st: LlView<S, W>,
    kind: FetchKind,
    stream_key: Option<Seq<char>>,
    route: Result<route::RouteView, RouteError>,
    is_initial: bool,
    query: HlsQuery,
    secret: Option<Seq<char>>,
)
    ensures
        ({
            let (after, action) = st.fetched(kind, stream_key, route, is_initial, query, secret);
            &&& action is Reply || action is Fail || action is Clear ==> after == st
            &&& action matches ActionView::Enlist { feed, alarm_ms } ==> {
                &&& alarm_ms == waiting::VIEWER_TIMEOUT_MS
                &&& after.origin_connected <==> feed is Ok
                &&& kind == FetchKind::Playlist ==> !st.should_clear && (st.playlist.len() == 0 || (
                !is_initial && !protocol::reached(
                    st.current_msn,
                    st.current_part,
                    query.msn,
                    query.part,
                )))
                &&& kind == FetchKind::Master ==> st.master_playlist.len() == 0 && !st.should_clear
                &&& kind != FetchKind::Viewer
            }
        }),
        ({
            let (after, action) = st.routed(kind, is_initial, query, secret);
            &&& action is Reply || action is Clear ==> after == st
            &&& action matches ActionView::Enlist { feed, alarm_ms } ==> {
                &&& alarm_ms == waiting::VIEWER_TIMEOUT_MS
                &&& after.origin_connected <==> feed is Ok
            }
            &&& kind == FetchKind::Master ==> action is Enlist
            &&& kind == FetchKind::Viewer ==> action is Upgrade
            &&& kind == FetchKind::Playlist ==> {
                &&& action is Clear <==> st.should_clear
                &&& action is Enlist <==> !st.should_clear && (st.playlist.len() == 0 || (
                !is_initial && !protocol::reached(
                    st.current_msn,
                    st.current_part,
                    query.msn,
                    query.part,
                )))
                &&& action is Reply || action is Clear || action is Enlist
            }
        }),
{
}

/// The position of a playlist as one number.
pub open spec fn position(msn: u64, part: u32) -> int {
    msn * 0x1_0000_0000 + part
}

/// A playlist request for the known stream and route is answered by what the object holds. A full
/// object turns it away; an ended stream gives its last playlist; a playlist that is there and has
/// reached the position is handed out whole; and in any other case the request waits for five
/// seconds at most, with the feed of that stream open. Nothing but the feed is touched.
pub proof fn law_playlist_requests_get_what_they_ask_for<S, W>(
    st: LlView<S, W>,
    route: route::RouteView,
    is_initial: bool,
    query: HlsQuery,
    secret: Option<Seq<char>>,
)
    requires
        st.origin_route == Some(route),
        st.stream_key.len() > 0,
    ensures
        ({
            let (after, action) = st.fetched(
                FetchKind::Playlist,
                Some(st.stream_key),
                Ok(route),
                is_initial,
                query,
                secret,
            );
            let there = st.playlist.len() > 0 && (is_initial || position(
                st.current_msn,
                st.current_part,
            ) >= position(query.msn, query.part));
            if st.http_waiters.len() >= 500 {
                &&& after == st
                &&& action matches ActionView::Reply(r)
                &&& r.status == 503
                &&& r.body == "Shard full"@
            } else if st.should_clear {
                &&& after == st
                &&& action matches ActionView::Clear { alarm_ms, playlist }
                &&& alarm_ms == 1
                &&& playlist == st.playlist
            } else if there {
                &&& after == st
                &&& action matches ActionView::Reply(r)
                &&& r.status == 200
                &&& r.body == st.playlist
                &&& r == http::ll_playlist_view(st.playlist, 0)
            } else {
                &&& after == (LlView { origin_connected: true, ..st })
                &&& action matches ActionView::Enlist { feed, alarm_ms }
                &&& alarm_ms == 5000
                &&& feed == Ok::<_, RouteError>(
                    if st.origin_connected {
                        None
                    } else {
                        Some((route::feed_url(st.stream_key, route.origin_base_url, secret), route))
                    },
                )
            }
        }),
{
}

/// A request that has waited gets the text that it was answered with, whole and whatever state
/// the object is in by then, and what the object holds if it was not answered.
pub proof fn law_waiting_requests_get_their_answer<S, W>(st: LlView<S, W>, answer: Seq<char>)
    ensures
        st.settled_playlist(Some(answer)).status == 200,
        st.settled_playlist(Some(answer)).body == answer,
        st.settled_playlist(Some(answer)) == http::ll_playlist_view(answer, 0),
        st.settled_playlist(None).status == 200,
        st.settled_playlist(None).body == st.playlist,
        answer.len() > 0 ==> st.settled_master(Some(answer)).status == 200 && st.settled_master(
            Some(answer),
        ).body == answer && st.settled_master(Some(answer)) == http::master_playlist_view(answer),
        answer.len() == 0 ==> st.settled_master(Some(answer)).status == 404 && st.settled_master(
            Some(answer),
        ).body == "Master not available"@,
        st.master_playlist.len() > 0 ==> st.settled_master(None).status == 200
            && st.settled_master(None).body == st.master_playlist,
        st.master_playlist.len() == 0 ==> st.settled_master(None).status == 404
            && st.settled_master(None).body == "Master not available"@,
{
}

/// A request for the master playlist gets it whole if it is there, by whatever route it came. If it
/// is not, an ended stream has none, a full object turns the request away, and otherwise the
/// request for the known stream and route waits for five seconds at most, with the feed open.
pub proof fn law_master_requests_get_what_they_ask_for<S, W>(
    st: LlView<S, W>,
    stream_key: Option<Seq<char>>,
    carried: Result<route::RouteView, RouteError>,
    is_initial: bool,
    query: HlsQuery,
    secret: Option<Seq<char>>,
)
    ensures
        ({
            let (after, action) = st.fetched(
                FetchKind::Master,
                stream_key,
                carried,
                is_initial,
                query,
                secret,
            );
            let known = stream_key == Some(st.stream_key) && st.stream_key.len() > 0 && carried is Ok
                && st.origin_route == Some(carried->Ok_0);
            if st.master_playlist.len() > 0 {
                &&& after == st
                &&& action matches ActionView::Reply(r)
                &&& r.status == 200
                &&& r.body == st.master_playlist
                &&& r == http::master_playlist_view(st.master_playlist)
            } else if st.should_clear {
                &&& after == st
                &&& action matches ActionView::Reply(r)
                &&& r.status == 404
                &&& r.body == "Stream ended"@
            } else if st.master_waiters.len() >= 500 {
                &&& after == st
                &&& action matches ActionView::Reply(r)
                &&& r.status == 503
                &&& r.body == "Shard full"@
            } else {
                known ==> {
                    &&& after == (LlView { origin_connected: true, ..st })
                    &&& action matches ActionView::Enlist { feed, alarm_ms }
                    &&& alarm_ms == 5000
                    &&& feed == Ok::<_, RouteError>(
                        if st.origin_connected {
                            None
                        } else {
                            Some(
                                (
                                    route::feed_url(
                                        st.stream_key,
                                        carried->Ok_0.origin_base_url,
                                        secret,
                                    ),
                                    carried->Ok_0,
                                ),
                            )
                        },
                    )
                }
            }
        }),
{
}

/// A viewer of the known stream and route is always accepted, with the feed open, however many
/// requests wait. It is sent the current part at once if there is one, and the end if the stream
/// is over.
pub proof fn law_viewers_are_always_accepted<S, W>(
    st: LlView<S, W>,
    route: route::RouteView,
    is_initial: bool,
    query: HlsQuery,
    secret: Option<Seq<char>>,
)
    requires
        st.origin_route == Some(route),
        st.stream_key.len() > 0,
    ensures
        ({
            let (after, action) = st.fetched(
                FetchKind::Viewer,
                Some(st.stream_key),
                Ok(route),
                is_initial,
                query,
                secret,
            );
            &&& after == (LlView { origin_connected: true, ..st })
            &&& action matches ActionView::Upgrade { feed }
            &&& feed == Ok::<_, RouteError>(
                if st.origin_connected {
                    None
                } else {
                    Some((route::feed_url(st.stream_key, route.origin_base_url, secret), route))
                },
            )
        }),
        st.should_clear ==> st.greeting() == GreetingView::Goodbye(
            protocol::viewer_json(ViewerView::End),
        ),
        !st.should_clear && st.playlist.len() == 0 ==> st.greeting() == GreetingView::Welcome(None),
        !st.should_clear && st.playlist.len() > 0 ==> st.greeting() == GreetingView::Welcome(
            Some(
                protocol::viewer_json(
                    ViewerView::Part {
                        msn: st.current_msn,
                        part: st.current_part,
                        playlist: st.playlist,
                    },
                ),
            ),
        ),
{
}

/// A request with a newer route starts the object over, wherever the stream has moved: the
/// playlists are gone, everybody who waited is answered with nothing, in order, the viewers stay,
/// and the stream and the route are those of the request. A first route is taken the same way with
/// nothing to start over. A request whose route is refused fails with the reason, and changes
/// nothing. None of this is decided for a request that is answered or turned away before.
pub proof fn law_newer_routes_start_over<S, W>(
    st: LlView<S, W>,
    known: route::RouteView,
    kind: FetchKind,
    key: Seq<char>,
    new: route::RouteView,
    is_initial: bool,
    query: HlsQuery,
    secret: Option<Seq<char>>,
)
    requires
        key.len() > 0,
        kind == FetchKind::Playlist ==> st.http_waiters.len() < 500,
        kind == FetchKind::Master ==> st.master_playlist.len() == 0 && !st.should_clear
            && st.master_waiters.len() < 500,
    ensures
        ({
            let (after, action) = st.fetched(kind, Some(key), Ok(new), is_initial, query, secret);
            &&& st.origin_route is None ==> {
                &&& after == (LlView { stream_key: key, origin_route: Some(new), ..st })
                &&& action matches ActionView::Store { key: stored, answers }
                &&& stored == key
                &&& answers.len() == 0
            }
            &&& st.origin_route == Some(known) && new.route_version > known.route_version ==> {
                &&& after.current_msn == 0
                &&& after.current_part == 0
                &&& after.playlist.len() == 0
                &&& after.master_playlist.len() == 0
                &&& after.http_waiters.len() == 0
                &&& after.master_waiters.len() == 0
                &&& !after.origin_connected
                &&& !after.should_clear
                &&& after.stream_key == key
                &&& after.origin_route == Some(new)
                &&& after.viewer_ws == st.viewer_ws
                &&& after.initialized == st.initialized
                &&& action matches ActionView::Store { key: stored, answers }
                &&& stored == key
                &&& answers.len() == st.http_waiters.len() + st.master_waiters.len()
                &&& forall|i: int|
                    0 <= i < st.http_waiters.len() ==> #[trigger] answers[i] == (
                        st.http_waiters[i].2,
                        Seq::<char>::empty(),
                    )
                &&& forall|i: int|
                    st.http_waiters.len() <= i < answers.len() ==> #[trigger] answers[i] == (
                        st.master_waiters[i - st.http_waiters.len()],
                        Seq::<char>::empty(),
                    )
                &&& after.feed(secret) == Ok::<_, RouteError>(
                    Some((route::feed_url(key, new.origin_base_url, secret), new)),
                )
            }
            &&& st.origin_route == Some(known) && new.route_version < known.route_version ==> after
                == st && action == ActionView::<S>::Fail(RouteError::Stale)
            &&& st.origin_route == Some(known) && new.route_version == known.route_version && (new
                != known || key != st.stream_key) ==> after == st && action
                == ActionView::<S>::Fail(RouteError::Conflicting)
            &&& st.fetched(kind, None, Ok(new), is_initial, query, secret) == (
                st,
                ActionView::<S>::Fail(RouteError::MissingStreamKey),
            )
            &&& st.fetched(kind, Some(Seq::empty()), Ok(new), is_initial, query, secret) == (
                st,
                ActionView::<S>::Fail(RouteError::MissingStreamKey),
            )
            &&& forall|e: RouteError|
                #[trigger] st.fetched(kind, Some(key), Err(e), is_initial, query, secret) == (
                    st,
                    ActionView::<S>::Fail(e),
                )
        }),
{
}

/// What a route does to the object is the same wherever it is taken: the same route does nothing,
/// the first sets stream and route alone, and only a newer one sends requests away.
pub proof fn law_routes_touch_only_what_they_must<S, W>(
    st: LlView<S, W>,
    key: Seq<char>,
    new: route::RouteView,
)
    ensures
        st.configured(RouteChange::Same, key, new) == st,
        st.configured(RouteChange::First, key, new) == (LlView {
            stream_key: key,
            origin_route: Some(new),
            ..st
        }),
        st.configured(RouteChange::Newer, key, new) == (LlView {
            stream_key: key,
            origin_route: Some(new),
            viewer_ws: st.viewer_ws,
            initialized: st.initialized,
            ..LlView::<S, W>::fresh()
        }),
        st.sent_away(RouteChange::Same).len() == 0,
        st.sent_away(RouteChange::First).len() == 0,
        st.sent_away(RouteChange::Newer).len() == st.http_waiters.len() + st.master_waiters.len(),
        forall|i: int|
            0 <= i < st.sent_away(RouteChange::Newer).len() ==> #[trigger] st.sent_away(
                RouteChange::Newer,
            )[i] == (
                if i < st.http_waiters.len() {
                    st.http_waiters[i].2
                } else {
                    st.master_waiters[i - st.http_waiters.len()]
                },
                Seq::<char>::empty(),
            ),
{
}

/// A part on the feed of the known route becomes the current one, whatever it is. The requests
/// that it satisfies leave with its playlist, in the order in which they came, and all others stay
/// in theirs. The viewers are pushed exactly this part, and the origin learns how many there were
/// before anybody was answered. Nothing else changes.
pub proof fn law_parts_are_taken_and_handed_on<S, W>(
    st: LlView<S, W>,
    link: route::RouteView,
    msn: u64,
    part: u32,
    playlist: String,
)
    requires
        st.origin_route == Some(link),
    ensures
        ({
            let (after, step) = st.after_event(
                link,
                OriginEvent::Message(OriginMsg::Part { msn, part, playlist }),
            );
            let is_due = |w: (u64, u32, S)| protocol::reached(msn, part, w.0, w.1);
            let is_pending = |w: (u64, u32, S)| !protocol::reached(msn, part, w.0, w.1);
            let due = st.http_waiters.filter(is_due);
            &&& after == (LlView {
                current_msn: msn,
                current_part: part,
                playlist: playlist@,
                http_waiters: st.http_waiters.filter(is_pending),
                ..st
            })
            &&& step matches StepView::Updated { answers, push, report }
            &&& answers.len() == due.len()
            &&& forall|i: int|
                0 <= i < due.len() ==> #[trigger] answers[i] == (due[i].2, playlist@)
            &&& push == protocol::viewer_json(ViewerView::Part { msn, part, playlist: playlist@ })
            &&& report == protocol::report_json(
                DoMsg::Viewers {
                    count: ((st.http_waiters.len() + st.viewer_ws.len()) % 0x1_0000_0000) as u32,
                    msn,
                    part,
                },
            )
        }),
{
}

/// A request that waits for a position gets, when a part has reached it, the playlist of that part:
/// it is answered with it, and the reply has status 200 and that playlist as its body. From then
/// on every request for that position gets the same reply at once, until the stream moves on.
pub proof fn law_reached_requests_get_the_pushed_playlist<S, W>(
    st: LlView<S, W>,
    link: route::RouteView,
    msn: u64,
    part: u32,
    playlist: String,
    i: int,
    query: HlsQuery,
    secret: Option<Seq<char>>,
)
    requires
        st.origin_route == Some(link),
        st.stream_key.len() > 0,
        !st.should_clear,
        playlist@.len() > 0,
        0 <= i < st.http_waiters.len() <= 500,
        position(msn, part) >= position(st.http_waiters[i].0, st.http_waiters[i].1),
        position(msn, part) >= position(query.msn, query.part),
    ensures
        ({
            let (after, step) = st.after_event(
                link,
                OriginEvent::Message(OriginMsg::Part { msn, part, playlist }),
            );
            &&& step.all_answers().contains((st.http_waiters[i].2, playlist@))
            &&& after.settled_playlist(Some(playlist@)).status == 200
            &&& after.settled_playlist(Some(playlist@)).body == playlist@
            &&& after.fetched(
                FetchKind::Playlist,
                Some(st.stream_key),
                Ok(link),
                false,
                query,
                secret,
            ).1 == ActionView::<S>::Reply(after.settled_playlist(Some(playlist@)))
        }),
{
    let after = st.after_event(
        link,
        OriginEvent::Message(OriginMsg::Part { msn, part, playlist }),
    ).0;
    law_blocked_requests_are_answered_when_reached(st, msn, part, playlist@);
    let is_pending = |w: (u64, u32, S)| !protocol::reached(msn, part, w.0, w.1);
    assert(after.http_waiters == st.http_waiters.filter(is_pending));
    assert(after.http_waiters.len() < 500) by {
        lemma_filter_drops_one(st.http_waiters, is_pending, i);
    }
    law_playlist_requests_get_what_they_ask_for(after, link, false, query, secret);
}

proof fn lemma_filter_drops_one<A>(s: Seq<A>, pred: spec_fn(A) -> bool, i: int)
    requires
        0 <= i < s.len(),
        !pred(s[i]),
    ensures
        s.filter(pred).len() < s.len(),
    decreases s.len(),
{
    reveal(Seq::filter);
    let front = s.drop_last();
    front.lemma_filter_len(pred);
    if i < front.len() {
        lemma_filter_drops_one(front, pred, i);
    }
}

/// A master playlist on the feed of the known route is taken, every request that waits for one
/// leaves with it, in order, and each of them is then replied with it: status 200, and that text as
/// the body. Nothing else changes.
pub proof fn law_master_playlists_are_taken_and_handed_on<S, W>(
    st: LlView<S, W>,
    link: route::RouteView,
    playlist: String,
)
    requires
        st.origin_route == Some(link),
    ensures
        ({
            let (after, step) = st.after_event(
                link,
                OriginEvent::Message(OriginMsg::Master { playlist }),
            );
            &&& after == (LlView {
                master_playlist: playlist@,
                master_waiters: Seq::empty(),
                ..st
            })
            &&& step matches StepView::Woken { answers }
            &&& answers.len() == st.master_waiters.len()
            &&& forall|i: int|
                0 <= i < answers.len() ==> #[trigger] answers[i] == (
                    st.master_waiters[i],
                    playlist@,
                )
            &&& playlist@.len() > 0 ==> forall|i: int|
                0 <= i < answers.len() ==> {
                    let reply = after.settled_master(Some((#[trigger] answers[i]).1));
                    reply.status == 200 && reply.body == playlist@
                }
        }),
{
}

/// The end on the feed of the known route answers everybody, in order, with the last playlists, and
/// sends all viewers away with the same last message. The playlists stay until they are cleared.
pub proof fn law_the_end_answers_everybody<S, W>(st: LlView<S, W>, link: route::RouteView)
    requires
        st.origin_route == Some(link),
    ensures
        ({
            let (after, step) = st.after_event(link, OriginEvent::Message(OriginMsg::End));
            let n = st.http_waiters.len();
            &&& after == (LlView {
                http_waiters: Seq::empty(),
                master_waiters: Seq::empty(),
                viewer_ws: Seq::empty(),
                should_clear: true,
                origin_connected: false,
                ..st
            })
            &&& step matches StepView::Ended { answers, farewell, viewers }
            &&& answers.len() == n + st.master_waiters.len()
            &&& forall|i: int|
                0 <= i < n ==> #[trigger] answers[i] == (st.http_waiters[i].2, st.playlist)
            &&& forall|i: int|
                n <= i < answers.len() ==> #[trigger] answers[i] == (
                    st.master_waiters[i - n],
                    st.master_playlist,
                )
            &&& farewell == "{\"type\":\"end\"}"@
            &&& viewers == st.viewer_ws
        }),
{
}

/// Whatever else happens on a feed changes at most whether the object counts as connected: what
/// cannot be read and what is meant for the other kind of object is ignored, a lost feed is closed,
/// and so is the feed of another route when it says anything.
pub proof fn law_everything_else_is_ignored_or_closes_the_feed<S, W>(
    st: LlView<S, W>,
    link: route::RouteView,
    msg: OriginMsg,
)
    ensures
        st.after_event(link, OriginEvent::Unreadable) == (st, StepView::<S, W>::Ignored),
        st.after_event(link, OriginEvent::Lost) == (
            LlView { origin_connected: false, ..st },
            StepView::<S, W>::Lost,
        ),
        msg is Simple ==> st.after_event(link, OriginEvent::Message(msg)) == (
            st,
            StepView::<S, W>::Ignored,
        ),
        msg !is Simple && st.origin_route != Some(link) ==> st.after_event(
            link,
            OriginEvent::Message(msg),
        ) == (LlView { origin_connected: false, ..st }, StepView::<S, W>::Detached),
{
}

/// A new object holds nothing. What was stored is taken over as it is, and what was not is empty.
/// A timeout takes out the waiting requests and nothing else, and clearing takes away the playlist,
/// the mark of the end and the requests for the master playlist, and nothing else.
pub proof fn law_objects_begin_and_end_empty<S, W>(
    st: LlView<S, W>,
    msn: u64,
    part: u32,
    playlist: Seq<char>,
)
    ensures
        ({
            let new = LlView::<S, W>::fresh();
            &&& new.current_msn == 0
            &&& new.current_part == 0
            &&& new.playlist.len() == 0
            &&& new.stream_key.len() == 0
            &&& new.origin_route is None
            &&& new.http_waiters.len() == 0
            &&& new.viewer_ws.len() == 0
            &&& !new.initialized
            &&& !new.origin_connected
            &&& !new.should_clear
            &&& new.master_playlist.len() == 0
            &&& new.master_waiters.len() == 0
        }),
        st.restored(Some(msn), Some(part), Some(playlist)) == (LlView {
            current_msn: msn,
            current_part: part,
            playlist,
            initialized: true,
            ..st
        }),
        st.restored(None, Some(part), Some(playlist)) == (LlView {
            current_msn: 0,
            ..st.restored(Some(msn), Some(part), Some(playlist))
        }),
        st.restored(Some(msn), None, Some(playlist)) == (LlView {
            current_part: 0,
            ..st.restored(Some(msn), Some(part), Some(playlist))
        }),
        st.restored(Some(msn), Some(part), None) == (LlView {
            playlist: Seq::empty(),
            ..st.restored(Some(msn), Some(part), Some(playlist))
        }),
        st.restored(None, None, None) == (LlView {
            current_msn: 0,
            current_part: 0,
            playlist: Seq::empty(),
            initialized: true,
            ..st
        }),
        st.drained() == (LlView {
            http_waiters: Seq::empty(),
            master_waiters: Seq::empty(),
            ..st
        }),
        st.cleared() == (LlView {
            playlist: Seq::empty(),
            should_clear: false,
            master_waiters: Seq::empty(),
            ..st
        }),
        st.head_count() == (st.http_waiters.len() + st.viewer_ws.len()) % 0x1_0000_0000,
        forall|i: int|
            0 <= i < st.http_waiters.len() ==> #[trigger] senders(st.http_waiters)[i]
                == st.http_waiters[i].2,
        senders(st.http_waiters).len() == st.http_waiters.len(),
{
}

/// An object is taken as it is.
pub proof fn law_objects_are_taken_as_they_are<S, W>(o: LlHlsInner<S, W>)
    ensures
        o@.current_msn == o.current_msn,
        o@.current_part == o.current_part,
        o@.playlist == o.playlist@,
        o@.stream_key == o.stream_key@,
        o@.origin_route == route::opt_route(o.origin_route),
        o@.http_waiters == o.http_waiters@,
        o@.viewer_ws == o.viewer_ws@,
        o@.initialized == o.initialized,
        o@.origin_connected == o.origin_connected,
        o@.should_clear == o.should_clear,
        o@.master_playlist == o.master_playlist@,
        o@.master_waiters == o.master_waiters@,
{
}

/// A request that goes on after its stream key was stored is treated as one whose route was known
/// all along, and each single decision is the one that the whole request leads to.
pub proof fn law_stored_requests_go_on_as_known_ones<S, W>(
    st: LlView<S, W>,
    route: route::RouteView,
    kind: FetchKind,
    is_initial: bool,
    query: HlsQuery,
    secret: Option<Seq<char>>,
)
    requires
        st.origin_route == Some(route),
        st.stream_key.len() > 0,
        kind == FetchKind::Playlist ==> st.http_waiters.len() < 500,
        kind == FetchKind::Master ==> st.master_playlist.len() == 0 && !st.should_clear
            && st.master_waiters.len() < 500,
    ensures
        st.routed(kind, is_initial, query, secret) == st.fetched(
            kind,
            Some(st.stream_key),
            Ok(route),
            is_initial,
            query,
            secret,
        ),
        st.feed(secret) == Ok::<_, RouteError>(
            if st.origin_connected {
                None
            } else {
                Some((route::feed_url(st.stream_key, route.origin_base_url, secret), route))
            },
        ),
        st.connected(secret) == (LlView { origin_connected: true, ..st }),
        kind == FetchKind::Playlist ==> st.routed(kind, is_initial, query, secret).1 == (
        match st.playlist_step(is_initial, query) {
            PlaylistStepView::Clear(playlist) => ActionView::<S>::Clear { alarm_ms: 1, playlist },
            PlaylistStepView::Now(reply) => ActionView::Reply(reply),
            PlaylistStepView::Wait => ActionView::Enlist {
                feed: st.feed(secret),
                alarm_ms: 5000,
            },
        }),
{
}

/// An object without a route or without a stream opens no feed and says why.
pub proof fn law_feeds_need_a_route_and_a_stream<S, W>(st: LlView<S, W>, secret: Option<Seq<char>>)
    requires
        !st.origin_connected,
        st.origin_route is None || st.stream_key.len() == 0,
    ensures
        st.connected(secret) == st,
        st.origin_route is None ==> st.feed(secret) == Err::<Option<(Seq<char>, route::RouteView)>, _>(
            RouteError::RouteNotSet,
        ),
        st.origin_route is Some ==> st.feed(secret) == Err::<Option<(Seq<char>, route::RouteView)>, _>(
            RouteError::StreamKeyNotSet,
        ),
{
}

/// What an object says of the master playlist without waiting is what a request for it gets.
pub proof fn law_master_replies_are_given_at_once<S, W>(st: LlView<S, W>)
    ensures
        st.master_reply() is None <==> st.master_playlist.len() == 0 && !st.should_clear
            && st.master_waiters.len() < 500,
        st.master_playlist.len() > 0 ==> (st.master_reply() matches Some(r) && r.status == 200
            && r.body == st.master_playlist && r == http::master_playlist_view(st.master_playlist)),
        st.master_playlist.len() == 0 && st.should_clear ==> (st.master_reply() matches Some(r)
            && r.status == 404 && r.body == "Stream ended"@),
        st.master_playlist.len() == 0 && !st.should_clear && st.master_waiters.len() >= 500 ==> (
        st.master_reply() matches Some(r) && r.status == 503 && r.body == "Shard full"@),
{
}

/// Waiting and joining put a request or a viewer behind those that are there, and touch nothing
/// else. Whoever waits for a position waits for the one that was asked for.
pub proof fn law_calls_let_requests_wait<S, W>(
    o: &mut LlHlsInner<S, W>,
    p: &mut LlHlsInner<S, W>,
    q: &mut LlHlsInner<S, W>,
    query: HlsQuery,
    tx: S,
    ws: W,
)
    requires
        call_ensures(LlHlsInner::<S, W>::wait_for_playlist, (o, &query, tx), ()),
        call_ensures(LlHlsInner::<S, W>::wait_for_master, (p, tx), ()),
        call_ensures(LlHlsInner::<S, W>::add_viewer, (q, ws), ()),
    ensures
        final(o)@ == (LlView {
            http_waiters: old(o)@.http_waiters + seq![(query.msn, query.part, tx)],
            ..old(o)@
        }),
        final(p)@ == (LlView { master_waiters: old(p)@.master_waiters + seq![tx], ..old(p)@ }),
        final(q)@ == (LlView { viewer_ws: old(q)@.viewer_ws + seq![ws], ..old(q)@ }),
{
    assert(old(o)@.http_waiters.push((query.msn, query.part, tx)) =~= old(o)@.http_waiters + seq![
        (query.msn, query.part, tx),
    ]);
    assert(old(p)@.master_waiters.push(tx) =~= old(p)@.master_waiters + seq![tx]);
    assert(old(q)@.viewer_ws.push(ws) =~= old(q)@.viewer_ws + seq![ws]);
}

/// An alarm clears an ended stream and otherwise answers everybody who waits, in order, with the
/// playlists that there are. Clearing answers those who wait for the master playlist with the one
/// it is given. Nothing else changes.
pub proof fn law_alarms_answer_everybody<S, W>(
    o: &mut LlHlsInner<S, W>,
    p: &mut LlHlsInner<S, W>,
    seen: LlHlsInner<S, W>,
    master: String,
    timed_out: Vec<(S, String)>,
    cleared: Vec<(S, String)>,
    plan: AlarmPlan,
)
    requires
        call_ensures(LlHlsInner::<S, W>::drain_on_timeout, (o,), timed_out),
        call_ensures(LlHlsInner::<S, W>::clear_ended, (p, master), cleared),
        call_ensures(LlHlsInner::<S, W>::plan_alarm, (&seen,), plan),
    ensures
        ({
            let n = old(o).http_waiters@.len();
            &&& timed_out@.len() == n + old(o).master_waiters@.len()
            &&& forall|i: int|
                0 <= i < n ==> (#[trigger] timed_out@[i]).0 == old(o).http_waiters@[i].2
                    && timed_out@[i].1@ == old(o).playlist@
            &&& forall|i: int|
                n <= i < timed_out@.len() ==> (#[trigger] timed_out@[i]).0 == old(
                    o,
                ).master_waiters@[i - n] && timed_out@[i].1@ == old(o).master_playlist@
            &&& final(o)@ == (LlView {
                http_waiters: Seq::empty(),
                master_waiters: Seq::empty(),
                ..old(o)@
            })
        }),
        cleared@.len() == old(p).master_waiters@.len(),
        forall|i: int|
            0 <= i < cleared@.len() ==> (#[trigger] cleared@[i]).0 == old(p).master_waiters@[i]
                && cleared@[i].1@ == master@,
        final(p)@ == (LlView {
            playlist: Seq::empty(),
            should_clear: false,
            master_waiters: Seq::empty(),
            ..old(p)@
        }),
        plan is Clear <==> seen.should_clear,
        plan matches AlarmPlan::Clear { master: last } ==> last@ == seen.master_playlist@,
{
    let a = waiting::answers(timed_out@);
    assert(a.len() == timed_out@.len());
    assert forall|i: int| 0 <= i < timed_out@.len() implies a[i] == (
        (#[trigger] timed_out@[i]).0,
        timed_out@[i].1@,
    ) by {}
    let b = waiting::answers(cleared@);
    assert(b.len() == cleared@.len());
    assert forall|i: int| 0 <= i < cleared@.len() implies b[i] == (
        (#[trigger] cleared@[i]).0,
        cleared@[i].1@,
    ) by {}
}

/// After a message was pushed, exactly the viewers that it reached stay, and when all are sent away
/// each gets the same last message. Nothing else changes.
pub proof fn law_calls_keep_the_viewers_that_were_reached<S, W>(
    o: &mut LlHlsInner<S, W>,
    p: &mut LlHlsInner<S, W>,
    delivered: Vec<bool>,
    sent_away: (String, Vec<W>),
)
    requires
        old(o).viewer_ws@.len() == delivered@.len(),
        call_ensures(LlHlsInner::<S, W>::fan_out_ws, (o, &delivered), ()),
        call_ensures(LlHlsInner::<S, W>::close_all_viewer_ws, (p,), sent_away),
    ensures
        final(o)@ == (LlView { viewer_ws: final(o)@.viewer_ws, ..old(o)@ }),
        forall|i: int|
            0 <= i < delivered@.len() && delivered@[i] ==> final(o)@.viewer_ws.contains(
                #[trigger] old(o).viewer_ws@[i],
            ),
        forall|w: W|
            #[trigger] final(o)@.viewer_ws.contains(w) ==> exists|i: int|
                0 <= i < delivered@.len() && delivered@[i] && #[trigger] old(o).viewer_ws@[i] == w,
        final(p)@ == (LlView { viewer_ws: Seq::empty(), ..old(p)@ }),
        sent_away.0@ == "{\"type\":\"end\"}"@,
        sent_away.1@ == old(p).viewer_ws@,
{
    waiting::law_reached_viewers_stay(old(o).viewer_ws@, delivered@);
}

/// Whatever is replied to a request that has waited, it is the text that it was answered with.
pub proof fn law_calls_settle_requests_with_their_answer<S, W>(
    o: LlHlsInner<S, W>,
    answer: String,
    reply: Reply,
    master: Reply,
    fresh: bool,
)
    requires
        call_ensures(LlHlsInner::<S, W>::settle_playlist, (&o, Some(answer)), reply),
        call_ensures(LlHlsInner::<S, W>::settle_master, (&o, Some(answer)), master),
        call_ensures(LlHlsInner::<S, W>::needs_restore, (&o,), fresh),
    ensures
        reply.status == 200,
        reply.body@ == answer@,
        answer@.len() > 0 ==> master.status == 200 && master.body@ == answer@,
        answer@.len() == 0 ==> master.status == 404,
        fresh <==> !o.initialized,
{
    assert(reply@.body == reply.body@);
    assert(master@.body == master.body@);
}

} // verus!
