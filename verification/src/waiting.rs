//! Requests that wait for a playlist and viewers that are pushed one.
//!
//! `S` is what a waiting request is answered through, `W` a viewer's connection. Each is only
//! carried here, and a waiting request leaves with the text it is to be answered with.

use crate::http;
use crate::http::Reply;
use crate::text;
use vstd::prelude::*;

verus! {

/// What is done with a playlist request.
#[derive(Debug, PartialEq, Eq)]
pub enum PlaylistStep {
    /// Have the state of the ended stream cleared, and reply with this last playlist.
    Clear(String),
    /// Reply.
    Now(Reply),
    /// Let the request wait.
    Wait,
}

/// A playlist step with its text and its reply as views.
pub enum PlaylistStepView {
    Clear(Seq<char>),
    Now(http::ReplyView),
    Wait,
}

impl View for PlaylistStep {
    type V = PlaylistStepView;

    open spec fn view(&self) -> PlaylistStepView {
        match *self {
            PlaylistStep::Clear(s) => PlaylistStepView::Clear(s@),
            PlaylistStep::Now(r) => PlaylistStepView::Now(r@),
            PlaylistStep::Wait => PlaylistStepView::Wait,
        }
    }
}

/// What a new viewer is sent.
#[derive(Debug, PartialEq, Eq)]
pub enum Greeting {
    /// The stream is over: this last message, and no connection.
    Goodbye(String),
    /// The message to begin with, if there is one.
    Welcome(Option<String>),
}

/// A greeting with its message as a sequence.
pub enum GreetingView {
    Goodbye(Seq<char>),
    Welcome(Option<Seq<char>>),
}

impl View for Greeting {
    type V = GreetingView;

    open spec fn view(&self) -> GreetingView {
        match *self {
            Greeting::Goodbye(s) => GreetingView::Goodbye(s@),
            Greeting::Welcome(o) => GreetingView::Welcome(text::opt_text(o)),
        }
    }
}

/// The waiting requests and the texts that answer them.
pub open spec fn answers<S>(v: Seq<(S, String)>) -> Seq<(S, Seq<char>)> {
    v.map_values(|a: (S, String)| (a.0, a.1@))
}

/// Every waiting request with the same text.
pub open spec fn answered<S>(waiters: Seq<S>, text: Seq<char>) -> Seq<(S, Seq<char>)> {
    waiters.map_values(|w: S| (w, text))
}

/// The answered requests, without their texts.
pub open spec fn answered_waiters<S>(a: Seq<(S, Seq<char>)>) -> Seq<S> {
    a.map_values(|p: (S, Seq<char>)| p.0)
}

/// The viewers to which the last message could be delivered, in their order.
pub open spec fn kept<W>(viewers: Seq<W>, delivered: Seq<bool>) -> Seq<W>
    decreases viewers.len(),
{
    if viewers.len() == 0 {
        viewers
    } else {
        let front = kept(viewers.drop_last(), delivered.drop_last());
        if delivered.last() {
            front.push(viewers.last())
        } else {
            front
        }
    }
}

/// The number of waiting requests and viewers together, as it is reported: modulo 2^32.
pub open spec fn head_count(waiters: nat, viewers: nat) -> u32 {
    ((waiters + viewers) % 0x1_0000_0000) as u32
}

/// Whether another request has to be turned away: as many wait as may.
pub open spec fn is_full(waiters: nat) -> bool {
    waiters >= MAX_WAITERS_PER_SHARD
}

/// The number of requests that may wait on one shard for one kind of playlist.
pub const MAX_WAITERS_PER_SHARD: u32 = 500;

/// After this many milliseconds all waiting requests are answered with what there is.
pub const VIEWER_TIMEOUT_MS: i64 = 5_000;

/// After this many milliseconds the state of an ended stream is cleared.
pub const CLEAR_DELAY_MS: i64 = 1;

fn low_bits(n: usize) -> (r: u32)
    ensures
        r == n as nat % 0x1_0000_0000,
{
    ((n as u64) % 0x1_0000_0000) as u32
}

/// The number of waiting requests and viewers together.
pub(crate) fn count_heads(waiters: usize, viewers: usize) -> (n: u32)
    ensures
        n == head_count(waiters as nat, viewers as nat),
{
    low_bits(waiters).wrapping_add(low_bits(viewers))
}

/// Whether another request has to be turned away.
pub(crate) fn at_capacity(waiters: usize) -> (full: bool)
    ensures
        full == is_full(waiters as nat),
{
    waiters >= MAX_WAITERS_PER_SHARD as usize
}

/// Takes all elements out of a list.
pub(crate) fn take_all<T>(v: &mut Vec<T>) -> (all: Vec<T>)
    ensures
        all@ == old(v)@,
        final(v)@ == Seq::<T>::empty(),
{
    let mut all: Vec<T> = Vec::new();
    all.append(v);
    assert(all@ =~= old(v)@);
    all
}

/// Takes all waiting requests out of a list and answers each with `text`.
pub(crate) fn answer_all<S>(waiters: &mut Vec<S>, text: &str) -> (r: Vec<(S, String)>)
    ensures
        answers(r@) == answered(old(waiters)@, text@),
        final(waiters)@ == Seq::<S>::empty(),
{
    let all = take_all(waiters);
    let ghost every = all@;
    let mut r: Vec<(S, String)> = Vec::new();
    for w in it: all.into_iter()
        invariant
            it.seq() == every,
            answers(r@) == answered(every.take(it.index() as int), text@),
    {
        let ghost i = it.index() as int;
        let ghost before = r@;
        r.push((w, text.to_owned()));
        assert(answers(r@) =~= answers(before).push((w, text@)));
        assert(answered(every.take(i + 1), text@) =~= answered(every.take(i), text@).push(
            (w, text@),
        ));
    }
    assert(every.take(every.len() as int) =~= every);
    r
}

/// Drops the viewers to which the last message could not be delivered.
pub(crate) fn keep_delivered<W>(viewers: &mut Vec<W>, delivered: &Vec<bool>)
    requires
        old(viewers)@.len() == delivered@.len(),
    ensures
        final(viewers)@ == kept(old(viewers)@, delivered@),
{
    let all = take_all(viewers);
    let ghost every = all@;
    let mut i: usize = 0;
    for w in it: all.into_iter()
        invariant
            it.seq() == every,
            every.len() == delivered.len(),
            i == it.index(),
            viewers@ == kept(every.take(i as int), delivered@.take(i as int)),
    {
        assert(every.take(i + 1).drop_last() =~= every.take(i as int));
        assert(delivered@.take(i + 1).drop_last() =~= delivered@.take(i as int));
        if delivered[i] {
            viewers.push(w);
        }
        i = i + 1;
    }
    assert(every.take(every.len() as int) =~= every);
    assert(delivered@.take(delivered@.len() as int) =~= delivered@);
}

/// Answering all requests answers each of them once, in the order in which they came.
pub proof fn law_each_waiter_is_answered_once<S>(waiters: Seq<S>, text: Seq<char>)
    ensures
        answered_waiters(answered(waiters, text)) == waiters,
        forall|i: int|
            0 <= i < waiters.len() ==> (#[trigger] answered(waiters, text)[i]).1 == text,
{
    assert(answered_waiters(answered(waiters, text)) =~= waiters);
}

/// A viewer stays connected if and only if the message reached it: if all were reached all stay
/// in their order, if none was none does.
pub proof fn law_reached_viewers_stay<W>(viewers: Seq<W>, delivered: Seq<bool>)
    requires
        viewers.len() == delivered.len(),
    ensures
        kept(viewers, delivered).len() <= viewers.len(),
        (forall|i: int| 0 <= i < delivered.len() ==> delivered[i]) ==> kept(viewers, delivered)
            == viewers,
        (forall|i: int| 0 <= i < delivered.len() ==> !delivered[i]) ==> kept(viewers, delivered)
            == Seq::<W>::empty(),
        forall|i: int|
            0 <= i < viewers.len() && delivered[i] ==> kept(viewers, delivered).contains(
                #[trigger] viewers[i],
            ),
        forall|w: W|
            #[trigger] kept(viewers, delivered).contains(w) ==> exists|i: int|
                0 <= i < viewers.len() && delivered[i] && #[trigger] viewers[i] == w,
    decreases viewers.len(),
{
    let all = kept(viewers, delivered);
    if viewers.len() > 0 {
        let v = viewers.drop_last();
        let d = delivered.drop_last();
        law_reached_viewers_stay(v, d);
        let front = kept(v, d);
        let last = viewers.len() - 1;
        if forall|i: int| 0 <= i < delivered.len() ==> delivered[i] {
            assert(forall|i: int| 0 <= i < d.len() ==> d[i]);
            assert(delivered[last]);
            assert(all =~= viewers);
        }
        if forall|i: int| 0 <= i < delivered.len() ==> !delivered[i] {
            assert(forall|i: int| 0 <= i < d.len() ==> !d[i]);
            assert(!delivered[last]);
        }
        assert forall|i: int| 0 <= i < viewers.len() && delivered[i] implies all.contains(
            #[trigger] viewers[i],
        ) by {
            if i < last {
                assert(front.contains(v[i]));
                let k = choose|k: int| 0 <= k < front.len() && front[k] == v[i];
                assert(all[k] == viewers[i]);
            } else {
                assert(all[all.len() - 1] == viewers[i]);
            }
        }
        assert forall|w: W| #[trigger] all.contains(w) implies exists|i: int|
            0 <= i < viewers.len() && delivered[i] && #[trigger] viewers[i] == w by {
            let k = choose|k: int| 0 <= k < all.len() && all[k] == w;
            if k < front.len() {
                assert(front[k] == w);
                assert(front.contains(w));
                let i = choose|i: int| 0 <= i < v.len() && d[i] && v[i] == w;
                assert(delivered[i] && viewers[i] == w);
            } else {
                assert(delivered[last] && viewers[last] == w);
            }
        }
    }
}

/// What leaves a list and what stays in it make up the list: nothing is lost and nothing is
/// there twice.
pub open spec fn none_lost<S>(before: Seq<S>, left: Seq<(S, Seq<char>)>, after: Seq<S>) -> bool {
    before.to_multiset() == answered_waiters(left).to_multiset().add(after.to_multiset())
}

/// If every waiting request is answered, none is lost.
pub(crate) proof fn lemma_all_answered<S>(waiters: Seq<S>, left: Seq<(S, Seq<char>)>)
    requires
        answered_waiters(left) == waiters,
    ensures
        none_lost(waiters, left, Seq::empty()),
{
    broadcast use vstd::seq_lib::group_to_multiset_ensures;

    assert(waiters.to_multiset().add(Seq::<S>::empty().to_multiset()) =~= waiters.to_multiset());
}

/// If no waiting request is answered, none is lost.
pub(crate) proof fn lemma_none_answered<S>(waiters: Seq<S>)
    ensures
        none_lost(waiters, Seq::empty(), waiters),
{
    broadcast use vstd::seq_lib::group_to_multiset_ensures;

    let nobody = answered_waiters(Seq::<(S, Seq<char>)>::empty());
    assert(nobody =~= Seq::empty());
    assert(nobody.to_multiset().add(waiters.to_multiset()) =~= waiters.to_multiset());
}

/// Two lists, of each of which nothing is lost, lose nothing together.
pub(crate) proof fn lemma_none_lost_of_two<S>(
    a: Seq<S>,
    a_left: Seq<(S, Seq<char>)>,
    a_after: Seq<S>,
    b: Seq<S>,
    b_left: Seq<(S, Seq<char>)>,
    b_after: Seq<S>,
)
    requires
        none_lost(a, a_left, a_after),
        none_lost(b, b_left, b_after),
    ensures
        none_lost(a + b, a_left + b_left, a_after + b_after),
{
    let al = answered_waiters(a_left);
    let bl = answered_waiters(b_left);
    assert(answered_waiters(a_left + b_left) =~= al + bl);
    vstd::seq_lib::lemma_multiset_commutative(a, b);
    vstd::seq_lib::lemma_multiset_commutative(al, bl);
    vstd::seq_lib::lemma_multiset_commutative(a_after, b_after);
    assert((a + b).to_multiset() =~= (al + bl).to_multiset().add(
        (a_after + b_after).to_multiset(),
    ));
}

/// The limits: so many requests wait, for so long, and an ended stream is cleared so soon.
pub proof fn law_limits(waiters: nat, viewers: nat)
    ensures
        is_full(waiters) <==> waiters >= 500,
        VIEWER_TIMEOUT_MS == 5000,
        CLEAR_DELAY_MS == 1,
        waiters + viewers <= u32::MAX ==> head_count(waiters, viewers) == waiters + viewers,
        head_count(waiters, viewers) == (waiters + viewers) % 0x1_0000_0000,
{
}

/// Viewers are kept or dropped one by one, each by its own delivery, and those that are kept stay
/// in their order.
pub proof fn law_viewers_are_kept_one_by_one<W>(
    viewers: Seq<W>,
    delivered: Seq<bool>,
    viewer: W,
    reached: bool,
)
    requires
        viewers.len() == delivered.len(),
    ensures
        kept(Seq::<W>::empty(), Seq::empty()) == Seq::<W>::empty(),
        kept(viewers + seq![viewer], delivered + seq![reached]) == kept(viewers, delivered) + (
        if reached {
            seq![viewer]
        } else {
            Seq::empty()
        }),
{
    assert((viewers + seq![viewer]).drop_last() =~= viewers);
    assert((delivered + seq![reached]).drop_last() =~= delivered);
    assert(kept(viewers, delivered).push(viewer) =~= kept(viewers, delivered) + seq![viewer]);
    assert(kept(viewers, delivered) + Seq::<W>::empty() =~= kept(viewers, delivered));
}

/// Answers are taken as they are: each request with the text that it is handed.
pub proof fn law_answers_are_taken_as_they_are<S>(
    v: Seq<(S, String)>,
    waiters: Seq<S>,
    text: Seq<char>,
)
    ensures
        answers(v).len() == v.len(),
        forall|i: int| 0 <= i < v.len() ==> #[trigger] answers(v)[i] == (v[i].0, v[i].1@),
        answered(waiters, text).len() == waiters.len(),
        forall|i: int|
            0 <= i < waiters.len() ==> #[trigger] answered(waiters, text)[i] == (waiters[i], text),
        answered_waiters(answers(v)).len() == v.len(),
        forall|i: int|
            0 <= i < v.len() ==> #[trigger] answered_waiters(answers(v))[i] == v[i].0,
{
}

/// Steps and greetings are taken as they are.
pub proof fn law_steps_are_taken_as_they_are(s: String, r: Reply, o: Option<String>)
    ensures
        PlaylistStep::Clear(s)@ == PlaylistStepView::Clear(s@),
        PlaylistStep::Now(r)@ == PlaylistStepView::Now(r@),
        PlaylistStep::Wait@ == PlaylistStepView::Wait,
        Greeting::Goodbye(s)@ == GreetingView::Goodbye(s@),
        Greeting::Welcome(o)@ == GreetingView::Welcome(text::opt_text(o)),
{
}

} // verus!
