//! The feed from an origin: what it brings and what is done about it.

use crate::protocol::OriginMsg;
use crate::route;
use crate::route::{OriginRoute, RouteError, RouteView};
use crate::waiting;
use vstd::prelude::*;

verus! {

/// Something that happens on the feed.
#[derive(Debug, PartialEq, Eq)]
pub enum OriginEvent {
    /// A message.
    Message(OriginMsg),
    /// A frame that is no message: not text, or text that cannot be read.
    Unreadable,
    /// The feed could not be opened, was closed, or broke.
    Lost,
}

/// A feed to be opened.
#[derive(Debug, PartialEq, Eq)]
pub struct OriginLink {
    pub url: String,
    /// The route that the feed belongs to.
    pub route: OriginRoute,
}

/// The address of a feed and the route that it belongs to.
pub open spec fn link_view(link: OriginLink) -> (Seq<char>, RouteView) {
    (link.url@, link.route@)
}

/// The feed to be opened, if there is one, or why there can be none.
pub open spec fn feed_view(r: Result<Option<OriginLink>, RouteError>) -> Result<
    Option<(Seq<char>, RouteView)>,
    RouteError,
> {
    match r {
        Ok(Some(link)) => Ok(Some(link_view(link))),
        Ok(None) => Ok(None),
        Err(e) => Err(e),
    }
}

/// The feed that is opened for a stream: none if there is one already, otherwise the one of the
/// route that is known.
pub open spec fn feed_to_open(
    connected: bool,
    route: Option<RouteView>,
    stream_key: Seq<char>,
    secret: Option<Seq<char>>,
) -> Result<Option<(Seq<char>, RouteView)>, RouteError> {
    if connected {
        Ok(None)
    } else {
        match route {
            None => Err(RouteError::RouteNotSet),
            Some(r) => if stream_key.len() == 0 {
                Err(RouteError::StreamKeyNotSet)
            } else {
                Ok(Some((route::feed_url(stream_key, r.origin_base_url, secret), r)))
            },
        }
    }
}

/// What is to be done after an event.
#[derive(Debug, PartialEq, Eq)]
pub enum Step<S, W> {
    /// Nothing.
    Ignored,
    /// Close the feed: it belongs to a route that is no longer in use.
    Detached,
    /// Answer these requests, push a message to all viewers, and report to the origin.
    Updated { answers: Vec<(S, String)>, push: String, report: String },
    /// Answer these requests.
    Woken { answers: Vec<(S, String)> },
    /// Answer these requests, send these viewers a last message and disconnect them, and close
    /// the feed.
    Ended { answers: Vec<(S, String)>, farewell: String, viewers: Vec<W> },
    /// The feed is gone.
    Lost,
}

/// A step with its texts as sequences.
pub enum StepView<S, W> {
    Ignored,
    Detached,
    Updated { answers: Seq<(S, Seq<char>)>, push: Seq<char>, report: Seq<char> },
    Woken { answers: Seq<(S, Seq<char>)> },
    Ended { answers: Seq<(S, Seq<char>)>, farewell: Seq<char>, viewers: Seq<W> },
    Lost,
}

impl<S, W> View for Step<S, W> {
    type V = StepView<S, W>;

    open spec fn view(&self) -> StepView<S, W> {
        match *self {
            Step::Ignored => StepView::Ignored,
            Step::Detached => StepView::Detached,
            Step::Updated { answers, push, report } => StepView::Updated {
                answers: waiting::answers(answers@),
                push: push@,
                report: report@,
            },
            Step::Woken { answers } => StepView::Woken { answers: waiting::answers(answers@) },
            Step::Ended { answers, farewell, viewers } => StepView::Ended {
                answers: waiting::answers(answers@),
                farewell: farewell@,
                viewers: viewers@,
            },
            Step::Lost => StepView::Lost,
        }
    }
}

impl<S, W> StepView<S, W> {
    /// Whether the feed is over.
    pub open spec fn stops(self) -> bool {
        self is Detached || self is Ended || self is Lost
    }

    /// The requests that are answered, with their answers.
    pub open spec fn all_answers(self) -> Seq<(S, Seq<char>)> {
        match self {
            StepView::Updated { answers, push, report } => answers,
            StepView::Woken { answers } => answers,
            StepView::Ended { answers, farewell, viewers } => answers,
            _ => Seq::empty(),
        }
    }
}

impl<S, W> Step<S, W> {
    /// Whether the feed is over.
    pub fn stops(&self) -> (b: bool)
        ensures
            b == self@.stops(),
    {
        match self {
            Step::Detached => true,
            Step::Ended { .. } => true,
            Step::Lost => true,
            _ => false,
        }
    }
}

/// What a request for a shared route leads to.
#[derive(Debug, PartialEq, Eq)]
pub struct Configured<S> {
    /// The stream key to be stored, where it is new.
    pub store_key: Option<String>,
    /// The requests that waited for another route, with empty answers.
    pub answers: Vec<(S, String)>,
}

/// A feed is opened if and only if none is open and both route and stream are known. Its address
/// is that of the stream at the origin of the route, and it belongs to that route.
pub proof fn law_feeds_are_opened_for_the_known_route(
    connected: bool,
    route: Option<RouteView>,
    stream_key: Seq<char>,
    secret: Option<Seq<char>>,
)
    ensures
        ({
            let feed = feed_to_open(connected, route, stream_key, secret);
            &&& feed == Ok::<Option<(Seq<char>, RouteView)>, RouteError>(None) <==> connected
            &&& feed == Err::<Option<(Seq<char>, RouteView)>, _>(RouteError::RouteNotSet)
                <==> !connected && route is None
            &&& feed == Err::<Option<(Seq<char>, RouteView)>, _>(RouteError::StreamKeyNotSet)
                <==> !connected && route is Some && stream_key.len() == 0
            &&& !connected && route is Some && stream_key.len() > 0 ==> {
                &&& feed matches Ok(Some((url, owner)))
                &&& owner == route->0
                &&& url == route::feed_url(stream_key, route->0.origin_base_url, secret)
            }
        }),
{
}

/// A feed is over when it is lost, when the stream has ended, and when it belongs to a route that
/// is no longer in use. Only an update, a wake-up and the end answer requests.
pub proof fn law_steps_say_when_the_feed_is_over<S, W>(
    step: Step<S, W>,
    answers: Vec<(S, String)>,
    push: String,
    report: String,
    viewers: Vec<W>,
)
    ensures
        step@.stops() <==> (step is Detached || step is Ended || step is Lost),
        Step::<S, W>::Ignored@ == StepView::<S, W>::Ignored,
        Step::<S, W>::Detached@ == StepView::<S, W>::Detached,
        Step::<S, W>::Lost@ == StepView::<S, W>::Lost,
        (Step::<S, W>::Updated { answers, push, report })@ == (StepView::<S, W>::Updated {
            answers: waiting::answers(answers@),
            push: push@,
            report: report@,
        }),
        (Step::<S, W>::Woken { answers })@ == (StepView::<S, W>::Woken {
            answers: waiting::answers(answers@),
        }),
        (Step::<S, W>::Ended { answers, farewell: push, viewers })@ == (StepView::<S, W>::Ended {
            answers: waiting::answers(answers@),
            farewell: push@,
            viewers: viewers@,
        }),
        (Step::<S, W>::Updated { answers, push, report })@.all_answers() == waiting::answers(
            answers@,
        ),
        (Step::<S, W>::Woken { answers })@.all_answers() == waiting::answers(answers@),
        (Step::<S, W>::Ended { answers, farewell: push, viewers })@.all_answers()
            == waiting::answers(answers@),
        step is Ignored || step is Detached || step is Lost ==> step@.all_answers().len() == 0,
{
}

/// Feeds are taken as they are.
pub proof fn law_feeds_are_taken_as_they_are(link: OriginLink, e: RouteError)
    ensures
        feed_view(Ok(Some(link))) == Ok::<_, RouteError>(Some((link.url@, link.route@))),
        feed_view(Ok(None)) == Ok::<Option<(Seq<char>, RouteView)>, RouteError>(None),
        feed_view(Err(e)) == Err::<Option<(Seq<char>, RouteView)>, _>(e),
{
}

} // verus!
