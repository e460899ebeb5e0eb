//! What holds of every load, whatever the network and the decoder do.
//!
//! The laws speak of an operation's [`course`]: the actions it asks for while
//! a sequence of events is delivered to it.

use crate::diagnostic::DiagnosticView;
use crate::error::{GalileoError, TransportFailure};
use crate::image::DecodedImageView;
use crate::operation::{decoded_outcome, finish, react, ActionView, EventView, Goal, LoadedView, Stage};
use crate::status::is_success_code;
use bytes::Bytes;
use vstd::prelude::*;

verus! {

/// The course of an operation that stands at `stage` while `events` are
/// delivered to it in order: the stage it reaches and the actions it asks for
/// on the way. An event that the operation refuses leaves no trace.
pub open spec fn course(stage: Stage, events: Seq<EventView>) -> (Stage, Seq<ActionView>)
    decreases events.len(),
{
    if events.len() == 0 {
        (stage, Seq::empty())
    } else {
        match react(stage, events.first()) {
            Some((next, asked)) => {
                let (end, later) = course(next, events.drop_first());
                (end, seq![asked] + later)
            },
            None => course(stage, events.drop_first()),
        }
    }
}

/// The stage of a fetch of `url` that has just asked for its GET.
pub open spec fn fetching(url: Seq<char>, goal: Goal) -> Stage {
    Stage::AwaitingResponse { url, goal }
}

/// The event that a response with `status` has arrived.
pub open spec fn responded(status: u16) -> EventView {
    EventView::Response(Ok(status))
}

/// The last action of a fetch whose response had a failure status.
pub open spec fn rejected(url: Seq<char>, status: u16, body: Option<Seq<char>>) -> ActionView {
    ActionView::Finish {
        outcome: Err(GalileoError::IO),
        diagnostic: Some(DiagnosticView { url, status, body }),
    }
}

/// The course under `first` followed by `rest` is the course under `rest`
/// from where `first` leads, behind what `first` was answered with.
proof fn lemma_course_unfold(stage: Stage, first: EventView, rest: Seq<EventView>)
    ensures
        course(stage, seq![first] + rest) == (match react(stage, first) {
            Some((next, asked)) => (course(next, rest).0, seq![asked] + course(next, rest).1),
            None => course(stage, rest),
        }),
{
    let events = seq![first] + rest;
    assert(events.first() == first);
    assert(events.drop_first() =~= rest);
}

/// Under no events an operation stays where it is and asks for nothing.
proof fn lemma_course_empty(stage: Stage)
    ensures
        course(stage, Seq::empty()) == (stage, Seq::<ActionView>::empty()),
{
}

/// A finished operation refuses every event.
proof fn lemma_finished_stays(events: Seq<EventView>)
    ensures
        course(Stage::Finished, events) == (Stage::Finished, Seq::<ActionView>::empty()),
    decreases events.len(),
{
    if events.len() > 0 {
        lemma_finished_stays(events.drop_first());
    }
}

/// A load of bytes whose response has a success status ends in the very body
/// that was read, with no diagnostic, and asks for nothing but that body on
/// the way.
pub proof fn law_fetch_returns_body(url: Seq<char>, status: u16, body: Bytes)
    requires
        is_success_code(status),
    ensures
        course(fetching(url, Goal::Bytes), seq![responded(status), EventView::Body(Ok(body))]) == (
            Stage::Finished,
            seq![ActionView::ReadBody, finish(Ok(LoadedView::Bytes(body)))],
        ),
{
    let after = seq![EventView::Body(Ok(body))];
    assert(seq![responded(status), EventView::Body(Ok(body))] =~= seq![responded(status)] + after);
    lemma_course_unfold(fetching(url, Goal::Bytes), responded(status), after);
    assert(after =~= seq![EventView::Body(Ok(body))] + Seq::empty());
    lemma_course_unfold(
        Stage::AwaitingBody { goal: Goal::Bytes },
        EventView::Body(Ok(body)),
        Seq::empty(),
    );
    lemma_course_empty(Stage::Finished);
    assert(seq![ActionView::ReadBody] + (seq![finish(Ok(LoadedView::Bytes(body)))]
        + Seq::<ActionView>::empty()) =~= seq![
        ActionView::ReadBody,
        finish(Ok(LoadedView::Bytes(body))),
    ]);
}

/// A load of an image is a load of bytes followed by a decoding of those
/// bytes: once a response with a success status and its body have arrived,
/// the operation has handed that very body to the decoder, and from there on
/// it runs as an operation that was started to decode that body, whatever
/// comes next.
pub proof fn law_image_load_is_fetch_then_decode(
    url: Seq<char>,
    status: u16,
    body: Bytes,
    rest: Seq<EventView>,
)
    requires
        is_success_code(status),
    ensures
        course(
            fetching(url, Goal::Image),
            seq![responded(status), EventView::Body(Ok(body))] + rest,
        ) == (
            course(Stage::AwaitingDecode, rest).0,
            seq![ActionView::ReadBody, ActionView::Decode(body)] + course(
                Stage::AwaitingDecode,
                rest,
            ).1,
        ),
{
    let after = seq![EventView::Body(Ok(body))] + rest;
    assert(seq![responded(status), EventView::Body(Ok(body))] + rest =~= seq![responded(status)]
        + after);
    lemma_course_unfold(fetching(url, Goal::Image), responded(status), after);
    lemma_course_unfold(Stage::AwaitingBody { goal: Goal::Image }, EventView::Body(Ok(body)), rest);
    let later = course(Stage::AwaitingDecode, rest).1;
    assert(seq![ActionView::ReadBody] + (seq![ActionView::Decode(body)] + later) =~= seq![
        ActionView::ReadBody,
        ActionView::Decode(body),
    ] + later);
}

/// An operation that waits for the decoder ends in what the decoder returns:
/// the image it made, or its error, with nothing added and no diagnostic.
pub proof fn law_decode_result_is_forwarded(result: Result<DecodedImageView, GalileoError>)
    ensures
        course(Stage::AwaitingDecode, seq![EventView::Decoded(result)]) == (
            Stage::Finished,
            seq![finish(decoded_outcome(result))],
        ),
        result matches Ok(image) ==> decoded_outcome(result) == Ok::<LoadedView, GalileoError>(
            LoadedView::Image(image),
        ),
        result matches Err(error) ==> decoded_outcome(result) == Err::<LoadedView, GalileoError>(
            error,
        ),
{
    assert(seq![EventView::Decoded(result)] =~= seq![EventView::Decoded(result)] + Seq::empty());
    lemma_course_unfold(Stage::AwaitingDecode, EventView::Decoded(result), Seq::empty());
    lemma_course_empty(Stage::Finished);
    assert(seq![finish(decoded_outcome(result))] + Seq::<ActionView>::empty() =~= seq![
        finish(decoded_outcome(result)),
    ]);
}

/// Where the text of a failed response is awaited, the operation asks for
/// nothing more until the text arrives, and then ends in
/// [`GalileoError::IO`] with the diagnostic.
proof fn lemma_course_of_failure_text(url: Seq<char>, status: u16, events: Seq<EventView>)
    ensures
        ({
            let (end, asked) = course(Stage::AwaitingFailureText { url, status }, events);
            ||| end == (Stage::AwaitingFailureText { url, status }) && asked
                == Seq::<ActionView>::empty()
            ||| exists|body: Option<Seq<char>>|
                end == Stage::Finished && asked == seq![#[trigger] rejected(url, status, body)]
        }),
    decreases events.len(),
{
    let stage = Stage::AwaitingFailureText { url, status };
    if events.len() > 0 {
        match events.first() {
            EventView::FailureText(body) => {
                lemma_finished_stays(events.drop_first());
                assert(course(stage, events).1 =~= seq![rejected(url, status, body)]);
            },
            _ => {
                lemma_course_of_failure_text(url, status, events.drop_first());
            },
        }
    }
}

/// Whether `asked` may be asked for once a response with a failure status has
/// arrived: it reads no body to return, hands nothing to the decoder, and
/// ends the operation, if it does, in [`GalileoError::IO`].
pub open spec fn befits_failure(asked: ActionView) -> bool {
    &&& !(asked is Decode)
    &&& !(asked is ReadBody)
    &&& asked matches ActionView::Finish { outcome, .. } ==> outcome == Err::<
        LoadedView,
        GalileoError,
    >(GalileoError::IO)
}

/// A fetch whose response has a status outside the success range ends in
/// [`GalileoError::IO`], whether bytes or an image were asked for and
/// whatever is reported afterwards. Its only request besides the GET is for
/// the text of the body; it reads no body to return and hands nothing to the
/// decoder. The diagnostic holds the URL, the status and that text.
pub proof fn law_failure_status_ends_in_io(
    url: Seq<char>,
    goal: Goal,
    status: u16,
    rest: Seq<EventView>,
)
    requires
        !is_success_code(status),
    ensures
        ({
            let (end, asked) = course(fetching(url, goal), seq![responded(status)] + rest);
            ||| end == (Stage::AwaitingFailureText { url, status }) && asked
                == seq![ActionView::ReadFailureText]
            ||| exists|body: Option<Seq<char>>|
                end == Stage::Finished && asked == seq![
                    ActionView::ReadFailureText,
                    #[trigger] rejected(url, status, body),
                ]
        }),
        forall|i: int|
            0 <= i < course(fetching(url, goal), seq![responded(status)] + rest).1.len()
                ==> befits_failure(
                #[trigger] course(fetching(url, goal), seq![responded(status)] + rest).1[i],
            ),
{
    let waiting = Stage::AwaitingFailureText { url, status };
    lemma_course_unfold(fetching(url, goal), responded(status), rest);
    lemma_course_of_failure_text(url, status, rest);
    let (end, later) = course(waiting, rest);
    let asked = course(fetching(url, goal), seq![responded(status)] + rest).1;
    assert(asked == seq![ActionView::ReadFailureText] + later);
    if end == waiting && later == Seq::<ActionView>::empty() {
        assert(asked =~= seq![ActionView::ReadFailureText]);
    } else {
        let body = choose|body: Option<Seq<char>>|
            end == Stage::Finished && later == seq![#[trigger] rejected(url, status, body)];
        assert(asked =~= seq![ActionView::ReadFailureText, rejected(url, status, body)]);
    }
}

/// A failure of the transport ends a fetch in [`GalileoError::Transport`]
/// with the failure as it was reported, never in [`GalileoError::IO`], and
/// with no diagnostic: both where no response arrived and where reading the
/// body of a successful response broke off.
pub proof fn law_transport_failure_is_propagated(
    url: Seq<char>,
    goal: Goal,
    status: u16,
    failure: TransportFailure,
)
    requires
        is_success_code(status),
    ensures
        course(fetching(url, goal), seq![EventView::Response(Err(failure))]) == (
            Stage::Finished,
            seq![finish(Err(GalileoError::Transport(failure)))],
        ),
        course(fetching(url, goal), seq![responded(status), EventView::Body(Err(failure))]) == (
            Stage::Finished,
            seq![ActionView::ReadBody, finish(Err(GalileoError::Transport(failure)))],
        ),
        GalileoError::Transport(failure) != GalileoError::IO,
{
    let failed = finish(Err(GalileoError::Transport(failure)));
    lemma_course_empty(Stage::Finished);
    assert(seq![EventView::Response(Err(failure))] =~= seq![EventView::Response(Err(failure))]
        + Seq::empty());
    lemma_course_unfold(fetching(url, goal), EventView::Response(Err(failure)), Seq::empty());
    assert(seq![failed] + Seq::<ActionView>::empty() =~= seq![failed]);

    let after = seq![EventView::Body(Err(failure))];
    assert(seq![responded(status), EventView::Body(Err(failure))] =~= seq![responded(status)]
        + after);
    lemma_course_unfold(fetching(url, goal), responded(status), after);
    assert(after =~= seq![EventView::Body(Err(failure))] + Seq::empty());
    lemma_course_unfold(Stage::AwaitingBody { goal }, EventView::Body(Err(failure)), Seq::empty());
    assert(seq![ActionView::ReadBody] + (seq![failed] + Seq::<ActionView>::empty()) =~= seq![
        ActionView::ReadBody,
        failed,
    ]);
}

/// How many actions an operation at `stage` can still ask for, at most.
pub open spec fn actions_left(stage: Stage) -> nat {
    match stage {
        Stage::AwaitingResponse { goal: Goal::Bytes, .. } => 2,
        Stage::AwaitingResponse { goal: Goal::Image, .. } => 3,
        Stage::AwaitingBody { goal: Goal::Bytes } => 1,
        Stage::AwaitingBody { goal: Goal::Image } => 2,
        Stage::AwaitingFailureText { .. } => 1,
        Stage::AwaitingDecode => 1,
        Stage::Finished => 0,
    }
}

/// What an operation at `stage` hands out if it succeeds: bytes or an image,
/// or `None` where it can no longer succeed.
pub open spec fn promised(stage: Stage) -> Option<Goal> {
    match stage {
        Stage::AwaitingResponse { goal, .. } => Some(goal),
        Stage::AwaitingBody { goal } => Some(goal),
        Stage::AwaitingFailureText { .. } => None,
        Stage::AwaitingDecode => Some(Goal::Image),
        Stage::Finished => None,
    }
}

/// Whether `loaded` is what a load towards `goal` hands out.
pub open spec fn fits(loaded: LoadedView, goal: Goal) -> bool {
    match goal {
        Goal::Bytes => loaded is Bytes,
        Goal::Image => loaded is Image,
    }
}

/// What holds of one action in the course of an operation that started at
/// `stage` and has reached `end`: it is no GET; it is the action that ends
/// the operation exactly if it is the last one and the operation has ended;
/// and what it hands out on success is what `stage` promised.
pub open spec fn in_order(stage: Stage, end: Stage, asked: Seq<ActionView>, i: int) -> bool {
    &&& !(asked[i] is Get)
    &&& asked[i] is Finish <==> end is Finished && i == asked.len() - 1
    &&& asked[i] matches ActionView::Finish { outcome: Ok(loaded), .. } ==> promised(stage)
        matches Some(goal) && fits(loaded, goal)
}

/// Every operation runs in order and ends after a bounded number of actions,
/// whatever is reported to it:
///
/// - it asks for at most [`actions_left`] actions, which is three for a load
///   of an image and two for a load of bytes;
/// - it asks for no GET beyond the one it began with, so nothing is tried
///   again;
/// - it hands out one outcome at most, as its last action, and has then
///   finished;
/// - and an outcome that is a success holds bytes where bytes were asked for
///   and an image where an image was.
///
/// Each action it asks for brings it nearer to its end by one at least, and
/// it moves only by asking for an action.
pub proof fn law_operation_runs_in_order(stage: Stage, events: Seq<EventView>)
    ensures
        course(stage, events).1.len() <= actions_left(stage),
        actions_left(course(stage, events).0) + course(stage, events).1.len() <= actions_left(
            stage,
        ),
        course(stage, events).1.len() == 0 ==> course(stage, events).0 == stage,
        forall|i: int|
            0 <= i < course(stage, events).1.len() ==> #[trigger] in_order(
                stage,
                course(stage, events).0,
                course(stage, events).1,
                i,
            ),
    decreases events.len(),
{
    if events.len() > 0 {
        match react(stage, events.first()) {
            Some((next, first)) => {
                law_operation_runs_in_order(next, events.drop_first());
                let (end, later) = course(next, events.drop_first());
                let asked = course(stage, events).1;
                assert(asked == seq![first] + later);
                if next is Finished {
                    lemma_finished_stays(events.drop_first());
                }
                assert forall|i: int| 0 <= i < asked.len() implies #[trigger] in_order(
                    stage,
                    end,
                    asked,
                    i,
                ) by {
                    if i > 0 {
                        assert(asked[i] == later[i - 1]);
                        assert(in_order(next, end, later, i - 1));
                    }
                }
            },
            None => {
                law_operation_runs_in_order(stage, events.drop_first());
            },
        }
    }
}

/// Only the body of a response whose status was in the success range is
/// ever put to use:
///
/// - the decoder is asked only when such a body arrives in a load of an
///   image, and is handed that very body;
/// - bytes are handed out only when such a body arrives in a load of bytes,
///   and are that very body;
/// - a body is awaited only after a response with a success status;
/// - and an image is handed out only when the decoder returns it.
pub proof fn law_only_bodies_of_successful_responses_are_used(stage: Stage, event: EventView)
    ensures
        (react(stage, event) matches Some((_, ActionView::Decode(bytes))) ==> stage == (
            Stage::AwaitingBody { goal: Goal::Image }
        ) && event == EventView::Body(Ok(bytes))),
        (react(stage, event) matches Some(
            (_, ActionView::Finish { outcome: Ok(LoadedView::Bytes(bytes)), .. }),
        ) ==> stage == (Stage::AwaitingBody { goal: Goal::Bytes }) && event == EventView::Body(
            Ok(bytes),
        )),
        (react(stage, event) matches Some((Stage::AwaitingBody { goal }, _)) ==> {
            &&& stage matches Stage::AwaitingResponse { goal: asked_for, .. }
            &&& asked_for == goal
            &&& event matches EventView::Response(Ok(status))
            &&& is_success_code(status)
        }),
        (react(stage, event) matches Some(
            (_, ActionView::Finish { outcome: Ok(LoadedView::Image(image)), .. }),
        ) ==> stage == Stage::AwaitingDecode && event == EventView::Decoded(Ok(image))),
{
}

/// A diagnostic is emitted exactly where a response with a failure status
/// ends an operation, and the outcome is then [`GalileoError::IO`].
pub proof fn law_diagnostic_marks_failure_status(stage: Stage, event: EventView)
    ensures
        (react(stage, event) matches Some((_, ActionView::Finish { outcome, diagnostic }))
            ==> (diagnostic is Some <==> stage is AwaitingFailureText) && (diagnostic is Some
            ==> outcome == Err::<LoadedView, GalileoError>(GalileoError::IO))),
{
}

/// An event on its way to one of several operations that are under way at
/// once.
pub struct Delivery {
    /// Which operation the event is for, by its index among them.
    pub to: int,
    /// The event.
    pub event: EventView,
}

/// The events among `deliveries` that are for the operation `to`, in order.
pub open spec fn events_for(deliveries: Seq<Delivery>, to: int) -> Seq<EventView>
    decreases deliveries.len(),
{
    if deliveries.len() == 0 {
        Seq::empty()
    } else if deliveries.first().to == to {
        seq![deliveries.first().event] + events_for(deliveries.drop_first(), to)
    } else {
        events_for(deliveries.drop_first(), to)
    }
}

/// The courses of several operations that are under way at once and stand at
/// `stages`, while `deliveries` arrive in order, each at the operation it is
/// for. A delivery for no operation is dropped.
pub open spec fn courses(stages: Seq<Stage>, deliveries: Seq<Delivery>) -> Seq<
    (Stage, Seq<ActionView>),
>
    decreases deliveries.len(),
{
    if deliveries.len() == 0 {
        Seq::new(stages.len(), |i: int| (stages[i], Seq::empty()))
    } else {
        let to = deliveries.first().to;
        if 0 <= to < stages.len() {
            match react(stages[to], deliveries.first().event) {
                Some((next, asked)) => {
                    let later = courses(stages.update(to, next), deliveries.drop_first());
                    later.update(to, (later[to].0, seq![asked] + later[to].1))
                },
                None => courses(stages, deliveries.drop_first()),
            }
        } else {
            courses(stages, deliveries.drop_first())
        }
    }
}

/// Operations that are under way at once do not interfere: however the
/// events for them are interleaved, each operation takes the course it would
/// take if the events for it were delivered to it alone.
pub proof fn law_operations_do_not_interfere(stages: Seq<Stage>, deliveries: Seq<Delivery>, i: int)
    requires
        0 <= i < stages.len(),
    ensures
        courses(stages, deliveries).len() == stages.len(),
        courses(stages, deliveries)[i] == course(stages[i], events_for(deliveries, i)),
    decreases deliveries.len(),
{
    if deliveries.len() > 0 {
        let first = deliveries.first();
        let rest = deliveries.drop_first();
        let to = first.to;
        if 0 <= to < stages.len() {
            match react(stages[to], first.event) {
                Some((next, asked)) => {
                    law_operations_do_not_interfere(stages.update(to, next), rest, i);
                    if to == i {
                        lemma_course_unfold(stages[i], first.event, events_for(rest, i));
                    }
                },
                None => {
                    law_operations_do_not_interfere(stages, rest, i);
                    if to == i {
                        lemma_course_unfold(stages[i], first.event, events_for(rest, i));
                    }
                },
            }
        } else {
            law_operations_do_not_interfere(stages, rest, i);
        }
    }
}

/// Any number of loads of bytes may be under way at once: one of them that
/// is answered by a response with a success status and then by its body ends
/// in that body, in whatever order the answers to it and to the others
/// arrive, and whatever the others are answered with.
pub proof fn law_concurrent_fetches_return_their_bodies(
    urls: Seq<Seq<char>>,
    deliveries: Seq<Delivery>,
    i: int,
    status: u16,
    body: Bytes,
)
    requires
        0 <= i < urls.len(),
        is_success_code(status),
        events_for(deliveries, i) == seq![responded(status), EventView::Body(Ok(body))],
    ensures
        courses(Seq::new(urls.len(), |k: int| fetching(urls[k], Goal::Bytes)), deliveries)[i] == (
            Stage::Finished,
            seq![ActionView::ReadBody, finish(Ok(LoadedView::Bytes(body)))],
        ),
{
    let stages = Seq::new(urls.len(), |k: int| fetching(urls[k], Goal::Bytes));
    law_operations_do_not_interfere(stages, deliveries, i);
    law_fetch_returns_body(urls[i], status, body);
}

} // verus!
