//! The streamed answer of the model: what text each event carries and how the
//! answer is put together from the events, one step per received event.
use vstd::prelude::*;
use crate::bedrock::{BedrockConverseStreamError, ConverseStreamOutputErrorKind, receive_error_reason};

verus! {

/// The change that a content event brings: a piece of text, or something else
/// (a tool call, reasoning content).
#[derive(Debug)]
pub enum ContentDelta {
    Text(String),
    Other,
}

/// One event of the model's stream: a content change with its delta where the
/// event carries one, or any other event (start or stop of a message or of a
/// content block, metadata).
#[derive(Debug)]
pub enum ConverseStreamOutput {
    ContentBlockDelta(Option<ContentDelta>),
    Other,
}

/// The text that an event contributes to the answer: the text of a content
/// change, nothing for any other event.
pub open spec fn output_text(output: ConverseStreamOutput) -> Seq<char> {
    match output {
        ConverseStreamOutput::ContentBlockDelta(Some(ContentDelta::Text(t))) => t@,
        _ => Seq::empty(),
    }
}

/// Takes the text out of a stream event. It never fails.
pub fn get_converse_output_text(output: ConverseStreamOutput) -> (r: Result<
    String,
    BedrockConverseStreamError,
>)
    ensures
        r is Ok,
        r matches Ok(t) && t@ == output_text(output),
        output matches ConverseStreamOutput::ContentBlockDelta(Some(ContentDelta::Text(t))) ==> r->Ok_0@
            == t@,
        !(output matches ConverseStreamOutput::ContentBlockDelta(Some(ContentDelta::Text(_))))
            ==> r->Ok_0@ == Seq::<char>::empty(),
{
    Ok(
        match output {
            ConverseStreamOutput::ContentBlockDelta(delta) => match delta {
                Some(d) => match d {
                    ContentDelta::Text(t) => t,
                    ContentDelta::Other => String::new(),
                },
                None => String::new(),
            },
            ConverseStreamOutput::Other => String::new(),
        },
    )
}

/// What receiving from the stream gave: an event, the end of the stream, or a
/// failure with the service's error where it is one.
#[derive(Debug)]
pub enum StreamEvent {
    Received(ConverseStreamOutput),
    Ended,
    Failed(Option<ConverseStreamOutputErrorKind>),
}

/// What to do after an event: show the piece of text and receive the next
/// event, stop with the answer, or stop with a failure.
#[derive(Debug)]
pub enum StreamStep {
    Continue(String),
    Finish,
    Abort(BedrockConverseStreamError),
}

/// Takes one received event into the answer collected so far.
pub fn stream_step(response_text: &mut String, event: StreamEvent) -> (step: StreamStep)
    ensures
        match event {
            StreamEvent::Received(output) => {
                &&& step matches StreamStep::Continue(piece) && piece@ == output_text(output)
                &&& final(response_text)@ == old(response_text)@ + output_text(output)
            },
            StreamEvent::Ended => step is Finish && final(response_text)@ == old(response_text)@,
            StreamEvent::Failed(service_error) => {
                &&& step matches StreamStep::Abort(e) && e.0@ == receive_error_reason(service_error)
                &&& final(response_text)@ == old(response_text)@
            },
        },
        event matches StreamEvent::Received(
            ConverseStreamOutput::ContentBlockDelta(Some(ContentDelta::Text(t))),
        ) ==> {
            &&& step matches StreamStep::Continue(piece) && piece@ == t@
            &&& final(response_text)@ == old(response_text)@ + t@
        },
{
    match event {
        StreamEvent::Received(output) => {
            match get_converse_output_text(output) {
                Ok(piece) => {
                    response_text.append(piece.as_str());
                    StreamStep::Continue(piece)
                },
                Err(e) => StreamStep::Abort(e),
            }
        },
        StreamEvent::Ended => StreamStep::Finish,
        StreamEvent::Failed(service_error) => StreamStep::Abort(
            BedrockConverseStreamError::from_receive_error(&service_error),
        ),
    }
}

/// The events of the first `n` entries of a run, all of them received events.
pub open spec fn received_outputs(events: Seq<StreamEvent>, n: int) -> Seq<ConverseStreamOutput> {
    Seq::new(n as nat, |j: int| events[j]->Received_0)
}

/// How a run of events ends: with the answer at the end of the stream, with a
/// failure, or not yet (the events ran out before the stream ended).
#[derive(Debug)]
pub enum StreamOutcome {
    Answer(String),
    Failure(BedrockConverseStreamError),
    Unfinished(String),
}

/// What a run of events gave: how it ended, the pieces to show in the order
/// they came, and how many events were taken before the run stopped.
#[derive(Debug)]
pub struct StreamRun {
    pub outcome: StreamOutcome,
    pub pieces: Vec<String>,
    pub received: usize,
}

/// Takes the events of a stream one step at a time, as they come, until the
/// stream ends or fails. The pieces are the texts of the received events in
/// order; the answer is their concatenation, and no event after the end or
/// the failure is taken.
pub fn collect_stream(events: Vec<StreamEvent>) -> (run: StreamRun)
    ensures
        run.received <= events@.len(),
        forall|j: int| 0 <= j < run.received ==> events@[j] is Received,
        run.pieces@.len() == run.received,
        forall|j: int|
            0 <= j < run.received ==> #[trigger] run.pieces@[j]@ == output_text(
                events@[j]->Received_0,
            ),
        match run.outcome {
            StreamOutcome::Answer(a) => {
                &&& run.received < events@.len()
                &&& events@[run.received as int] is Ended
                &&& a@ == streamed_text(received_outputs(events@, run.received as int))
                &&& a@ == run.pieces@.map_values(|p: String| p@).flatten_alt()
            },
            StreamOutcome::Failure(e) => {
                &&& run.received < events@.len()
                &&& events@[run.received as int] matches StreamEvent::Failed(service_error)
                &&& e.0@ == receive_error_reason(service_error)
            },
            StreamOutcome::Unfinished(a) => {
                &&& run.received == events@.len()
                &&& a@ == streamed_text(received_outputs(events@, run.received as int))
                &&& a@ == run.pieces@.map_values(|p: String| p@).flatten_alt()
            },
        },
{
    let ghost all = events@;
    let mut rest = events;
    let mut response_text = String::new();
    let mut pieces: Vec<String> = Vec::new();
    let mut i: usize = 0;
    let total: usize = rest.len();
    assert(received_outputs(all, 0) =~= Seq::<ConverseStreamOutput>::empty());
    assert(pieces@.map_values(|p: String| p@) =~= Seq::<Seq<char>>::empty());
    #[verifier::loop_isolation(false)]
    while i < total
        invariant
            i <= all.len(),
            rest@ == all.skip(i as int),
            rest@.len() == all.len() - i,
            total == all.len(),
            forall|j: int| 0 <= j < i ==> all[j] is Received,
            pieces@.len() == i,
            forall|j: int| 0 <= j < i ==> #[trigger] pieces@[j]@ == output_text(all[j]->Received_0),
            response_text@ == streamed_text(received_outputs(all, i as int)),
            response_text@ == pieces@.map_values(|p: String| p@).flatten_alt(),
        decreases rest@.len(),
    {
        let event = rest.remove(0);
        assert(event == all[i as int]);
        let ghost before = response_text@;
        match stream_step(&mut response_text, event) {
            StreamStep::Continue(piece) => {
                proof {
                    let next = received_outputs(all, i + 1);
                    assert(next.drop_last() =~= received_outputs(all, i as int));
                    assert(next.last() == all[i as int]->Received_0);
                }
                let ghost prev = pieces@.map_values(|p: String| p@);
                pieces.push(piece);
                proof {
                    let now = pieces@.map_values(|p: String| p@);
                    assert(now.drop_last() =~= prev);
                    assert(now.last() == response_text@.subrange(before.len() as int, response_text@.len() as int));
                    assert(response_text@ =~= before + now.last());
                }
                assert(rest@ =~= all.skip(i + 1));
                i = i + 1;
            },
            StreamStep::Finish => {
                return StreamRun { outcome: StreamOutcome::Answer(response_text), pieces, received: i };
            },
            StreamStep::Abort(e) => {
                return StreamRun { outcome: StreamOutcome::Failure(e), pieces, received: i };
            },
        }
    }
    StreamRun { outcome: StreamOutcome::Unfinished(response_text), pieces, received: i }
}

/// In a stream of `n` received events followed by its end, the events taken
/// before the end are exactly those `n`: by `collect_stream`, the answer is
/// `streamed_text` of them and the pieces shown are their texts in order.
pub proof fn law_answer_is_event_texts(outputs: Seq<ConverseStreamOutput>)
    ensures
        ({
            let events = Seq::new(outputs.len(), |j: int| StreamEvent::Received(outputs[j])).push(
                StreamEvent::Ended,
            );
            received_outputs(events, outputs.len() as int) == outputs
        }),
{
    let events = Seq::new(outputs.len(), |j: int| StreamEvent::Received(outputs[j])).push(
        StreamEvent::Ended,
    );
    assert(received_outputs(events, outputs.len() as int) =~= outputs);
}

/// The answer that a run of events spells out: their texts, in order.
pub open spec fn streamed_text(outputs: Seq<ConverseStreamOutput>) -> Seq<char>
    decreases outputs.len(),
{
    if outputs.len() == 0 {
        Seq::empty()
    } else {
        streamed_text(outputs.drop_last()) + output_text(outputs.last())
    }
}

/// A content event contributes its text exactly as it came, with nothing
/// dropped or added; every other event contributes nothing.
pub proof fn law_event_text_is_delta_text(t: String)
    ensures
        output_text(ConverseStreamOutput::ContentBlockDelta(Some(ContentDelta::Text(t)))) == t@,
        output_text(ConverseStreamOutput::ContentBlockDelta(Some(ContentDelta::Other))) == Seq::<
            char,
        >::empty(),
        output_text(ConverseStreamOutput::ContentBlockDelta(None)) == Seq::<char>::empty(),
        output_text(ConverseStreamOutput::Other) == Seq::<char>::empty(),
{
}

/// The answer of a single event is that event's text.
pub proof fn law_streamed_text_single(o: ConverseStreamOutput)
    ensures
        streamed_text(seq![o]) == output_text(o),
{
    let one = seq![o];
    assert(one.drop_last() =~= Seq::<ConverseStreamOutput>::empty());
    assert(streamed_text(one.drop_last()) == Seq::<char>::empty());
    assert(one.last() == o);
    assert(Seq::<char>::empty() + output_text(o) =~= output_text(o));
}

/// One more event extends the answer by exactly that event's text, at the end.
pub proof fn law_streamed_text_push(a: Seq<ConverseStreamOutput>, o: ConverseStreamOutput)
    ensures
        streamed_text(a.push(o)) == streamed_text(a) + output_text(o),
        streamed_text(a.push(o)).len() == streamed_text(a).len() + output_text(o).len(),
        streamed_text(a.push(o)).subrange(0, streamed_text(a).len() as int) == streamed_text(a),
{
    assert(a.push(o).drop_last() =~= a);
    assert((streamed_text(a) + output_text(o)).subrange(0, streamed_text(a).len() as int)
        =~= streamed_text(a));
}

/// Taking the events of `a` and then those of `b` spells out the text of `a`
/// followed by the text of `b`: the answer does not depend on where the
/// stream was cut into deliveries.
pub proof fn law_streamed_text_concat(a: Seq<ConverseStreamOutput>, b: Seq<ConverseStreamOutput>)
    ensures
        streamed_text(a + b) == streamed_text(a) + streamed_text(b),
    decreases b.len(),
{
    if b.len() == 0 {
        assert(a + b =~= a);
    } else {
        law_streamed_text_concat(a, b.drop_last());
        assert((a + b).drop_last() =~= a + b.drop_last());
        assert((a + b).last() == b.last());
    }
}

/// Events that carry no text leave the answer as it is.
pub proof fn law_silent_events(a: Seq<ConverseStreamOutput>, silent: Seq<ConverseStreamOutput>)
    requires
        forall|i: int| 0 <= i < silent.len() ==> output_text(#[trigger] silent[i]) == Seq::<
            char,
        >::empty(),
    ensures
        streamed_text(a + silent) == streamed_text(a),
    decreases silent.len(),
{
    if silent.len() == 0 {
        assert(a + silent =~= a);
    } else {
        let d = silent.drop_last();
        assert forall|i: int| 0 <= i < d.len() implies output_text(#[trigger] d[i]) == Seq::<
            char,
        >::empty() by {
            assert(d[i] == silent[i]);
        }
        law_silent_events(a, d);
        assert((a + silent).drop_last() =~= a + d);
        assert((a + silent).last() == silent[silent.len() - 1]);
        assert(streamed_text(a) + Seq::<char>::empty() =~= streamed_text(a));
    }
}

} // verus!
