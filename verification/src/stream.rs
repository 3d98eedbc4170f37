//! The output of a long-running process as a sequence of lines.
//!
//! The caller owns the process and reads its pipes. Whatever a pipe gives, it reports
//! as a [`StreamEvent`]; the [`LineStream`] answers with the item to hand to the
//! consumer, if any, and says when the sequence is over and the process is to be
//! released.

use crate::error::Error;
use crate::text::from_utf8;
use vstd::prelude::*;
use vstd::string::StringExecFns;
use vstd::utf8::{decode_utf8, valid_utf8};

verus! {

/// One of the two pipes that a process writes to.
#[derive(Debug, Clone, Copy, PartialEq, Eq, Structural)]
pub enum Pipe {
    Stdout,
    Stderr,
}

/// What reading a pipe gave, or what the consumer did.
#[derive(Debug, Clone, PartialEq, Eq)]
pub enum StreamEvent {
    /// The bytes of one line, with the line's end where it had one.
    Line { pipe: Pipe, bytes: Vec<u8> },
    /// Reading failed.
    Failed { pipe: Pipe, message: String },
    /// The pipe is at its end.
    Closed { pipe: Pipe },
    /// The consumer let go of the sequence.
    Abandoned,
}

/// The mathematical content of a [`StreamEvent`].
pub enum StreamEventView {
    Line { pipe: Pipe, bytes: Seq<u8> },
    Failed { pipe: Pipe, message: Seq<char> },
    Closed { pipe: Pipe },
    Abandoned,
}

impl DeepView for StreamEvent {
    type V = StreamEventView;

    open spec fn deep_view(&self) -> StreamEventView {
        match *self {
            StreamEvent::Line { pipe, bytes } => StreamEventView::Line { pipe, bytes: bytes@ },
            StreamEvent::Failed { pipe, message } => StreamEventView::Failed {
                pipe,
                message: message@,
            },
            StreamEvent::Closed { pipe } => StreamEventView::Closed { pipe },
            StreamEvent::Abandoned => StreamEventView::Abandoned,
        }
    }
}

/// Where a sequence of lines stands.
#[derive(Debug, Clone, Copy, PartialEq, Eq, Structural)]
pub enum StreamState {
    /// Lines may still come, from each pipe that is marked as read.
    Streaming { stdout: bool, stderr: bool },
    /// Every pipe that was read is at its end.
    Exhausted,
    /// The consumer let go before the end.
    Abandoned,
}

impl StreamState {
    /// Whether the sequence is over.
    pub open spec fn terminal(self) -> bool {
        !(self is Streaming)
    }

    /// Whether lines of the pipe are still handed out.
    pub open spec fn reads(self, pipe: Pipe) -> bool {
        match self {
            StreamState::Streaming { stdout, stderr } => match pipe {
                Pipe::Stdout => stdout,
                Pipe::Stderr => stderr,
            },
            _ => false,
        }
    }

    /// The state in which the pipe is no longer read.
    pub open spec fn without(self, pipe: Pipe) -> StreamState {
        match self {
            StreamState::Streaming { stdout, stderr } => {
                let stdout = stdout && pipe != Pipe::Stdout;
                let stderr = stderr && pipe != Pipe::Stderr;
                if stdout || stderr {
                    StreamState::Streaming { stdout, stderr }
                } else {
                    StreamState::Exhausted
                }
            },
            _ => self,
        }
    }
}

/// An item of the sequence, as mathematics: the text of a line, or the message of an
/// error.
pub type ItemView = Result<Seq<char>, Seq<char>>;

/// What the caller has to do next.
#[derive(Debug, PartialEq, Eq)]
pub enum StreamAction {
    /// Hand the item to the consumer.
    Yield(Result<String, Error>),
    /// Tell the consumer that the sequence is over, and release the process.
    Finish,
    /// Nothing to hand out.
    Continue,
}

/// The bytes of a line without the line's end: a final line feed is taken off, and
/// then a final carriage return.
pub open spec fn line_content(bytes: Seq<u8>) -> Seq<u8> {
    if bytes.len() > 0 && bytes.last() == 10u8 {
        let rest = bytes.drop_last();
        if rest.len() > 0 && rest.last() == 13u8 {
            rest.drop_last()
        } else {
            rest
        }
    } else {
        bytes
    }
}

/// The message of the error for a line that is not text.
pub open spec fn undecodable_line() -> Seq<char> {
    "the line is not valid UTF-8"@
}

/// The item that the bytes of a line become.
pub open spec fn line_item(bytes: Seq<u8>) -> ItemView {
    if valid_utf8(line_content(bytes)) {
        Ok(decode_utf8(line_content(bytes)))
    } else {
        Err(undecodable_line())
    }
}

/// The item that an event gives to the consumer in a state, if it gives one.
pub open spec fn yielded(state: StreamState, event: StreamEventView) -> Option<ItemView> {
    match event {
        StreamEventView::Line { pipe, bytes } => if state.reads(pipe) {
            Some(line_item(bytes))
        } else {
            None
        },
        StreamEventView::Failed { pipe, message } => if state.reads(pipe) {
            Some(Err(message))
        } else {
            None
        },
        _ => None,
    }
}

/// The state that follows `state` on `event`.
pub open spec fn next_state(state: StreamState, event: StreamEventView) -> StreamState {
    match event {
        StreamEventView::Closed { pipe } => state.without(pipe),
        StreamEventView::Abandoned => if state is Streaming {
            StreamState::Abandoned
        } else {
            state
        },
        _ => state,
    }
}

/// Whether the item is the one that the view describes.
pub open spec fn item_is(item: Result<String, Error>, view: ItemView) -> bool {
    match item {
        Ok(line) => view == Ok::<Seq<char>, Seq<char>>(line@),
        Err(Error::CommandError { message }) => view == Err::<Seq<char>, Seq<char>>(message@),
        Err(_) => false,
    }
}

/// Whether `action` is what the caller has to do when `event` arrives in `state`: hand
/// out the item where there is one, end the sequence where the event ends it, and
/// nothing else.
pub open spec fn action_is(state: StreamState, event: StreamEventView, action: StreamAction) -> bool {
    match yielded(state, event) {
        Some(view) => action matches StreamAction::Yield(item) && item_is(item, view),
        None => if state is Streaming && next_state(state, event).terminal() {
            action is Finish
        } else {
            action is Continue
        },
    }
}

/// The items that a run of events gives to the consumer, in order.
pub open spec fn items(state: StreamState, events: Seq<StreamEventView>) -> Seq<ItemView>
    decreases events.len(),
{
    if events.len() == 0 {
        Seq::empty()
    } else {
        let rest = items(next_state(state, events[0]), events.skip(1));
        match yielded(state, events[0]) {
            Some(item) => seq![item] + rest,
            None => rest,
        }
    }
}

/// The state after a run of events.
pub open spec fn state_after(state: StreamState, events: Seq<StreamEventView>) -> StreamState
    decreases events.len(),
{
    if events.len() == 0 {
        state
    } else {
        state_after(next_state(state, events[0]), events.skip(1))
    }
}

/// A run of events in two parts gives the items of the first part, then the items
/// that the second part gives in the state that the first part leaves.
pub proof fn lemma_items_of_two_runs(
    state: StreamState,
    first: Seq<StreamEventView>,
    second: Seq<StreamEventView>,
)
    ensures
        items(state, first + second) == items(state, first) + items(
            state_after(state, first),
            second,
        ),
        state_after(state, first + second) == state_after(state_after(state, first), second),
    decreases first.len(),
{
    if first.len() == 0 {
        assert(first + second =~= second);
        assert(items(state, first) + items(state, second) =~= items(state, second));
    } else {
        let all = first + second;
        assert(all[0] == first[0]);
        assert(all.skip(1) =~= first.skip(1) + second);
        lemma_items_of_two_runs(next_state(state, first[0]), first.skip(1), second);
        assert(items(state, all) =~= items(state, first) + items(
            state_after(state, first),
            second,
        ));
    }
}

/// One event alone gives its own item, if it gives one, and leads to its own next
/// state.
pub proof fn lemma_single_event(state: StreamState, event: StreamEventView)
    ensures
        items(state, seq![event]) == match yielded(state, event) {
            Some(item) => seq![item],
            None => Seq::<ItemView>::empty(),
        },
        state_after(state, seq![event]) == next_state(state, event),
{
    let one = seq![event];
    let rest = one.skip(1);
    assert(rest.len() == 0);
    assert(one[0] == event);
    assert(items(next_state(state, event), rest) =~= Seq::<ItemView>::empty());
    assert(state_after(next_state(state, event), rest) == next_state(state, event));
    assert(items(state, one) =~= match yielded(state, event) {
        Some(item) => seq![item],
        None => Seq::<ItemView>::empty(),
    });
}

/// The events of lines that arrive, in this order, on pipes that are read.
pub open spec fn arrivals(state: StreamState, events: Seq<StreamEventView>) -> bool {
    forall|i: int|
        0 <= i < events.len() ==> (#[trigger] events[i]) is Line && state.reads(
            events[i]->Line_pipe,
        )
}

/// Lines come out in the order in which they arrive: each line that arrives on a pipe
/// that is read gives exactly one item, the items keep the order of arrival, and the
/// state stays as it is.
pub proof fn lines_come_out_in_order(state: StreamState, events: Seq<StreamEventView>)
    requires
        arrivals(state, events),
    ensures
        items(state, events).len() == events.len(),
        forall|i: int|
            0 <= i < events.len() ==> (#[trigger] items(state, events)[i]) == line_item(
                events[i]->Line_bytes,
            ),
        state_after(state, events) == state,
    decreases events.len(),
{
    if events.len() > 0 {
        let rest = events.skip(1);
        assert(events[0] is Line && state.reads(events[0]->Line_pipe));
        assert forall|i: int| 0 <= i < rest.len() implies (#[trigger] rest[i]) is Line
            && state.reads(rest[i]->Line_pipe) by {
            assert(rest[i] == events[i + 1]);
        }
        lines_come_out_in_order(state, rest);
        assert forall|i: int| 0 <= i < events.len() implies (#[trigger] items(state, events)[i])
            == line_item(events[i]->Line_bytes) by {
            if i > 0 {
                assert(items(state, events)[i] == items(state, rest)[i - 1]);
                assert(rest[i - 1] == events[i]);
            }
        }
    }
}

/// The events with which the pipes of a fresh sequence come to their end.
pub open spec fn closings(combined_output: bool) -> Seq<StreamEventView> {
    if combined_output {
        seq![
            StreamEventView::Closed { pipe: Pipe::Stdout },
            StreamEventView::Closed { pipe: Pipe::Stderr },
        ]
    } else {
        seq![StreamEventView::Closed { pipe: Pipe::Stdout }]
    }
}

/// A process that writes some lines and ends gives exactly as many items, in the order
/// of the lines, and then the sequence is over.
pub proof fn lines_then_end(combined_output: bool, events: Seq<StreamEventView>)
    requires
        arrivals(StreamState::Streaming { stdout: true, stderr: combined_output }, events),
    ensures
        ({
            let start = StreamState::Streaming { stdout: true, stderr: combined_output };
            let run = events + closings(combined_output);
            &&& items(start, run).len() == events.len()
            &&& forall|i: int|
                0 <= i < events.len() ==> (#[trigger] items(start, run)[i]) == line_item(
                    events[i]->Line_bytes,
                )
            &&& state_after(start, run) is Exhausted
        }),
{
    let start = StreamState::Streaming { stdout: true, stderr: combined_output };
    let end = closings(combined_output);
    lines_come_out_in_order(start, events);
    lemma_items_of_two_runs(start, events, end);
    let out = StreamEventView::Closed { pipe: Pipe::Stdout };
    let err = StreamEventView::Closed { pipe: Pipe::Stderr };
    lemma_single_event(start, out);
    if combined_output {
        assert(end =~= seq![out] + seq![err]);
        lemma_items_of_two_runs(start, seq![out], seq![err]);
        lemma_single_event(next_state(start, out), err);
    }
    assert(items(start, end) =~= Seq::<ItemView>::empty());
    assert(items(start, events + end) =~= items(start, events));
}

/// Once the sequence is over, whether at its end or by abandonment, no event gives an
/// item or changes the state.
pub proof fn nothing_follows_the_end(state: StreamState, events: Seq<StreamEventView>)
    requires
        state.terminal(),
    ensures
        items(state, events) == Seq::<ItemView>::empty(),
        state_after(state, events) == state,
    decreases events.len(),
{
    if events.len() > 0 {
        nothing_follows_the_end(state, events.skip(1));
    }
}

/// Abandoning a sequence ends it at once: whatever the pipes give afterwards, no
/// further item comes out.
pub proof fn abandonment_ends_the_sequence(
    state: StreamState,
    before: Seq<StreamEventView>,
    after: Seq<StreamEventView>,
)
    ensures
        items(state, before + seq![StreamEventView::Abandoned] + after) == items(state, before),
        state_after(state, before + seq![StreamEventView::Abandoned] + after).terminal(),
{
    let abandon = seq![StreamEventView::Abandoned];
    let reached = state_after(state, before);
    let left = next_state(reached, StreamEventView::Abandoned);
    lemma_items_of_two_runs(state, before + abandon, after);
    lemma_items_of_two_runs(state, before, abandon);
    lemma_single_event(reached, StreamEventView::Abandoned);
    nothing_follows_the_end(left, after);
    assert(items(state, before + abandon + after) =~= items(state, before));
}

/// The item that the bytes of a line become: the text without the line's end, or an
/// error where the bytes are not valid UTF-8.
pub fn decode_line(bytes: Vec<u8>) -> (r: Result<String, Error>)
    ensures
        item_is(r, line_item(bytes@)),
{
    let mut bytes = bytes;
    let ghost whole = bytes@;
    let n = bytes.len();
    if n > 0 && bytes[n - 1] == 10u8 {
        bytes.pop();
        let n = bytes.len();
        if n > 0 && bytes[n - 1] == 13u8 {
            bytes.pop();
        }
    }
    assert(bytes@ =~= line_content(whole));
    match from_utf8(bytes) {
        Some(line) => Ok(line),
        None => Err(Error::CommandError { message: String::from_str("the line is not valid UTF-8") }),
    }
}

/// A sequence of the lines that a process writes.
#[derive(Debug, Clone, Copy)]
pub struct LineStream {
    /// Where the sequence stands.
    pub state: StreamState,
}

impl LineStream {
    /// The sequence of a process that has just been started. The lines of standard
    /// error are part of it only where `combined_output` is set.
    pub fn new(combined_output: bool) -> (r: LineStream)
        ensures
            r.state == (StreamState::Streaming { stdout: true, stderr: combined_output }),
    {
        LineStream { state: StreamState::Streaming { stdout: true, stderr: combined_output } }
    }

    /// Whether the caller still has to read the pipe.
    pub fn reads(&self, pipe: Pipe) -> (r: bool)
        ensures
            r == self.state.reads(pipe),
    {
        match self.state {
            StreamState::Streaming { stdout, stderr } => match pipe {
                Pipe::Stdout => stdout,
                Pipe::Stderr => stderr,
            },
            _ => false,
        }
    }

    /// Whether the sequence is over.
    pub fn is_terminal(&self) -> (r: bool)
        ensures
            r == self.state.terminal(),
    {
        match self.state {
            StreamState::Streaming { .. } => false,
            _ => true,
        }
    }

    /// Takes note of an event and says what to do next.
    pub fn step(&mut self, event: StreamEvent) -> (action: StreamAction)
        ensures
            final(self).state == next_state(old(self).state, event.deep_view()),
            action_is(old(self).state, event.deep_view(), action),
    {
        match event {
            StreamEvent::Line { pipe, bytes } => {
                if self.reads(pipe) {
                    StreamAction::Yield(decode_line(bytes))
                } else {
                    StreamAction::Continue
                }
            },
            StreamEvent::Failed { pipe, message } => {
                if self.reads(pipe) {
                    StreamAction::Yield(Err(Error::CommandError { message }))
                } else {
                    StreamAction::Continue
                }
            },
            StreamEvent::Closed { pipe } => {
                match self.state {
                    StreamState::Streaming { stdout, stderr } => {
                        let stdout = stdout && !matches!(pipe, Pipe::Stdout);
                        let stderr = stderr && !matches!(pipe, Pipe::Stderr);
                        if stdout || stderr {
                            self.state = StreamState::Streaming { stdout, stderr };
                            StreamAction::Continue
                        } else {
                            self.state = StreamState::Exhausted;
                            StreamAction::Finish
                        }
                    },
                    _ => StreamAction::Continue,
                }
            },
            StreamEvent::Abandoned => {
                match self.state {
                    StreamState::Streaming { .. } => {
                        self.state = StreamState::Abandoned;
                        StreamAction::Finish
                    },
                    _ => StreamAction::Continue,
                }
            },
        }
    }
}

} // verus!
