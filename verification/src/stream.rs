//! The streaming-completion event protocol: the consumer-facing
//! lifecycle events, the provider-side events that drive them, and
//! the accumulator that turns the one into the other.

use vstd::prelude::*;
use crate::options::TokenUsage;

verus! {

/// One consumer-facing lifecycle event of a streamed completion.
#[derive(Debug, Clone, PartialEq, Eq)]
pub enum ChatStreamEvent {
    Start,
    Content { content: String },
    Done { total_content: String, usage: Option<TokenUsage> },
    Error { message: String },
}

/// The mathematical shape of a consumer-facing event.
pub enum StreamEventView {
    Start,
    Content { content: Seq<char> },
    Done { total_content: Seq<char>, usage: Option<TokenUsage> },
    Error { message: Seq<char> },
}

impl View for ChatStreamEvent {
    type V = StreamEventView;

    open spec fn view(&self) -> StreamEventView {
        match self {
            ChatStreamEvent::Start => StreamEventView::Start,
            ChatStreamEvent::Content { content } => StreamEventView::Content {
                content: content@,
            },
            ChatStreamEvent::Done { total_content, usage } => StreamEventView::Done {
                total_content: total_content@,
                usage: *usage,
            },
            ChatStreamEvent::Error { message } => StreamEventView::Error { message: message@ },
        }
    }
}

/// One protocol-level event arriving from the provider's stream, as
/// plain values: the transport hands these in arrival order.  A
/// failure of the stream itself arrives as `StreamError`.
#[derive(Debug, Clone, PartialEq, Eq)]
pub enum ProviderStreamEvent {
    Start,
    Chunk { content: String },
    ReasoningChunk { content: String },
    End { usage: Option<TokenUsage> },
    StreamError { message: String },
}

/// The mathematical shape of a provider-side event.
pub enum ProviderEventView {
    Start,
    Chunk { content: Seq<char> },
    ReasoningChunk { content: Seq<char> },
    End { usage: Option<TokenUsage> },
    StreamError { message: Seq<char> },
}

impl View for ProviderStreamEvent {
    type V = ProviderEventView;

    open spec fn view(&self) -> ProviderEventView {
        match self {
            ProviderStreamEvent::Start => ProviderEventView::Start,
            ProviderStreamEvent::Chunk { content } => ProviderEventView::Chunk {
                content: content@,
            },
            ProviderStreamEvent::ReasoningChunk { content } => ProviderEventView::ReasoningChunk {
                content: content@,
            },
            ProviderStreamEvent::End { usage } => ProviderEventView::End { usage: *usage },
            ProviderStreamEvent::StreamError { message } => ProviderEventView::StreamError {
                message: message@,
            },
        }
    }
}

impl ProviderStreamEvent {
    /// An exact copy, so a borrowed event can be replayed.
    pub fn duplicate(&self) -> (r: Self)
        ensures
            r == *self,
    {
        match self {
            ProviderStreamEvent::Start => ProviderStreamEvent::Start,
            ProviderStreamEvent::Chunk { content } => ProviderStreamEvent::Chunk {
                content: content.clone(),
            },
            ProviderStreamEvent::ReasoningChunk { content } => {
                ProviderStreamEvent::ReasoningChunk { content: content.clone() }
            },
            ProviderStreamEvent::End { usage } => ProviderStreamEvent::End { usage: *usage },
            ProviderStreamEvent::StreamError { message } => ProviderStreamEvent::StreamError {
                message: message.clone(),
            },
        }
    }
}

/// Whether a provider-side event closes the stream.
pub open spec fn terminal_event(ev: ProviderEventView) -> bool {
    ev is End || ev is StreamError
}

/// Whether some event of the sequence closes the stream.
pub open spec fn has_terminal(events: Seq<ProviderEventView>) -> bool {
    exists|k: int| 0 <= k < events.len() && #[trigger] terminal_event(events[k])
}

/// The text one provider-side event contributes to the accumulated
/// content.
pub open spec fn chunk_content(ev: ProviderEventView) -> Seq<char> {
    match ev {
        ProviderEventView::Chunk { content } => content,
        _ => Seq::<char>::empty(),
    }
}

/// The concatenation of all chunk payloads of a sequence of
/// provider-side events.
pub open spec fn chunk_concat(events: Seq<ProviderEventView>) -> Seq<char>
    decreases events.len(),
{
    if events.len() == 0 {
        Seq::<char>::empty()
    } else {
        chunk_content(events.first()) + chunk_concat(events.drop_first())
    }
}

/// What one provider-side event makes the run emit, given the
/// content accumulated so far.
pub open spec fn step_outputs(ev: ProviderEventView, acc: Seq<char>) -> Seq<StreamEventView> {
    match ev {
        ProviderEventView::Start => Seq::<StreamEventView>::empty(),
        ProviderEventView::ReasoningChunk { .. } => Seq::<StreamEventView>::empty(),
        ProviderEventView::Chunk { content } => seq![StreamEventView::Content { content }],
        ProviderEventView::End { usage } => seq![
            StreamEventView::Done { total_content: acc, usage },
        ],
        ProviderEventView::StreamError { message } => seq![StreamEventView::Error { message }],
    }
}

/// The events a run emits after its opening `Start`: a redundant
/// provider `Start` and reasoning chunks are dropped, each content
/// chunk is forwarded as it arrives, and the first terminal event
/// ends the run with `Done` (carrying the accumulated content) or
/// `Error`; whatever follows a terminal event is never read.
pub open spec fn stream_outputs(events: Seq<ProviderEventView>, acc: Seq<char>) -> Seq<
    StreamEventView,
>
    decreases events.len(),
{
    if events.len() == 0 {
        Seq::<StreamEventView>::empty()
    } else {
        match events.first() {
            ProviderEventView::Start => stream_outputs(events.drop_first(), acc),
            ProviderEventView::ReasoningChunk { .. } => stream_outputs(events.drop_first(), acc),
            ProviderEventView::Chunk { content } => seq![
                StreamEventView::Content { content },
            ] + stream_outputs(events.drop_first(), acc + content),
            ProviderEventView::End { usage } => seq![
                StreamEventView::Done { total_content: acc, usage },
            ],
            ProviderEventView::StreamError { message } => seq![
                StreamEventView::Error { message },
            ],
        }
    }
}

/// Everything a run pushes at its consumer: one `Start`, emitted
/// before the provider is contacted, then the forwarded events.
pub open spec fn stream_emissions(events: Seq<ProviderEventView>) -> Seq<StreamEventView> {
    seq![StreamEventView::Start] + stream_outputs(events, Seq::<char>::empty())
}

/// The accumulator state of one streamed completion.
pub struct StreamRun {
    pub total_content: String,
    pub finished: bool,
}

impl StreamRun {
    /// A fresh run: nothing accumulated, not finished.
    pub fn new() -> (r: StreamRun)
        ensures
            r.total_content@ == Seq::<char>::empty(),
            !r.finished,
    {
        StreamRun { total_content: String::new(), finished: false }
    }

    /// Feeds one provider-side event to the run and returns the
    /// consumer-facing event to emit for it, if any.
    pub fn on_event(&mut self, event: ProviderStreamEvent) -> (out: Option<ChatStreamEvent>)
        requires
            !old(self).finished,
        ensures
            event@ matches ProviderEventView::Start ==> out is None
                && final(self).total_content == old(self).total_content
                && !final(self).finished,
            event@ matches ProviderEventView::ReasoningChunk { .. } ==> out is None
                && final(self).total_content == old(self).total_content
                && !final(self).finished,
            event@ matches ProviderEventView::Chunk { content } ==> (out matches Option::Some(e)
                && e@ == (StreamEventView::Content { content })
                && final(self).total_content@ == old(self).total_content@ + content
                && !final(self).finished),
            event@ matches ProviderEventView::End { usage } ==> (out matches Option::Some(e)
                && e@ == (StreamEventView::Done {
                    total_content: old(self).total_content@,
                    usage,
                })
                && final(self).finished
                && final(self).total_content == old(self).total_content),
            event@ matches ProviderEventView::StreamError { message } ==> (out matches Option::Some(e)
                && e@ == (StreamEventView::Error { message })
                && final(self).finished
                && final(self).total_content == old(self).total_content),
    {
        match event {
            ProviderStreamEvent::Start => Option::None,
            ProviderStreamEvent::ReasoningChunk { .. } => Option::None,
            ProviderStreamEvent::Chunk { content } => {
                self.total_content.append(content.as_str());
                Option::Some(ChatStreamEvent::Content { content })
            },
            ProviderStreamEvent::End { usage } => {
                self.finished = true;
                Option::Some(
                    ChatStreamEvent::Done {
                        total_content: self.total_content.clone(),
                        usage,
                    },
                )
            },
            ProviderStreamEvent::StreamError { message } => {
                self.finished = true;
                Option::Some(ChatStreamEvent::Error { message })
            },
        }
    }
}

/// The message of an in-band error for a failure of an already-open
/// stream.
pub open spec fn stream_error_message(detail: Seq<char>) -> Seq<char> {
    "Stream error: "@ + detail
}

/// The message of the terminal error emitted when opening the stream
/// itself fails.
pub open spec fn open_failure_message(detail: Seq<char>) -> Seq<char> {
    "Chat stream error: "@ + detail
}

/// The provider-side event for a failure of the stream itself, ready
/// to be fed to a run: it terminates the stream with an in-band
/// `Error`.
pub fn stream_error_event(detail: String) -> (r: ProviderStreamEvent)
    ensures
        r@ == (ProviderEventView::StreamError { message: stream_error_message(detail@) }),
{
    proof {
        reveal_strlit("Stream error: ");
    }
    ProviderStreamEvent::StreamError {
        message: String::from_str("Stream error: ").concat(detail.as_str()),
    }
}

/// The terminal event emitted when the call that opens the stream
/// fails, after `Start` has already gone out: an `Error`, and no
/// `Done` ever follows it.
pub fn open_failure_event(detail: String) -> (r: ChatStreamEvent)
    ensures
        r@ == (StreamEventView::Error { message: open_failure_message(detail@) }),
{
    proof {
        reveal_strlit("Chat stream error: ");
    }
    ChatStreamEvent::Error {
        message: String::from_str("Chat stream error: ").concat(detail.as_str()),
    }
}

/// The shapes of a sequence of consumer-facing events.
pub open spec fn chat_event_views(s: Seq<ChatStreamEvent>) -> Seq<StreamEventView> {
    s.map_values(|e: ChatStreamEvent| e@)
}

/// The shapes of a sequence of provider-side events.
pub open spec fn provider_event_views(s: Seq<ProviderStreamEvent>) -> Seq<ProviderEventView> {
    s.map_values(|e: ProviderStreamEvent| e@)
}

proof fn lemma_outputs_snoc(s: Seq<ProviderEventView>, e: ProviderEventView, acc: Seq<char>)
    requires
        forall|k: int| 0 <= k < s.len() ==> !terminal_event(#[trigger] s[k]),
    ensures
        stream_outputs(s.push(e), acc) == stream_outputs(s, acc) + step_outputs(
            e,
            acc + chunk_concat(s),
        ),
        chunk_concat(s.push(e)) == chunk_concat(s) + chunk_content(e),
    decreases s.len(),
{
    if s.len() == 0 {
        let one = s.push(e);
        assert(one.first() == e);
        assert(one.drop_first() =~= Seq::<ProviderEventView>::empty());
        assert(one.drop_first() == Seq::<ProviderEventView>::empty());
        assert(acc + Seq::<char>::empty() =~= acc);
        assert(stream_outputs(s, acc) == Seq::<StreamEventView>::empty());
        assert(chunk_concat(s) == Seq::<char>::empty());
        assert(chunk_concat(one.drop_first()) == Seq::<char>::empty());
        assert(chunk_concat(one) =~= chunk_content(e) + Seq::<char>::empty());
        assert(chunk_concat(one) =~= chunk_concat(s) + chunk_content(e));
        match e {
            ProviderEventView::Start => {
                assert(stream_outputs(one.drop_first(), acc) == Seq::<StreamEventView>::empty());
                assert(stream_outputs(one, acc) =~= step_outputs(e, acc + chunk_concat(s)));
            },
            ProviderEventView::ReasoningChunk { .. } => {
                assert(stream_outputs(one.drop_first(), acc) == Seq::<StreamEventView>::empty());
                assert(stream_outputs(one, acc) =~= step_outputs(e, acc + chunk_concat(s)));
            },
            ProviderEventView::Chunk { content } => {
                assert(stream_outputs(one.drop_first(), acc + content) == Seq::<
                    StreamEventView,
                >::empty());
                assert(stream_outputs(one, acc) =~= step_outputs(e, acc + chunk_concat(s)));
            },
            ProviderEventView::End { .. } => {
                assert(stream_outputs(one, acc) =~= step_outputs(e, acc + chunk_concat(s)));
            },
            ProviderEventView::StreamError { .. } => {
                assert(stream_outputs(one, acc) =~= step_outputs(e, acc + chunk_concat(s)));
            },
        }
    } else {
        let s2 = s.drop_first();
        assert(s.push(e).first() == s.first());
        assert(s.push(e).drop_first() =~= s2.push(e));
        assert(!terminal_event(s[0]));
        assert forall|k: int| 0 <= k < s2.len() implies !terminal_event(#[trigger] s2[k]) by {
            assert(s2[k] == s[k + 1]);
        }
        lemma_outputs_snoc(s2, e, acc);
        match s.first() {
            ProviderEventView::Start => {
                assert(chunk_concat(s) == chunk_concat(s2));
            },
            ProviderEventView::ReasoningChunk { .. } => {
                assert(chunk_concat(s) == chunk_concat(s2));
            },
            ProviderEventView::Chunk { content } => {
                lemma_outputs_snoc(s2, e, acc + content);
                assert(chunk_concat(s) == content + chunk_concat(s2));
                assert((acc + content) + chunk_concat(s2) =~= acc + (content + chunk_concat(s2)));
                assert(stream_outputs(s.push(e), acc) == seq![
                    StreamEventView::Content { content },
                ] + (stream_outputs(s2, acc + content) + step_outputs(e, acc + chunk_concat(s))));
                assert(seq![StreamEventView::Content { content }] + (stream_outputs(
                    s2,
                    acc + content,
                ) + step_outputs(e, acc + chunk_concat(s))) =~= (seq![
                    StreamEventView::Content { content },
                ] + stream_outputs(s2, acc + content)) + step_outputs(e, acc + chunk_concat(s)));
                assert(chunk_concat(s.push(e)) == content + chunk_concat(s2.push(e)));
                assert(content + (chunk_concat(s2) + chunk_content(e)) =~= (content
                    + chunk_concat(s2)) + chunk_content(e));
            },
            ProviderEventView::End { .. } => {
                assert(false);
            },
            ProviderEventView::StreamError { .. } => {
                assert(false);
            },
        }
    }
}

proof fn lemma_outputs_truncate(events: Seq<ProviderEventView>, i: int, acc: Seq<char>)
    requires
        0 <= i < events.len(),
        terminal_event(events[i]),
        forall|k: int| 0 <= k < i ==> !terminal_event(#[trigger] events[k]),
    ensures
        stream_outputs(events, acc) == stream_outputs(events.take(i + 1), acc),
    decreases i,
{
    let t = events.take(i + 1);
    assert(t.first() == events.first());
    if i == 0 {
        assert(terminal_event(events.first()));
    } else {
        let s2 = events.drop_first();
        assert(!terminal_event(events.first()));
        assert(terminal_event(s2[i - 1]));
        assert forall|k: int| 0 <= k < i - 1 implies !terminal_event(#[trigger] s2[k]) by {
            assert(s2[k] == events[k + 1]);
        }
        lemma_outputs_truncate(s2, i - 1, acc);
        assert(t.drop_first() =~= s2.take(i as int));
        match events.first() {
            ProviderEventView::Start => {},
            ProviderEventView::ReasoningChunk { .. } => {},
            ProviderEventView::Chunk { content } => {
                lemma_outputs_truncate(s2, i - 1, acc + content);
            },
            ProviderEventView::End { .. } => {},
            ProviderEventView::StreamError { .. } => {},
        }
    }
}

proof fn lemma_has_terminal_shift(events: Seq<ProviderEventView>)
    requires
        events.len() > 0,
        !terminal_event(events.first()),
    ensures
        has_terminal(events) == has_terminal(events.drop_first()),
{
    let s2 = events.drop_first();
    if has_terminal(events) {
        let k = choose|k: int| 0 <= k < events.len() && #[trigger] terminal_event(events[k]);
        assert(k != 0);
        assert(s2[k - 1] == events[k]);
        assert(terminal_event(s2[k - 1]));
    }
    if has_terminal(s2) {
        let k = choose|k: int| 0 <= k < s2.len() && #[trigger] terminal_event(s2[k]);
        assert(events[k + 1] == s2[k]);
        assert(terminal_event(events[k + 1]));
    }
}

/// The text carried by the `Content` events of a sequence of
/// consumer-facing events.
pub open spec fn content_concat(outs: Seq<StreamEventView>) -> Seq<char>
    decreases outs.len(),
{
    if outs.len() == 0 {
        Seq::<char>::empty()
    } else {
        (match outs.first() {
            StreamEventView::Content { content } => content,
            _ => Seq::<char>::empty(),
        }) + content_concat(outs.drop_first())
    }
}

proof fn lemma_outputs_shape(events: Seq<ProviderEventView>, acc: Seq<char>)
    ensures
        forall|k: int|
            0 <= k < stream_outputs(events, acc).len() ==> !(#[trigger] stream_outputs(
                events,
                acc,
            )[k] is Start),
        !has_terminal(events) ==> forall|k: int|
            0 <= k < stream_outputs(events, acc).len() ==> (#[trigger] stream_outputs(
                events,
                acc,
            )[k] is Content),
        has_terminal(events) ==> stream_outputs(events, acc).len() >= 1,
        has_terminal(events) ==> (stream_outputs(events, acc).last() is Done || stream_outputs(
            events,
            acc,
        ).last() is Error),
        has_terminal(events) ==> forall|k: int|
            0 <= k < stream_outputs(events, acc).len() - 1 ==> (#[trigger] stream_outputs(
                events,
                acc,
            )[k] is Content),
        stream_outputs(events, acc).len() >= 1 ==> (stream_outputs(
            events,
            acc,
        ).last() matches StreamEventView::Done { total_content, .. } ==> total_content == acc
            + content_concat(stream_outputs(events, acc))),
    decreases events.len(),
{
    let outs = stream_outputs(events, acc);
    if events.len() == 0 {
    } else {
        let s2 = events.drop_first();
        match events.first() {
            ProviderEventView::Start => {
                lemma_outputs_shape(s2, acc);
                lemma_has_terminal_shift(events);
            },
            ProviderEventView::ReasoningChunk { .. } => {
                lemma_outputs_shape(s2, acc);
                lemma_has_terminal_shift(events);
            },
            ProviderEventView::Chunk { content } => {
                lemma_outputs_shape(s2, acc + content);
                lemma_has_terminal_shift(events);
                let rec = stream_outputs(s2, acc + content);
                assert(outs == seq![StreamEventView::Content { content }] + rec);
                assert(outs.drop_first() =~= rec);
                assert forall|k: int| 0 <= k < outs.len() implies !(#[trigger] outs[k]
                    is Start) by {
                    if k > 0 {
                        assert(outs[k] == rec[k - 1]);
                    }
                }
                if !has_terminal(events) {
                    assert forall|k: int| 0 <= k < outs.len() implies (#[trigger] outs[k]
                        is Content) by {
                        if k > 0 {
                            assert(outs[k] == rec[k - 1]);
                        }
                    }
                } else {
                    assert(rec.len() >= 1);
                    assert(outs.last() == rec.last());
                    assert forall|k: int| 0 <= k < outs.len() - 1 implies (#[trigger] outs[k]
                        is Content) by {
                        if k > 0 {
                            assert(outs[k] == rec[k - 1]);
                        }
                    }
                }
                match outs.last() {
                    StreamEventView::Done { total_content, .. } => {
                        assert(rec.len() >= 1);
                        assert(outs.last() == rec.last());
                        assert(total_content == (acc + content) + content_concat(rec));
                        assert(content_concat(outs) == content + content_concat(rec));
                        assert((acc + content) + content_concat(rec) =~= acc + (content
                            + content_concat(rec)));
                    },
                    _ => {},
                }
            },
            ProviderEventView::End { usage } => {
                assert(outs == seq![StreamEventView::Done { total_content: acc, usage }]);
                assert(terminal_event(events[0]));
                assert(has_terminal(events));
                assert(outs.drop_first() =~= Seq::<StreamEventView>::empty());
                assert(outs.drop_first() == Seq::<StreamEventView>::empty());
                assert(content_concat(outs.drop_first()) == Seq::<char>::empty());
                assert(content_concat(outs) =~= Seq::<char>::empty());
                assert(acc + Seq::<char>::empty() =~= acc);
            },
            ProviderEventView::StreamError { message } => {
                assert(outs == seq![StreamEventView::Error { message }]);
                assert(terminal_event(events[0]));
                assert(has_terminal(events));
            },
        }
    }
}

/// The streaming protocol law.  A run's full emission sequence opens
/// with exactly one `Start`; every later event up to the terminal one
/// is a `Content`; when the provider signalled an end or an error
/// there is exactly one terminal event (`Done` or `Error`) and it
/// comes last; and a closing `Done` carries exactly the
/// concatenation of all `Content` payloads before it.
pub proof fn lemma_stream_protocol(events: Seq<ProviderEventView>)
    ensures
        stream_emissions(events).len() >= 1,
        stream_emissions(events).first() is Start,
        forall|k: int|
            1 <= k < stream_emissions(events).len() ==> !(#[trigger] stream_emissions(
                events,
            )[k] is Start),
        has_terminal(events) ==> stream_emissions(events).len() >= 2,
        has_terminal(events) ==> (stream_emissions(events).last() is Done || stream_emissions(
            events,
        ).last() is Error),
        has_terminal(events) ==> forall|k: int|
            1 <= k < stream_emissions(events).len() - 1 ==> (#[trigger] stream_emissions(
                events,
            )[k] is Content),
        !has_terminal(events) ==> forall|k: int|
            1 <= k < stream_emissions(events).len() ==> (#[trigger] stream_emissions(
                events,
            )[k] is Content),
        stream_emissions(events).last() matches StreamEventView::Done { total_content, .. }
            ==> total_content == content_concat(stream_emissions(events)),
{
    let outs = stream_outputs(events, Seq::<char>::empty());
    let ems = stream_emissions(events);
    lemma_outputs_shape(events, Seq::<char>::empty());
    assert(ems.first() is Start);
    assert forall|k: int| 1 <= k < ems.len() implies !(#[trigger] ems[k] is Start) by {
        assert(ems[k] == outs[k - 1]);
    }
    if has_terminal(events) {
        assert(outs.len() >= 1);
        assert(ems.last() == outs.last());
        assert forall|k: int| 1 <= k < ems.len() - 1 implies (#[trigger] ems[k] is Content) by {
            assert(ems[k] == outs[k - 1]);
        }
    } else {
        assert forall|k: int| 1 <= k < ems.len() implies (#[trigger] ems[k] is Content) by {
            assert(ems[k] == outs[k - 1]);
        }
    }
    match ems.last() {
        StreamEventView::Done { total_content, .. } => {
            assert(ems.len() >= 1);
            if outs.len() == 0 {
                assert(ems.last() == ems.first());
                assert(false);
            }
            assert(ems.last() == outs.last());
            assert(total_content == Seq::<char>::empty() + content_concat(outs));
            assert(ems.drop_first() =~= outs);
            assert(content_concat(ems) == Seq::<char>::empty() + content_concat(outs));
            assert(Seq::<char>::empty() + content_concat(outs) =~= content_concat(outs));
        },
        _ => {},
    }
}

/// Replays a full sequence of provider-side events: emits `Start`
/// first, forwards every event through a fresh run, and stops at the
/// first terminal event.  This is the whole streaming protocol with
/// the transport factored out.
pub fn run_stream(events: Vec<ProviderStreamEvent>) -> (out: Vec<ChatStreamEvent>)
    ensures
        chat_event_views(out@) == stream_emissions(provider_event_views(events@)),
{
    let ghost pviews = provider_event_views(events@);
    let mut out: Vec<ChatStreamEvent> = Vec::new();
    out.push(ChatStreamEvent::Start);
    let mut run = StreamRun::new();
    let mut i: usize = 0;
    proof {
        assert(pviews.len() == events@.len());
        assert(pviews.take(0) =~= Seq::<ProviderEventView>::empty());
        assert(chunk_concat(pviews.take(0)) =~= Seq::<char>::empty());
        assert(chat_event_views(out@) =~= seq![StreamEventView::Start] + stream_outputs(
            pviews.take(0),
            Seq::<char>::empty(),
        ));
    }
    while i < events.len()
        invariant
            i <= events@.len(),
            pviews == provider_event_views(events@),
            pviews.len() == events@.len(),
            forall|k: int| 0 <= k < i ==> !terminal_event(#[trigger] pviews[k]),
            !run.finished,
            run.total_content@ == chunk_concat(pviews.take(i as int)),
            chat_event_views(out@) == seq![StreamEventView::Start] + stream_outputs(
                pviews.take(i as int),
                Seq::<char>::empty(),
            ),
        decreases events@.len() - i,
    {
        let ev = events[i].duplicate();
        proof {
            assert(ev@ == pviews[i as int]);
            lemma_outputs_snoc(pviews.take(i as int), pviews[i as int], Seq::<char>::empty());
            assert(pviews.take(i + 1) =~= pviews.take(i as int).push(pviews[i as int]));
            assert(Seq::<char>::empty() + chunk_concat(pviews.take(i as int)) =~= chunk_concat(
                pviews.take(i as int),
            ));
        }
        let ghost pre_out = out@;
        let emitted = run.on_event(ev);
        match emitted {
            Option::Some(e) => {
                out.push(e);
                proof {
                    assert(chat_event_views(out@) =~= chat_event_views(pre_out).push(e@));
                    assert(seq![e@] =~= step_outputs(
                        pviews[i as int],
                        chunk_concat(pviews.take(i as int)),
                    ));
                    assert(chat_event_views(pre_out).push(e@) =~= chat_event_views(pre_out)
                        + seq![e@]);
                    assert((seq![StreamEventView::Start] + stream_outputs(
                        pviews.take(i as int),
                        Seq::<char>::empty(),
                    )) + seq![e@] =~= seq![StreamEventView::Start] + (stream_outputs(
                        pviews.take(i as int),
                        Seq::<char>::empty(),
                    ) + seq![e@]));
                }
            },
            Option::None => {
                proof {
                    assert(step_outputs(pviews[i as int], chunk_concat(pviews.take(i as int)))
                        =~= Seq::<StreamEventView>::empty());
                    assert(stream_outputs(pviews.take(i + 1), Seq::<char>::empty())
                        =~= stream_outputs(pviews.take(i as int), Seq::<char>::empty()));
                }
            },
        }
        if run.finished {
            proof {
                assert(terminal_event(pviews[i as int]));
                lemma_outputs_truncate(pviews, i as int, Seq::<char>::empty());
            }
            return out;
        }
        proof {
            assert(!terminal_event(pviews[i as int]));
        }
        i = i + 1;
    }
    proof {
        assert(pviews.take(pviews.len() as int) =~= pviews);
    }
    out
}

} // verus!
