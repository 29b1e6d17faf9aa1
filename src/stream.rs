//! The decisions taken while draining the event stream of an image build or
//! of a registry push. The caller reads the stream and hands each event to a
//! step function, which says what to report and whether the phase goes on.
//!
//! Both phases have one shape: `Streaming`, then per event either `Streaming`
//! again or `Aborted` on a transport failure, and `Drained` at the end of the
//! stream. Errors embedded in well-formed messages are reported and do not
//! stop the phase.
use vstd::prelude::*;

verus! {

/// A decoded message of the build stream.
pub struct BuildMessage {
    /// A chunk of build output.
    pub stream: Option<String>,
    /// An error that the daemon reported inside the stream.
    pub error: Option<String>,
}

/// A decoded message of the push stream.
pub struct PushMessage {
    pub status: Option<String>,
    pub progress: Option<String>,
    pub error: Option<String>,
}

/// What the transport hands over next.
pub enum StreamEvent<M> {
    /// A well-formed message.
    Message(M),
    /// The stream itself failed (connection reset, malformed frame).
    Failure(String),
    /// The stream ended.
    End,
}

/// One thing to tell the user, in the order of arrival.
pub enum Report {
    /// Build output, written as it came.
    Log(String),
    /// An error embedded in a message.
    EmbeddedError(String),
    /// A push status line.
    Status(String),
    /// A push status line with its progress.
    StatusProgress(String, String),
}

/// What a `Report` says, as plain sequences.
pub enum ReportModel {
    Log(Seq<char>),
    EmbeddedError(Seq<char>),
    Status(Seq<char>),
    StatusProgress(Seq<char>, Seq<char>),
}

impl View for Report {
    type V = ReportModel;

    open spec fn view(&self) -> ReportModel {
        match self {
            Report::Log(s) => ReportModel::Log(s@),
            Report::EmbeddedError(s) => ReportModel::EmbeddedError(s@),
            Report::Status(s) => ReportModel::Status(s@),
            Report::StatusProgress(s, p) => ReportModel::StatusProgress(s@, p@),
        }
    }
}

/// Where a phase stands.
pub enum Phase {
    Streaming,
    /// Ended by a transport failure, with its description.
    Aborted(String),
    /// The stream ended without a transport failure.
    Drained,
}

/// Where a phase stands, as plain sequences.
pub enum PhaseModel {
    Streaming,
    Aborted(Seq<char>),
    Drained,
}

impl View for Phase {
    type V = PhaseModel;

    open spec fn view(&self) -> PhaseModel {
        match self {
            Phase::Streaming => PhaseModel::Streaming,
            Phase::Aborted(s) => PhaseModel::Aborted(s@),
            Phase::Drained => PhaseModel::Drained,
        }
    }
}

/// The reports of one build message: its output chunk, then its embedded error.
pub open spec fn build_message_reports(m: BuildMessage) -> Seq<ReportModel> {
    let out = match m.stream {
        Some(s) => seq![ReportModel::Log(s@)],
        None => Seq::empty(),
    };
    match m.error {
        Some(e) => out.push(ReportModel::EmbeddedError(e@)),
        None => out,
    }
}

/// The reports of one push message: an embedded error alone when there is
/// one, else the status with its progress, else the status alone, else none.
pub open spec fn push_message_reports(m: PushMessage) -> Seq<ReportModel> {
    match (m.error, m.status, m.progress) {
        (Some(e), _, _) => seq![ReportModel::EmbeddedError(e@)],
        (None, Some(s), Some(p)) => seq![ReportModel::StatusProgress(s@, p@)],
        (None, Some(s), None) => seq![ReportModel::Status(s@)],
        (None, None, _) => Seq::empty(),
    }
}

/// One step of a phase: the next phase and what to report. A finished phase
/// stays as it is.
pub open spec fn step_spec<M>(p: PhaseModel, e: StreamEvent<M>, reports: spec_fn(M) -> Seq<ReportModel>) -> (PhaseModel, Seq<ReportModel>) {
    match p {
        PhaseModel::Streaming => match e {
            StreamEvent::Message(m) => (PhaseModel::Streaming, reports(m)),
            StreamEvent::Failure(t) => (PhaseModel::Aborted(t@), Seq::empty()),
            StreamEvent::End => (PhaseModel::Drained, Seq::empty()),
        },
        _ => (p, Seq::empty()),
    }
}

/// The phase after `events`, from `Streaming`, and all that was reported.
pub open spec fn run<M>(events: Seq<StreamEvent<M>>, reports: spec_fn(M) -> Seq<ReportModel>) -> (PhaseModel, Seq<ReportModel>)
    decreases events.len(),
{
    if events.len() == 0 {
        (PhaseModel::Streaming, Seq::empty())
    } else {
        let (p, before) = run(events.drop_last(), reports);
        let (q, more) = step_spec(p, events.last(), reports);
        (q, before + more)
    }
}

/// A transport failure aborts the phase at once: what follows it is neither
/// read into the phase nor reported.
pub proof fn lemma_failure_aborts<M>(
    events: Seq<StreamEvent<M>>,
    reports: spec_fn(M) -> Seq<ReportModel>,
    i: int,
    t: String,
)
    requires
        0 <= i < events.len(),
        events[i] == StreamEvent::<M>::Failure(t),
        forall|j: int| 0 <= j < i ==> #[trigger] events[j] is Message,
    ensures
        run(events, reports).0 == PhaseModel::Aborted(t@),
        run(events, reports).1 == run(events.subrange(0, i), reports).1,
        run(events.subrange(0, i), reports).0 == PhaseModel::Streaming,
    decreases events.len(),
{
    lemma_messages_keep_streaming(events.subrange(0, i), reports);
    if i == events.len() - 1 {
        assert(events.drop_last() =~= events.subrange(0, i));
        assert(run(events.subrange(0, i), reports).1 + Seq::<ReportModel>::empty() =~= run(
            events.subrange(0, i),
            reports,
        ).1);
    } else {
        let prev = events.drop_last();
        assert forall|j: int| 0 <= j < i implies #[trigger] prev[j] is Message by {
            assert(prev[j] == events[j]);
        }
        lemma_failure_aborts(prev, reports, i, t);
        assert(prev.subrange(0, i) =~= events.subrange(0, i));
        let (p, before) = run(prev, reports);
        assert(before + Seq::<ReportModel>::empty() =~= before);
    }
}

/// Messages, whatever errors they embed, leave the phase streaming, and each
/// one's reports follow those of the messages before it.
pub proof fn lemma_messages_keep_streaming<M>(
    events: Seq<StreamEvent<M>>,
    reports: spec_fn(M) -> Seq<ReportModel>,
)
    requires
        forall|j: int| 0 <= j < events.len() ==> #[trigger] events[j] is Message,
    ensures
        run(events, reports).0 == PhaseModel::Streaming,
        events.len() > 0 ==> run(events, reports).1 == run(events.drop_last(), reports).1
            + reports(events.last()->Message_0),
    decreases events.len(),
{
    if events.len() > 0 {
        let prev = events.drop_last();
        assert forall|j: int| 0 <= j < prev.len() implies #[trigger] prev[j] is Message by {
            assert(prev[j] == events[j]);
        }
        lemma_messages_keep_streaming(prev, reports);
        assert(events[events.len() - 1] is Message);
    }
}

/// A stream of well-formed messages that ends drains the phase with success,
/// however many embedded errors its messages reported.
pub proof fn lemma_end_drains<M>(events: Seq<StreamEvent<M>>, reports: spec_fn(M) -> Seq<ReportModel>)
    requires
        events.len() > 0,
        events.last() is End,
        forall|j: int| 0 <= j < events.len() - 1 ==> #[trigger] events[j] is Message,
    ensures
        run(events, reports).0 == PhaseModel::Drained,
        run(events, reports).1 == run(events.drop_last(), reports).1,
{
    let prev = events.drop_last();
    assert forall|j: int| 0 <= j < prev.len() implies #[trigger] prev[j] is Message by {
        assert(prev[j] == events[j]);
    }
    lemma_messages_keep_streaming(prev, reports);
    assert(run(prev, reports).1 + Seq::<ReportModel>::empty() =~= run(prev, reports).1);
}

/// An error embedded in a build or push message is among the reports of
/// that message.
pub proof fn lemma_embedded_error_reported(b: BuildMessage, p: PushMessage)
    ensures
        b.error matches Some(e) ==> build_message_reports(b).contains(
            ReportModel::EmbeddedError(e@),
        ),
        p.error matches Some(e) ==> push_message_reports(p).contains(
            ReportModel::EmbeddedError(e@),
        ),
{
    if let Some(e) = b.error {
        let r = build_message_reports(b);
        assert(r[r.len() - 1] == ReportModel::EmbeddedError(e@));
    }
    if let Some(e) = p.error {
        assert(push_message_reports(p)[0] == ReportModel::EmbeddedError(e@));
    }
}

/// A copy of `s`.
fn copy_string(s: &String) -> (r: String)
    ensures
        r@ == s@,
{
    s.clone()
}

/// What to report for one build message.
pub fn build_reports(m: &BuildMessage) -> (r: Vec<Report>)
    ensures
        r@.map_values(|x: Report| x@) == build_message_reports(*m),
{
    let mut out: Vec<Report> = Vec::new();
    match &m.stream {
        Some(s) => {
            out.push(Report::Log(copy_string(s)));
        },
        None => {},
    }
    let ghost first = out@.map_values(|x: Report| x@);
    match &m.error {
        Some(e) => {
            out.push(Report::EmbeddedError(copy_string(e)));
            assert(out@.map_values(|x: Report| x@) =~= first.push(ReportModel::EmbeddedError(e@)));
        },
        None => {},
    }
    assert(out@.map_values(|x: Report| x@) =~= build_message_reports(*m));
    out
}

/// What to report for one push message.
pub fn push_reports(m: &PushMessage) -> (r: Vec<Report>)
    ensures
        r@.map_values(|x: Report| x@) == push_message_reports(*m),
{
    let mut out: Vec<Report> = Vec::new();
    match (&m.error, &m.status, &m.progress) {
        (Some(e), _, _) => {
            out.push(Report::EmbeddedError(copy_string(e)));
        },
        (None, Some(s), Some(p)) => {
            out.push(Report::StatusProgress(copy_string(s), copy_string(p)));
        },
        (None, Some(s), None) => {
            out.push(Report::Status(copy_string(s)));
        },
        (None, None, _) => {},
    }
    assert(out@.map_values(|x: Report| x@) =~= push_message_reports(*m));
    out
}

/// One step of the build phase.
pub fn build_step(phase: &Phase, event: &StreamEvent<BuildMessage>) -> (r: (Phase, Vec<Report>))
    ensures
        (r.0@, r.1@.map_values(|x: Report| x@)) == step_spec(
            phase@,
            *event,
            |m: BuildMessage| build_message_reports(m),
        ),
{
    match phase {
        Phase::Streaming => match event {
            StreamEvent::Message(m) => (Phase::Streaming, build_reports(m)),
            StreamEvent::Failure(t) => {
                let r = (Phase::Aborted(copy_string(t)), Vec::new());
                assert(r.1@.map_values(|x: Report| x@) =~= Seq::<ReportModel>::empty());
                r
            },
            StreamEvent::End => {
                let r = (Phase::Drained, Vec::new());
                assert(r.1@.map_values(|x: Report| x@) =~= Seq::<ReportModel>::empty());
                r
            },
        },
        Phase::Aborted(t) => {
            let r = (Phase::Aborted(copy_string(t)), Vec::new());
            assert(r.1@.map_values(|x: Report| x@) =~= Seq::<ReportModel>::empty());
            r
        },
        Phase::Drained => {
            let r = (Phase::Drained, Vec::new());
            assert(r.1@.map_values(|x: Report| x@) =~= Seq::<ReportModel>::empty());
            r
        },
    }
}

/// One step of the push phase.
pub fn push_step(phase: &Phase, event: &StreamEvent<PushMessage>) -> (r: (Phase, Vec<Report>))
    ensures
        (r.0@, r.1@.map_values(|x: Report| x@)) == step_spec(
            phase@,
            *event,
            |m: PushMessage| push_message_reports(m),
        ),
{
    match phase {
        Phase::Streaming => match event {
            StreamEvent::Message(m) => (Phase::Streaming, push_reports(m)),
            StreamEvent::Failure(t) => {
                let r = (Phase::Aborted(copy_string(t)), Vec::new());
                assert(r.1@.map_values(|x: Report| x@) =~= Seq::<ReportModel>::empty());
                r
            },
            StreamEvent::End => {
                let r = (Phase::Drained, Vec::new());
                assert(r.1@.map_values(|x: Report| x@) =~= Seq::<ReportModel>::empty());
                r
            },
        },
        Phase::Aborted(t) => {
            let r = (Phase::Aborted(copy_string(t)), Vec::new());
            assert(r.1@.map_values(|x: Report| x@) =~= Seq::<ReportModel>::empty());
            r
        },
        Phase::Drained => {
            let r = (Phase::Drained, Vec::new());
            assert(r.1@.map_values(|x: Report| x@) =~= Seq::<ReportModel>::empty());
            r
        },
    }
}

} // verus!
