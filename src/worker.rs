//! The worker's decisions: which model file to load, which job to take, when
//! an input is rejected, and which fields of a job record are written, in
//! which order. The caller performs each action and reports what happened.
use vstd::prelude::*;
use vstd::string::StringExecFns;

use crate::layout::INPUT_LEN;
use crate::text::{decimal_text, int_text, percent_hundredths_text, percent_text};

verus! {

/// The list that producers push job ids onto.
pub open spec fn queue_name() -> Seq<char> {
    "queue:rust_inference"@
}

/// The key of the record that holds a job's fields.
pub open spec fn record_key(job_id: Seq<char>) -> Seq<char> {
    "request:"@ + job_id
}

/// The record field that holds a job's input, as text.
pub open spec fn input_field() -> Seq<char> {
    "go_result"@
}

/// The record field that holds a job's state: `finished` or `error: ...`.
pub open spec fn status_field() -> Seq<char> {
    "status"@
}

/// The record field that holds the predicted class index.
pub open spec fn prediction_field() -> Seq<char> {
    "prediction_id"@
}

/// The record field that holds the confidence of the prediction.
pub open spec fn confidence_field() -> Seq<char> {
    "confidence"@
}

pub open spec fn finished_status() -> Seq<char> {
    "finished"@
}

pub open spec fn error_status(reason: Seq<char>) -> Seq<char> {
    "error: "@ + reason
}

/// The reason given for an input of the wrong length.
pub open spec fn invalid_size_reason() -> Seq<char> {
    "invalid input size"@
}

/// The two serialized forms a model is loaded from, in the order tried.
#[derive(Clone, Copy, Debug, PartialEq, Eq, Structural)]
pub enum ModelFormat {
    Primary,
    Fallback,
}

pub open spec fn model_path(format: ModelFormat) -> Seq<char> {
    match format {
        ModelFormat::Primary => "resnet18.onnx"@,
        ModelFormat::Fallback => "resnet18.ot"@,
    }
}

/// One field of a job record and the text written to it.
struct FieldWrite {
    field: String,
    value: String,
}

impl View for FieldWrite {
    type V = (Seq<char>, Seq<char>);

    closed spec fn view(&self) -> (Seq<char>, Seq<char>) {
        (self.field@, self.value@)
    }
}

/// The single write that records a failed job.
pub open spec fn error_writes(reason: Seq<char>) -> Seq<(Seq<char>, Seq<char>)> {
    seq![(status_field(), error_status(reason))]
}

/// The writes that record a classified job: the class, the confidence, and
/// the finished status last.
pub open spec fn success_writes(class_id: i64, hundredths: u32) -> Seq<(Seq<char>, Seq<char>)> {
    seq![
        (prediction_field(), int_text(class_id as int)),
        (confidence_field(), percent_text(hundredths as nat)),
        (status_field(), finished_status()),
    ]
}

/// What the caller reports after performing an action.
#[derive(Clone, Debug, PartialEq, Eq)]
pub enum Event {
    ModelLoaded,
    ModelFailed,
    /// A job id came off the queue.
    Popped(String),
    /// The job's input was read and decoded; it holds this many samples.
    InputLoaded(usize),
    /// The job's input could not be read or decoded.
    InputFailed(String),
    /// The model classified the input; the confidence is in hundredths of a
    /// percent.
    Inferred { class_id: i64, confidence_hundredths: u32 },
    InferenceFailed(String),
    Written,
    WriteFailed(String),
}

/// What the caller is to do next.
#[derive(Clone, Debug, PartialEq, Eq)]
pub enum Action {
    LoadModel { path: String },
    /// No model could be loaded: the process stops.
    Exit,
    /// Wait until a job id arrives on the queue.
    TakeJob { queue: String },
    FetchInput { key: String, field: String },
    /// Preprocess the fetched input, run the model and postprocess its output.
    RunModel,
    WriteField { key: String, field: String, value: String },
}

pub enum ActionView {
    LoadModel(Seq<char>),
    Exit,
    TakeJob(Seq<char>),
    FetchInput(Seq<char>, Seq<char>),
    RunModel,
    WriteField(Seq<char>, Seq<char>, Seq<char>),
}

impl View for Action {
    type V = ActionView;

    open spec fn view(&self) -> ActionView {
        match self {
            Action::LoadModel { path } => ActionView::LoadModel(path@),
            Action::Exit => ActionView::Exit,
            Action::TakeJob { queue } => ActionView::TakeJob(queue@),
            Action::FetchInput { key, field } => ActionView::FetchInput(key@, field@),
            Action::RunModel => ActionView::RunModel,
            Action::WriteField { key, field, value } => ActionView::WriteField(
                key@,
                field@,
                value@,
            ),
        }
    }
}

/// Where the worker stands.
enum Phase {
    LoadingModel(ModelFormat),
    Stopped,
    Idle,
    Fetching { key: String },
    Inferring { key: String },
    Publishing { key: String, current: FieldWrite, rest: Vec<FieldWrite> },
}

/// Where the worker stands, with a job's pending writes as one sequence whose
/// first element is the write under way.
pub enum PhaseView {
    LoadingModel(ModelFormat),
    Stopped,
    Idle,
    Fetching(Seq<char>),
    Inferring(Seq<char>),
    Publishing(Seq<char>, Seq<(Seq<char>, Seq<char>)>),
}

impl View for Phase {
    type V = PhaseView;

    closed spec fn view(&self) -> PhaseView {
        match self {
            Phase::LoadingModel(f) => PhaseView::LoadingModel(*f),
            Phase::Stopped => PhaseView::Stopped,
            Phase::Idle => PhaseView::Idle,
            Phase::Fetching { key } => PhaseView::Fetching(key@),
            Phase::Inferring { key } => PhaseView::Inferring(key@),
            Phase::Publishing { key, current, rest } => PhaseView::Publishing(
                key@,
                seq![current@] + rest@.map_values(|w: FieldWrite| w@),
            ),
        }
    }
}

/// Whether `e` is a report of the action that phase `p` asks for.
pub open spec fn accepts(p: PhaseView, e: Event) -> bool {
    match p {
        PhaseView::LoadingModel(_) => e is ModelLoaded || e is ModelFailed,
        PhaseView::Stopped => false,
        PhaseView::Idle => e is Popped,
        PhaseView::Fetching(_) => e is InputLoaded || e is InputFailed,
        PhaseView::Inferring(_) => e is Inferred || e is InferenceFailed,
        PhaseView::Publishing(_, _) => e is Written || e is WriteFailed,
    }
}

/// The phase after an accepted event.
pub open spec fn next(p: PhaseView, e: Event) -> PhaseView {
    match p {
        PhaseView::LoadingModel(f) => match e {
            Event::ModelLoaded => PhaseView::Idle,
            _ => match f {
                ModelFormat::Primary => PhaseView::LoadingModel(ModelFormat::Fallback),
                ModelFormat::Fallback => PhaseView::Stopped,
            },
        },
        PhaseView::Stopped => p,
        PhaseView::Idle => match e {
            Event::Popped(id) => PhaseView::Fetching(record_key(id@)),
            _ => p,
        },
        PhaseView::Fetching(k) => match e {
            Event::InputLoaded(n) => if n == INPUT_LEN {
                PhaseView::Inferring(k)
            } else {
                PhaseView::Publishing(k, error_writes(invalid_size_reason()))
            },
            Event::InputFailed(r) => PhaseView::Publishing(k, error_writes(r@)),
            _ => p,
        },
        PhaseView::Inferring(k) => match e {
            Event::Inferred { class_id, confidence_hundredths } => PhaseView::Publishing(
                k,
                success_writes(class_id, confidence_hundredths),
            ),
            Event::InferenceFailed(r) => PhaseView::Publishing(k, error_writes(r@)),
            _ => p,
        },
        PhaseView::Publishing(k, ws) => match e {
            Event::Written => if ws.len() <= 1 {
                PhaseView::Idle
            } else {
                PhaseView::Publishing(k, ws.drop_first())
            },
            Event::WriteFailed(r) => if ws.len() == 0 || ws[0].0 == status_field() {
                PhaseView::Idle
            } else {
                PhaseView::Publishing(k, error_writes(r@))
            },
            _ => p,
        },
    }
}

/// The action that phase `p` asks for.
pub open spec fn action_of(p: PhaseView) -> ActionView {
    match p {
        PhaseView::LoadingModel(f) => ActionView::LoadModel(model_path(f)),
        PhaseView::Stopped => ActionView::Exit,
        PhaseView::Idle => ActionView::TakeJob(queue_name()),
        PhaseView::Fetching(k) => ActionView::FetchInput(k, input_field()),
        PhaseView::Inferring(_) => ActionView::RunModel,
        PhaseView::Publishing(k, ws) => ActionView::WriteField(k, ws[0].0, ws[0].1),
    }
}

/// A job's pending writes end with its one status write.
pub open spec fn plan_ok(ws: Seq<(Seq<char>, Seq<char>)>) -> bool {
    &&& ws.len() >= 1
    &&& ws.last().0 == status_field()
    &&& forall|i: int| 0 <= i < ws.len() - 1 ==> #[trigger] ws[i].0 != status_field()
}

/// A phase is well formed when any writes it has pending form a job's plan.
pub open spec fn phase_ok(p: PhaseView) -> bool {
    match p {
        PhaseView::Publishing(_, ws) => plan_ok(ws),
        _ => true,
    }
}

/// The phase after a sequence of reports, where a report that does not fit
/// the phase changes nothing.
pub open spec fn run(p: PhaseView, events: Seq<Event>) -> PhaseView
    decreases events.len(),
{
    if events.len() == 0 {
        p
    } else {
        let e = events.last();
        let q = run(p, events.drop_last());
        if accepts(q, e) {
            next(q, e)
        } else {
            q
        }
    }
}

pub open spec fn initial_phase() -> PhaseView {
    PhaseView::LoadingModel(ModelFormat::Primary)
}

proof fn lemma_field_names_differ()
    ensures
        prediction_field() != status_field(),
        confidence_field() != status_field(),
{
    reveal_strlit("prediction_id");
    reveal_strlit("confidence");
    reveal_strlit("status");
    assert(prediction_field().len() != status_field().len());
    assert(confidence_field().len() != status_field().len());
}

/// Every accepted report keeps a phase well formed.
pub proof fn lemma_next_keeps_phase_ok(p: PhaseView, e: Event)
    requires
        phase_ok(p),
        accepts(p, e),
    ensures
        phase_ok(next(p, e)),
{
    lemma_field_names_differ();
    match p {
        PhaseView::Publishing(k, ws) => {
            if e is Written && ws.len() > 1 {
                let t = ws.drop_first();
                assert forall|i: int| 0 <= i < t.len() - 1 implies #[trigger] t[i].0
                    != status_field() by {
                    assert(t[i] == ws[i + 1]);
                }
            }
        },
        PhaseView::Inferring(k) => {
            if let Event::Inferred { class_id, confidence_hundredths } = e {
                let ws = success_writes(class_id, confidence_hundredths);
                assert forall|i: int| 0 <= i < ws.len() - 1 implies #[trigger] ws[i].0
                    != status_field() by {}
            }
        },
        _ => {},
    }
}

/// An input whose length is not the expected sample count is answered by a
/// single write, the status `error: invalid input size`, with no prediction
/// and no confidence; whether that write succeeds or fails, the worker then
/// goes back to the queue.
pub proof fn lemma_invalid_size_rejected(key: Seq<char>, n: usize, failure: String)
    requires
        n != INPUT_LEN,
    ensures
        next(PhaseView::Fetching(key), Event::InputLoaded(n)) == PhaseView::Publishing(
            key,
            seq![(status_field(), error_status(invalid_size_reason()))],
        ),
        next(next(PhaseView::Fetching(key), Event::InputLoaded(n)), Event::Written)
            == PhaseView::Idle,
        next(next(PhaseView::Fetching(key), Event::InputLoaded(n)), Event::WriteFailed(failure))
            == PhaseView::Idle,
{
}

/// Jobs are handled one at a time: apart from startup, the worker goes back
/// to the queue only from asking for a job's status write, so each job's
/// terminal status is written before the next job is taken.
pub proof fn lemma_next_job_after_status(p: PhaseView, e: Event)
    requires
        phase_ok(p),
        accepts(p, e),
        next(p, e) is Idle,
        !(p is LoadingModel),
    ensures
        match action_of(p) {
            ActionView::WriteField(_, field, _) => field == status_field(),
            _ => false,
        },
{
    lemma_field_names_differ();
}

/// Until a model is reported loaded, the worker never asks to take a job.
pub proof fn lemma_no_job_without_model(events: Seq<Event>)
    requires
        forall|i: int| 0 <= i < events.len() ==> !(#[trigger] events[i] is ModelLoaded),
    ensures
        run(initial_phase(), events) is LoadingModel || run(initial_phase(), events) is Stopped,
        !(action_of(run(initial_phase(), events)) is TakeJob),
    decreases events.len(),
{
    if events.len() > 0 {
        let prefix = events.drop_last();
        assert forall|i: int| 0 <= i < prefix.len() implies !(#[trigger] prefix[i] is ModelLoaded) by {
            assert(prefix[i] == events[i]);
        }
        lemma_no_job_without_model(prefix);
        assert(!(events[events.len() - 1] is ModelLoaded));
    }
}

/// Once both model files have failed to load, the worker stays stopped,
/// whatever is reported after.
pub proof fn lemma_stopped_without_model(events: Seq<Event>)
    requires
        events.len() >= 2,
        events[0] is ModelFailed,
        events[1] is ModelFailed,
    ensures
        run(initial_phase(), events) == PhaseView::Stopped,
        action_of(run(initial_phase(), events)) == ActionView::Exit,
    decreases events.len(),
{
    if events.len() > 2 {
        let prefix = events.drop_last();
        assert(prefix[0] == events[0] && prefix[1] == events[1]);
        lemma_stopped_without_model(prefix);
    } else {
        let first = events.drop_last();
        assert(first.drop_last().len() == 0);
        assert(first.last() == events[0]);
        assert(run(initial_phase(), first.drop_last()) == initial_phase());
        assert(run(initial_phase(), first) == PhaseView::LoadingModel(ModelFormat::Fallback));
        assert(events.last() == events[1]);
    }
}

/// `"request:"` followed by the job id.
pub fn record_key_of(job_id: &String) -> (r: String)
    ensures
        r@ == record_key(job_id@),
{
    let mut k = String::from_str("request:");
    k.append(job_id.as_str());
    k
}

/// `"error: "` followed by the reason.
pub fn error_status_of(reason: &String) -> (r: String)
    ensures
        r@ == error_status(reason@),
{
    let mut s = String::from_str("error: ");
    s.append(reason.as_str());
    s
}

fn status_write(value: String) -> (w: FieldWrite)
    ensures
        w@ == (status_field(), value@),
{
    FieldWrite { field: String::from_str("status"), value }
}

/// The phase that publishes `ws`, where `ws` is not empty.
fn publishing(key: String, mut ws: Vec<FieldWrite>) -> (p: Phase)
    requires
        ws@.len() >= 1,
    ensures
        p@ == PhaseView::Publishing(key@, ws@.map_values(|w: FieldWrite| w@)),
{
    let ghost all = ws@;
    let current = ws.remove(0);
    let p = Phase::Publishing { key, current, rest: ws };
    assert(seq![current@] + ws@.map_values(|w: FieldWrite| w@) =~= all.map_values(
        |w: FieldWrite| w@,
    ));
    p
}

fn error_phase(key: String, reason: &String) -> (p: Phase)
    ensures
        p@ == PhaseView::Publishing(key@, error_writes(reason@)),
{
    let ws = vec![status_write(error_status_of(reason))];
    let p = publishing(key, ws);
    assert(ws@.map_values(|w: FieldWrite| w@) =~= error_writes(reason@));
    p
}

fn success_phase(key: String, class_id: i64, hundredths: u32) -> (p: Phase)
    ensures
        p@ == PhaseView::Publishing(key@, success_writes(class_id, hundredths)),
{
    let ws = vec![
        FieldWrite { field: String::from_str("prediction_id"), value: decimal_text(class_id) },
        FieldWrite {
            field: String::from_str("confidence"),
            value: percent_hundredths_text(hundredths),
        },
        status_write(String::from_str("finished")),
    ];
    let p = publishing(key, ws);
    assert(ws@.map_values(|w: FieldWrite| w@) =~= success_writes(class_id, hundredths));
    p
}

/// The phase after `event`, or `phase` unchanged and `false` when the event
/// does not report the action that `phase` asks for.
fn step(phase: Phase, event: Event) -> (r: (Phase, bool))
    ensures
        r.1 == accepts(phase@, event),
        r.0@ == (if r.1 {
            next(phase@, event)
        } else {
            phase@
        }),
{
    match phase {
        Phase::LoadingModel(f) => match event {
            Event::ModelLoaded => (Phase::Idle, true),
            Event::ModelFailed => match f {
                ModelFormat::Primary => (Phase::LoadingModel(ModelFormat::Fallback), true),
                ModelFormat::Fallback => (Phase::Stopped, true),
            },
            _ => (Phase::LoadingModel(f), false),
        },
        Phase::Stopped => (Phase::Stopped, false),
        Phase::Idle => match event {
            Event::Popped(id) => (Phase::Fetching { key: record_key_of(&id) }, true),
            _ => (Phase::Idle, false),
        },
        Phase::Fetching { key } => match event {
            Event::InputLoaded(n) => {
                if n == INPUT_LEN {
                    (Phase::Inferring { key }, true)
                } else {
                    (error_phase(key, &String::from_str("invalid input size")), true)
                }
            },
            Event::InputFailed(reason) => (error_phase(key, &reason), true),
            _ => (Phase::Fetching { key }, false),
        },
        Phase::Inferring { key } => match event {
            Event::Inferred { class_id, confidence_hundredths } => (
                success_phase(key, class_id, confidence_hundredths),
                true,
            ),
            Event::InferenceFailed(reason) => (error_phase(key, &reason), true),
            _ => (Phase::Inferring { key }, false),
        },
        Phase::Publishing { key, current, rest } => {
            let ghost before = phase@;
            match event {
                Event::Written => {
                    if rest.len() == 0 {
                        (Phase::Idle, true)
                    } else {
                        let p = publishing(key, rest);
                        proof {
                            if let PhaseView::Publishing(_, ws) = before {
                                assert(ws.drop_first() =~= rest@.map_values(|w: FieldWrite| w@));
                            }
                        }
                        (p, true)
                    }
                },
                Event::WriteFailed(reason) => {
                    if current.field.eq(&String::from_str("status")) {
                        (Phase::Idle, true)
                    } else {
                        (error_phase(key, &reason), true)
                    }
                },
                _ => (Phase::Publishing { key, current, rest }, false),
            }
        },
    }
}

/// The worker: a phase that starts at loading the primary model and moves on
/// with each report of the action it asked for.
pub struct Worker {
    phase: Phase,
}

impl View for Worker {
    type V = PhaseView;

    closed spec fn view(&self) -> PhaseView {
        self.phase@
    }
}

impl Worker {
    #[verifier::type_invariant]
    spec fn inv(self) -> bool {
        phase_ok(self.phase@)
    }

    pub fn new() -> (w: Worker)
        ensures
            w@ == initial_phase(),
    {
        Worker { phase: Phase::LoadingModel(ModelFormat::Primary) }
    }

    /// Whether `event` reports the action that the worker asks for now.
    pub fn accepts(&self, event: &Event) -> (r: bool)
        ensures
            r == accepts(self@, *event),
    {
        match (&self.phase, event) {
            (Phase::LoadingModel(_), Event::ModelLoaded) => true,
            (Phase::LoadingModel(_), Event::ModelFailed) => true,
            (Phase::Idle, Event::Popped(_)) => true,
            (Phase::Fetching { .. }, Event::InputLoaded(_)) => true,
            (Phase::Fetching { .. }, Event::InputFailed(_)) => true,
            (Phase::Inferring { .. }, Event::Inferred { .. }) => true,
            (Phase::Inferring { .. }, Event::InferenceFailed(_)) => true,
            (Phase::Publishing { .. }, Event::Written) => true,
            (Phase::Publishing { .. }, Event::WriteFailed(_)) => true,
            _ => false,
        }
    }

    /// The action to perform now.
    pub fn action(&self) -> (a: Action)
        ensures
            a@ == action_of(self@),
            phase_ok(self@),
    {
        proof {
            use_type_invariant(self);
        }
        match &self.phase {
            Phase::LoadingModel(ModelFormat::Primary) => Action::LoadModel {
                path: String::from_str("resnet18.onnx"),
            },
            Phase::LoadingModel(ModelFormat::Fallback) => Action::LoadModel {
                path: String::from_str("resnet18.ot"),
            },
            Phase::Stopped => Action::Exit,
            Phase::Idle => Action::TakeJob { queue: String::from_str("queue:rust_inference") },
            Phase::Fetching { key } => Action::FetchInput {
                key: key.clone(),
                field: String::from_str("go_result"),
            },
            Phase::Inferring { .. } => Action::RunModel,
            Phase::Publishing { key, current, .. } => Action::WriteField {
                key: key.clone(),
                field: current.field.clone(),
                value: current.value.clone(),
            },
        }
    }

    /// Takes the report of the action performed. Returns `false`, and changes
    /// nothing, when the report does not fit the action asked for.
    pub fn handle(&mut self, event: Event) -> (accepted: bool)
        ensures
            accepted == accepts(old(self)@, event),
            final(self)@ == (if accepted {
                next(old(self)@, event)
            } else {
                old(self)@
            }),
            phase_ok(final(self)@),
    {
        proof {
            use_type_invariant(&*self);
        }
        let mut phase = Phase::Idle;
        std::mem::swap(&mut phase, &mut self.phase);
        let ghost before = phase@;
        let (p, accepted) = step(phase, event);
        proof {
            if accepted {
                lemma_next_keeps_phase_ok(before, event);
            }
        }
        self.phase = p;
        accepted
    }
}

} // verus!
