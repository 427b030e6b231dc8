//! The decisions of one OCR request, as a state machine.
//!
//! The host drives it: it performs each returned action (running the
//! platform's recognizer, sending text to the front end, reading the model
//! configuration, issuing a task id, registering the task's cancel signal and
//! announcing it, running the configured OCR model, finally releasing the cancel
//! signal and answering the caller) and feeds back what came of it as an event.
use vstd::prelude::*;

use crate::crop::{
    crop_and_convert, crop_outcome, lemma_crop_answer_meaning, spec_crop_region, CropError,
};
use crate::raster::{cropped_layout, cropped_samples, may_decode_to, png_encoding};
use crate::encoding::{base64_len, base64_standard, encode_base64};

verus! {

/// The Unicode `White_Space` property (PropList.txt): tab to carriage return,
/// space, next line, no-break space, ogham space mark, the spaces from en quad
/// to hair space, line and paragraph separators, narrow no-break space,
/// medium mathematical space and ideographic space.
pub open spec fn white_space(c: char) -> bool {
    let v = c as u32;
    ||| 0x09 <= v <= 0x0d
    ||| v == 0x20
    ||| v == 0x85
    ||| v == 0xa0
    ||| v == 0x1680
    ||| 0x2000 <= v <= 0x200a
    ||| v == 0x2028
    ||| v == 0x2029
    ||| v == 0x202f
    ||| v == 0x205f
    ||| v == 0x3000
}

/// Calls `char::is_whitespace`. Claimed: it holds exactly of the characters
/// with the Unicode `White_Space` property, as its documentation says.
#[verifier::external_body]
fn char_is_whitespace(c: char) -> (b: bool)
    ensures
        b == white_space(c),
{
    c.is_whitespace()
}

/// A text is blank when trimming whitespace leaves nothing of it.
pub open spec fn is_blank(text: Seq<char>) -> bool {
    forall|i: int| 0 <= i < text.len() ==> white_space(#[trigger] text[i])
}

/// Whether `text` consists of whitespace only (`text.trim().is_empty()`).
pub fn text_is_blank(text: &String) -> (b: bool)
    ensures
        b == is_blank(text@),
{
    let s: &str = text.as_str();
    let mut blank = true;
    let ghost whole = s@;
    for c in it: s.chars()
        invariant
            it.seq() == whole,
            whole == text@,
            blank == (forall|i: int| 0 <= i < it.index() ==> white_space(#[trigger] whole[i])),
    {
        if !char_is_whitespace(c) {
            blank = false;
        }
    }
    blank
}

/// One OCR request: the screenshot, the selection in it, the prompt for the
/// OCR model, and whether the platform's own recognizer is tried first.
pub struct OcrRequest {
    pub image: Vec<u8>,
    pub offset_x: u32,
    pub offset_y: u32,
    pub width: u32,
    pub height: u32,
    pub prompt: String,
    pub builtin_first: bool,
}

/// What came of running the platform's recognizer.
pub enum BuiltinOutcome {
    /// The recognizer could not be scheduled at all.
    DispatchFailed(String),
    /// The recognizer returned this text.
    Recognized(String),
    /// The recognizer reported an error.
    Failed(String),
    /// The recognizer's reply never arrived.
    ReplyLost(String),
}

/// What came of running the configured OCR model.
pub enum ModelOutcome {
    /// The user cancelled the task first.
    Cancelled,
    /// No OCR client is available.
    NoClient,
    /// The model streamed its answer to the front end.
    Completed,
    /// The model run failed.
    Failed(String),
}

/// What the host reports back after performing an action.
pub enum OcrEvent {
    BuiltinDone(BuiltinOutcome),
    /// A message to the front end was delivered, or not.
    Delivered(Result<(), String>),
    /// The configured OCR model, if any.
    ModelConfig(Option<String>),
    TaskIdIssued(String),
    /// The task-started announcement went out, or not.
    Announced(Result<(), String>),
    ModelDone(ModelOutcome),
}

/// Why an OCR request failed.
#[derive(Debug)]
pub enum OcrError {
    Crop(CropError),
    BuiltinDispatch(String),
    SendText(String),
    SendEnd(String),
    NoModel,
    Announce(String),
    Cancelled,
    NoClient,
    ModelFailed(String),
    /// The cropped image is too large to be Base64-encoded.
    PayloadTooLarge,
}

/// What the host has to do next.
pub enum OcrAction {
    /// Run the platform's recognizer on this PNG.
    RunBuiltin { png: Vec<u8> },
    /// Send this text to the front end.
    SendText { text: String },
    /// Tell the front end that no more text follows.
    SendEnd,
    /// Read which OCR model is configured.
    LoadModelConfig,
    /// Make a fresh task id.
    IssueTaskId,
    /// Keep a cancel signal under `task_id` and announce that the task started.
    RegisterAndAnnounce { task_id: String },
    /// Run the OCR model on the Base64 image, with the request's instructions.
    RunModel { prompt: String, image_base64: String, model_id: String },
    /// Drop the cancel signal of `release`, if any, and answer the caller.
    Finish { release: Option<String>, outcome: Result<(), OcrError> },
    /// The event does not belong to the current stage: nothing to do.
    Ignore,
}

enum Stage {
    Recognizing { png: Vec<u8> },
    SendingText,
    SendingEnd,
    AwaitingModel { png: Vec<u8> },
    AwaitingTaskId { png: Vec<u8>, model_id: String },
    Announcing { png: Vec<u8>, model_id: String, task_id: String },
    Running { task_id: String },
    Done,
}

/// One OCR request in progress.
pub struct OcrFlow {
    stage: Stage,
    prompt: String,
}

// ----- mathematical model -----
pub enum StageView {
    Recognizing { png: Seq<u8> },
    SendingText,
    SendingEnd,
    AwaitingModel { png: Seq<u8> },
    AwaitingTaskId { png: Seq<u8>, model_id: Seq<char> },
    Announcing { png: Seq<u8>, model_id: Seq<char>, task_id: Seq<char> },
    Running { task_id: Seq<char> },
    Done,
}

pub struct FlowView {
    pub stage: StageView,
    pub prompt: Seq<char>,
}

pub enum BuiltinView {
    DispatchFailed(Seq<char>),
    Recognized(Seq<char>),
    Failed(Seq<char>),
    ReplyLost(Seq<char>),
}

pub enum ModelView {
    Cancelled,
    NoClient,
    Completed,
    Failed(Seq<char>),
}

pub enum EventView {
    BuiltinDone(BuiltinView),
    Delivered(Result<(), Seq<char>>),
    ModelConfig(Option<Seq<char>>),
    TaskIdIssued(Seq<char>),
    Announced(Result<(), Seq<char>>),
    ModelDone(ModelView),
}

pub enum ErrorView {
    Crop,
    BuiltinDispatch(Seq<char>),
    SendText(Seq<char>),
    SendEnd(Seq<char>),
    NoModel,
    Announce(Seq<char>),
    Cancelled,
    NoClient,
    ModelFailed(Seq<char>),
    PayloadTooLarge,
}

pub enum ActionView {
    RunBuiltin { png: Seq<u8> },
    SendText { text: Seq<char> },
    SendEnd,
    LoadModelConfig,
    IssueTaskId,
    RegisterAndAnnounce { task_id: Seq<char> },
    RunModel { prompt: Seq<char>, image_base64: Seq<char>, model_id: Seq<char> },
    Finish { release: Option<Seq<char>>, outcome: Result<(), ErrorView> },
    Ignore,
}

impl View for Stage {
    type V = StageView;

    closed spec fn view(&self) -> StageView {
        match self {
            Stage::Recognizing { png } => StageView::Recognizing { png: png@ },
            Stage::SendingText => StageView::SendingText,
            Stage::SendingEnd => StageView::SendingEnd,
            Stage::AwaitingModel { png } => StageView::AwaitingModel { png: png@ },
            Stage::AwaitingTaskId { png, model_id } => StageView::AwaitingTaskId {
                png: png@,
                model_id: model_id@,
            },
            Stage::Announcing { png, model_id, task_id } => StageView::Announcing {
                png: png@,
                model_id: model_id@,
                task_id: task_id@,
            },
            Stage::Running { task_id } => StageView::Running { task_id: task_id@ },
            Stage::Done => StageView::Done,
        }
    }
}

impl View for OcrFlow {
    type V = FlowView;

    closed spec fn view(&self) -> FlowView {
        FlowView { stage: self.stage@, prompt: self.prompt@ }
    }
}

pub open spec fn result_view(r: Result<(), String>) -> Result<(), Seq<char>> {
    match r {
        Ok(()) => Ok(()),
        Err(m) => Err(m@),
    }
}

impl View for OcrEvent {
    type V = EventView;

    open spec fn view(&self) -> EventView {
        match self {
            OcrEvent::BuiltinDone(o) => EventView::BuiltinDone(
                match o {
                    BuiltinOutcome::DispatchFailed(m) => BuiltinView::DispatchFailed(m@),
                    BuiltinOutcome::Recognized(t) => BuiltinView::Recognized(t@),
                    BuiltinOutcome::Failed(m) => BuiltinView::Failed(m@),
                    BuiltinOutcome::ReplyLost(m) => BuiltinView::ReplyLost(m@),
                },
            ),
            OcrEvent::Delivered(r) => EventView::Delivered(result_view(*r)),
            OcrEvent::ModelConfig(m) => EventView::ModelConfig(
                match m {
                    Some(id) => Some(id@),
                    None => None,
                },
            ),
            OcrEvent::TaskIdIssued(t) => EventView::TaskIdIssued(t@),
            OcrEvent::Announced(r) => EventView::Announced(result_view(*r)),
            OcrEvent::ModelDone(o) => EventView::ModelDone(
                match o {
                    ModelOutcome::Cancelled => ModelView::Cancelled,
                    ModelOutcome::NoClient => ModelView::NoClient,
                    ModelOutcome::Completed => ModelView::Completed,
                    ModelOutcome::Failed(m) => ModelView::Failed(m@),
                },
            ),
        }
    }
}

impl View for OcrError {
    type V = ErrorView;

    open spec fn view(&self) -> ErrorView {
        match self {
            OcrError::Crop(_) => ErrorView::Crop,
            OcrError::BuiltinDispatch(m) => ErrorView::BuiltinDispatch(m@),
            OcrError::SendText(m) => ErrorView::SendText(m@),
            OcrError::SendEnd(m) => ErrorView::SendEnd(m@),
            OcrError::NoModel => ErrorView::NoModel,
            OcrError::Announce(m) => ErrorView::Announce(m@),
            OcrError::Cancelled => ErrorView::Cancelled,
            OcrError::NoClient => ErrorView::NoClient,
            OcrError::ModelFailed(m) => ErrorView::ModelFailed(m@),
            OcrError::PayloadTooLarge => ErrorView::PayloadTooLarge,
        }
    }
}

impl View for OcrAction {
    type V = ActionView;

    open spec fn view(&self) -> ActionView {
        match self {
            OcrAction::RunBuiltin { png } => ActionView::RunBuiltin { png: png@ },
            OcrAction::SendText { text } => ActionView::SendText { text: text@ },
            OcrAction::SendEnd => ActionView::SendEnd,
            OcrAction::LoadModelConfig => ActionView::LoadModelConfig,
            OcrAction::IssueTaskId => ActionView::IssueTaskId,
            OcrAction::RegisterAndAnnounce { task_id } => ActionView::RegisterAndAnnounce {
                task_id: task_id@,
            },
            OcrAction::RunModel { prompt, image_base64, model_id } => ActionView::RunModel {
                prompt: prompt@,
                image_base64: image_base64@,
                model_id: model_id@,
            },
            OcrAction::Finish { release, outcome } => ActionView::Finish {
                release: match release {
                    Some(t) => Some(t@),
                    None => None,
                },
                outcome: match outcome {
                    Ok(()) => Ok(()),
                    Err(e) => Err(e@),
                },
            },
            OcrAction::Ignore => ActionView::Ignore,
        }
    }
}

/// The answer to an OCR model run.
pub open spec fn model_outcome(o: ModelView) -> Result<(), ErrorView> {
    match o {
        ModelView::Cancelled => Err(ErrorView::Cancelled),
        ModelView::NoClient => Err(ErrorView::NoClient),
        ModelView::Completed => Ok(()),
        ModelView::Failed(m) => Err(ErrorView::ModelFailed(m)),
    }
}

/// One step of an OCR request: the next stage and the action to perform.
pub open spec fn spec_step(stage: StageView, prompt: Seq<char>, event: EventView) -> (
    StageView,
    ActionView,
) {
    match (stage, event) {
        (StageView::Recognizing { png }, EventView::BuiltinDone(o)) => match o {
            BuiltinView::DispatchFailed(m) => (
                StageView::Done,
                ActionView::Finish { release: None, outcome: Err(ErrorView::BuiltinDispatch(m)) },
            ),
            BuiltinView::Recognized(t) => if is_blank(t) {
                (StageView::AwaitingModel { png }, ActionView::LoadModelConfig)
            } else {
                (StageView::SendingText, ActionView::SendText { text: t })
            },
            _ => (StageView::AwaitingModel { png }, ActionView::LoadModelConfig),
        },
        (StageView::SendingText, EventView::Delivered(r)) => match r {
            Ok(()) => (StageView::SendingEnd, ActionView::SendEnd),
            Err(m) => (
                StageView::Done,
                ActionView::Finish { release: None, outcome: Err(ErrorView::SendText(m)) },
            ),
        },
        (StageView::SendingEnd, EventView::Delivered(r)) => match r {
            Ok(()) => (StageView::Done, ActionView::Finish { release: None, outcome: Ok(()) }),
            Err(m) => (
                StageView::Done,
                ActionView::Finish { release: None, outcome: Err(ErrorView::SendEnd(m)) },
            ),
        },
        (StageView::AwaitingModel { png }, EventView::ModelConfig(m)) => match m {
            None => (
                StageView::Done,
                ActionView::Finish { release: None, outcome: Err(ErrorView::NoModel) },
            ),
            Some(id) => (StageView::AwaitingTaskId { png, model_id: id }, ActionView::IssueTaskId),
        },
        (StageView::AwaitingTaskId { png, model_id }, EventView::TaskIdIssued(t)) => (
            StageView::Announcing { png, model_id, task_id: t },
            ActionView::RegisterAndAnnounce { task_id: t },
        ),
        (StageView::Announcing { png, model_id, task_id }, EventView::Announced(r)) => match r {
            Err(m) => (
                StageView::Done,
                ActionView::Finish { release: None, outcome: Err(ErrorView::Announce(m)) },
            ),
            Ok(()) => if base64_len(png.len()) <= usize::MAX {
                (
                    StageView::Running { task_id },
                    ActionView::RunModel {
                        prompt,
                        image_base64: base64_standard(png),
                        model_id,
                    },
                )
            } else {
                (
                    StageView::Done,
                    ActionView::Finish {
                        release: Some(task_id),
                        outcome: Err(ErrorView::PayloadTooLarge),
                    },
                )
            },
        },
        (StageView::Running { task_id }, EventView::ModelDone(o)) => (
            StageView::Done,
            ActionView::Finish { release: Some(task_id), outcome: model_outcome(o) },
        ),
        _ => (stage, ActionView::Ignore),
    }
}

/// How a request starts from the result of cropping its screenshot: a crop
/// error answers it at once; a PNG goes to the platform's recognizer when that
/// is tried first, otherwise the model configuration is asked for.
pub open spec fn started_with(
    cropped: Result<Vec<u8>, CropError>,
    builtin_first: bool,
    stage: StageView,
    action: OcrAction,
) -> bool {
    match cropped {
        Err(e) => stage is Done && (action matches OcrAction::Finish {
            release: None,
            outcome: Err(OcrError::Crop(ce)),
        } && ce == e),
        Ok(png) => if builtin_first {
            stage == (StageView::Recognizing { png: png@ }) && action@ == (ActionView::RunBuiltin {
                png: png@,
            })
        } else {
            stage == (StageView::AwaitingModel { png: png@ }) && action@ == ActionView::LoadModelConfig
        },
    }
}

impl OcrFlow {
    /// Whether the request has been answered.
    pub fn is_done(&self) -> (b: bool)
        ensures
            b == (self@.stage is Done),
    {
        match self.stage {
            Stage::Done => true,
            _ => false,
        }
    }

    /// Starts a request: crops the selection out of the screenshot and then
    /// either asks for the platform's recognizer or for the model
    /// configuration; a failed crop answers the request at once.
    pub fn start(request: OcrRequest) -> (res: (OcrFlow, OcrAction))
        ensures
            res.0@.prompt == request.prompt@,
            exists|cropped: Result<Vec<u8>, CropError>|
                #[trigger] crop_outcome(
                    request.image@,
                    request.offset_x,
                    request.offset_y,
                    request.width,
                    request.height,
                    cropped,
                ) && started_with(cropped, request.builtin_first, res.0@.stage, res.1),
    {
        let OcrRequest { image, offset_x, offset_y, width, height, prompt, builtin_first } =
            request;
        let ghost bytes = image@;
        let cropped = crop_and_convert(image, offset_x, offset_y, width, height);
        let ghost witness = cropped;
        let res = match cropped {
            Err(e) => (
                OcrFlow { stage: Stage::Done, prompt },
                OcrAction::Finish { release: None, outcome: Err(OcrError::Crop(e)) },
            ),
            Ok(png) => {
                if builtin_first {
                    let copy = png.clone();
                    assert(copy@ =~= png@);
                    (
                        OcrFlow { stage: Stage::Recognizing { png }, prompt },
                        OcrAction::RunBuiltin { png: copy },
                    )
                } else {
                    (OcrFlow { stage: Stage::AwaitingModel { png }, prompt }, OcrAction::LoadModelConfig)
                }
            },
        };
        assert(crop_outcome(bytes, offset_x, offset_y, width, height, witness) && started_with(
            witness,
            builtin_first,
            res.0@.stage,
            res.1,
        ));
        res
    }

    /// Advances the request by the host's report of its last action.
    pub fn step(&mut self, event: OcrEvent) -> (action: OcrAction)
        ensures
            final(self)@.prompt == old(self)@.prompt,
            (final(self)@.stage, action@) == spec_step(old(self)@.stage, old(self)@.prompt, event@),
    {
        let mut stage = Stage::Done;
        std::mem::swap(&mut stage, &mut self.stage);
        match (stage, event) {
            (Stage::Recognizing { png }, OcrEvent::BuiltinDone(o)) => match o {
                BuiltinOutcome::DispatchFailed(m) => {
                    OcrAction::Finish {
                        release: None,
                        outcome: Err(OcrError::BuiltinDispatch(m)),
                    }
                },
                BuiltinOutcome::Recognized(text) => {
                    if text_is_blank(&text) {
                        self.stage = Stage::AwaitingModel { png };
                        OcrAction::LoadModelConfig
                    } else {
                        self.stage = Stage::SendingText;
                        OcrAction::SendText { text }
                    }
                },
                _ => {
                    self.stage = Stage::AwaitingModel { png };
                    OcrAction::LoadModelConfig
                },
            },
            (Stage::SendingText, OcrEvent::Delivered(r)) => match r {
                Ok(()) => {
                    self.stage = Stage::SendingEnd;
                    OcrAction::SendEnd
                },
                Err(m) => OcrAction::Finish { release: None, outcome: Err(OcrError::SendText(m)) },
            },
            (Stage::SendingEnd, OcrEvent::Delivered(r)) => match r {
                Ok(()) => OcrAction::Finish { release: None, outcome: Ok(()) },
                Err(m) => OcrAction::Finish { release: None, outcome: Err(OcrError::SendEnd(m)) },
            },
            (Stage::AwaitingModel { png }, OcrEvent::ModelConfig(m)) => match m {
                None => OcrAction::Finish { release: None, outcome: Err(OcrError::NoModel) },
                Some(model_id) => {
                    self.stage = Stage::AwaitingTaskId { png, model_id };
                    OcrAction::IssueTaskId
                },
            },
            (Stage::AwaitingTaskId { png, model_id }, OcrEvent::TaskIdIssued(task_id)) => {
                let announce = task_id.clone();
                self.stage = Stage::Announcing { png, model_id, task_id };
                OcrAction::RegisterAndAnnounce { task_id: announce }
            },
            (Stage::Announcing { png, model_id, task_id }, OcrEvent::Announced(r)) => match r {
                Err(m) => OcrAction::Finish { release: None, outcome: Err(OcrError::Announce(m)) },
                Ok(()) => match encode_base64(png.as_slice()) {
                    Some(image_base64) => {
                        let prompt = self.prompt.clone();
                        self.stage = Stage::Running { task_id };
                        OcrAction::RunModel { prompt, image_base64, model_id }
                    },
                    None => OcrAction::Finish {
                        release: Some(task_id),
                        outcome: Err(OcrError::PayloadTooLarge),
                    },
                },
            },
            (Stage::Running { task_id }, OcrEvent::ModelDone(o)) => {
                let outcome = match o {
                    ModelOutcome::Cancelled => Err(OcrError::Cancelled),
                    ModelOutcome::NoClient => Err(OcrError::NoClient),
                    ModelOutcome::Completed => Ok(()),
                    ModelOutcome::Failed(m) => Err(OcrError::ModelFailed(m)),
                };
                OcrAction::Finish { release: Some(task_id), outcome }
            },
            (other, _) => {
                self.stage = other;
                OcrAction::Ignore
            },
        }
    }
}

/// The actions a request performs when fed `events` from `stage` on.
pub open spec fn trace(stage: StageView, prompt: Seq<char>, events: Seq<EventView>) -> Seq<
    ActionView,
>
    decreases events.len(),
{
    if events.len() == 0 {
        Seq::empty()
    } else {
        let (next, action) = spec_step(stage, prompt, events[0]);
        seq![action] + trace(next, prompt, events.drop_first())
    }
}

/// Whether a sequence of actions registers at most one task (none if `held`
/// already names one) and releases no task but the one it holds.
pub open spec fn registration_balanced(actions: Seq<ActionView>, held: Option<Seq<char>>) -> bool
    decreases actions.len(),
{
    if actions.len() == 0 {
        true
    } else {
        match actions[0] {
            ActionView::RegisterAndAnnounce { task_id } => held is None && registration_balanced(
                actions.drop_first(),
                Some(task_id),
            ),
            ActionView::Finish { release: Some(t), outcome: _ } => held == Some(t)
                && registration_balanced(actions.drop_first(), held),
            _ => registration_balanced(actions.drop_first(), held),
        }
    }
}

/// Stages in which no task has been registered yet.
pub open spec fn before_registration(stage: StageView) -> bool {
    stage is Recognizing || stage is AwaitingModel || stage is AwaitingTaskId
}

spec fn holds_consistently(stage: StageView, held: Option<Seq<char>>) -> bool {
    match stage {
        StageView::Recognizing { .. } => held is None,
        StageView::AwaitingModel { .. } => held is None,
        StageView::AwaitingTaskId { .. } => held is None,
        StageView::Announcing { task_id, .. } => held == Some(task_id),
        StageView::Running { task_id } => held == Some(task_id),
        _ => true,
    }
}

proof fn lemma_trace_balanced(
    stage: StageView,
    prompt: Seq<char>,
    events: Seq<EventView>,
    held: Option<Seq<char>>,
)
    requires
        holds_consistently(stage, held),
    ensures
        registration_balanced(trace(stage, prompt, events), held),
    decreases events.len(),
{
    if events.len() > 0 {
        let (next, action) = spec_step(stage, prompt, events[0]);
        let rest = events.drop_first();
        let acts = trace(stage, prompt, events);
        assert(acts[0] == action);
        assert(acts.drop_first() =~= trace(next, prompt, rest));
        match action {
            ActionView::RegisterAndAnnounce { task_id } => {
                lemma_trace_balanced(next, prompt, rest, Some(task_id));
            },
            _ => {
                lemma_trace_balanced(next, prompt, rest, held);
            },
        }
    }
}

/// A request registers at most one cancel signal, and it releases no cancel
/// signal but the one it registered, whatever the host reports.
pub proof fn lemma_registration_balanced(
    stage: StageView,
    prompt: Seq<char>,
    events: Seq<EventView>,
)
    requires
        before_registration(stage),
    ensures
        registration_balanced(trace(stage, prompt, events), None),
{
    lemma_trace_balanced(stage, prompt, events, None);
}

/// A running model task is released whatever the model run came to, and the
/// request is answered with that outcome.
pub proof fn lemma_running_task_released(task_id: Seq<char>, prompt: Seq<char>, outcome: ModelView)
    ensures
        spec_step(StageView::Running { task_id }, prompt, EventView::ModelDone(outcome)) == (
            StageView::Done,
            ActionView::Finish { release: Some(task_id), outcome: model_outcome(outcome) },
        ),
{
}

/// A cancel signal is released only by the model's report on its own running
/// task, or when the announced task's image cannot be encoded.
pub proof fn lemma_release_only_of_announced(stage: StageView, prompt: Seq<char>, event: EventView)
    ensures
        spec_step(stage, prompt, event).1 matches ActionView::Finish {
            release: Some(t),
            outcome: _,
        } ==> (stage == (StageView::Running { task_id: t }) || (stage matches StageView::Announcing {
            task_id,
            ..
        } && task_id == t)),
{
}

/// An answered request stays answered and ignores every further report.
pub proof fn lemma_done_is_final(prompt: Seq<char>, event: EventView)
    ensures
        spec_step(StageView::Done, prompt, event) == (StageView::Done, ActionView::Ignore),
{
}

/// Whether no action asks for the OCR model, its configuration or a task.
pub open spec fn model_untouched(actions: Seq<ActionView>) -> bool {
    forall|i: int|
        0 <= i < actions.len() ==> !(#[trigger] actions[i] is RunModel) && !(actions[i] is LoadModelConfig)
            && !(actions[i] is RegisterAndAnnounce)
}

proof fn lemma_builtin_path_closed(stage: StageView, prompt: Seq<char>, events: Seq<EventView>)
    requires
        stage is SendingText || stage is SendingEnd || stage is Done,
    ensures
        model_untouched(trace(stage, prompt, events)),
    decreases events.len(),
{
    if events.len() > 0 {
        let (next, action) = spec_step(stage, prompt, events[0]);
        let rest = events.drop_first();
        lemma_builtin_path_closed(next, prompt, rest);
        let acts = trace(stage, prompt, events);
        let tail = trace(next, prompt, rest);
        assert(acts =~= seq![action] + tail);
        assert forall|i: int| 0 <= i < acts.len() implies !(#[trigger] acts[i] is RunModel) && !(
        acts[i] is LoadModelConfig) && !(acts[i] is RegisterAndAnnounce) by {
            if i > 0 {
                assert(acts[i] == tail[i - 1]);
            }
        }
    }
}

/// When the platform's recognizer returns text that is not blank, the request
/// never turns to the OCR model: the text is sent and the request answered.
pub proof fn lemma_builtin_text_wins(
    png: Seq<u8>,
    prompt: Seq<char>,
    text: Seq<char>,
    later: Seq<EventView>,
)
    requires
        !is_blank(text),
    ensures
        ({
            let events = seq![EventView::BuiltinDone(BuiltinView::Recognized(text))] + later;
            let acts = trace(StageView::Recognizing { png }, prompt, events);
            &&& acts[0] == (ActionView::SendText { text })
            &&& model_untouched(acts)
        }),
{
    let events = seq![EventView::BuiltinDone(BuiltinView::Recognized(text))] + later;
    assert(events.drop_first() =~= later);
    lemma_builtin_path_closed(StageView::SendingText, prompt, later);
    let acts = trace(StageView::Recognizing { png }, prompt, events);
    let tail = trace(StageView::SendingText, prompt, later);
    assert(acts =~= seq![ActionView::SendText { text }] + tail);
    assert forall|i: int| 0 <= i < acts.len() implies !(#[trigger] acts[i] is RunModel) && !(
    acts[i] is LoadModelConfig) && !(acts[i] is RegisterAndAnnounce) by {
        if i > 0 {
            assert(acts[i] == tail[i - 1]);
        }
    }
}

/// Whether every answer among the actions releases the task `task_id`.
pub open spec fn answers_release(actions: Seq<ActionView>, task_id: Seq<char>) -> bool {
    forall|i: int|
        0 <= i < actions.len() ==> (#[trigger] actions[i] matches ActionView::Finish {
            release,
            outcome: _,
        } ==> release == Some(task_id))
}

proof fn lemma_running_answers_release(
    stage: StageView,
    prompt: Seq<char>,
    events: Seq<EventView>,
    task_id: Seq<char>,
)
    requires
        stage == (StageView::Running { task_id }) || stage is Done,
    ensures
        answers_release(trace(stage, prompt, events), task_id),
    decreases events.len(),
{
    if events.len() > 0 {
        let (next, action) = spec_step(stage, prompt, events[0]);
        let rest = events.drop_first();
        lemma_running_answers_release(next, prompt, rest, task_id);
        let acts = trace(stage, prompt, events);
        let tail = trace(next, prompt, rest);
        assert(acts =~= seq![action] + tail);
        assert forall|i: int| 0 <= i < acts.len() implies (#[trigger] acts[i] matches ActionView::Finish {
            release,
            outcome: _,
        } ==> release == Some(task_id)) by {
            if i > 0 {
                assert(acts[i] == tail[i - 1]);
            }
        }
    }
}

/// Once the task-started announcement has gone out, every answer to the
/// request releases the task's cancel signal, whatever happens afterwards.
pub proof fn lemma_announced_task_released(
    png: Seq<u8>,
    model_id: Seq<char>,
    task_id: Seq<char>,
    prompt: Seq<char>,
    later: Seq<EventView>,
)
    ensures
        answers_release(
            trace(
                StageView::Announcing { png, model_id, task_id },
                prompt,
                seq![EventView::Announced(Ok(()))] + later,
            ),
            task_id,
        ),
{
    let stage = StageView::Announcing { png, model_id, task_id };
    let events = seq![EventView::Announced(Ok(()))] + later;
    assert(events.drop_first() =~= later);
    let (next, action) = spec_step(stage, prompt, events[0]);
    lemma_running_answers_release(next, prompt, later, task_id);
    let acts = trace(stage, prompt, events);
    let tail = trace(next, prompt, later);
    assert(acts =~= seq![action] + tail);
    assert forall|i: int| 0 <= i < acts.len() implies (#[trigger] acts[i] matches ActionView::Finish {
        release,
        outcome: _,
    } ==> release == Some(task_id)) by {
        if i > 0 {
            assert(acts[i] == tail[i - 1]);
        }
    }
}

/// When the platform's recognizer fails, its reply is lost, or it finds only
/// blank text (the empty text included), the request falls back to the OCR
/// model on the same crop: it asks for the model configuration, and a
/// configured model then gets a task id issued for that crop.
pub proof fn lemma_builtin_fallback(
    png: Seq<u8>,
    prompt: Seq<char>,
    outcome: BuiltinView,
    model_id: Seq<char>,
)
    requires
        outcome is Failed || outcome is ReplyLost || (outcome matches BuiltinView::Recognized(t)
            && is_blank(t)),
    ensures
        spec_step(StageView::Recognizing { png }, prompt, EventView::BuiltinDone(outcome)) == (
            StageView::AwaitingModel { png },
            ActionView::LoadModelConfig,
        ),
        spec_step(StageView::AwaitingModel { png }, prompt, EventView::ModelConfig(Some(model_id)))
            == (StageView::AwaitingTaskId { png, model_id }, ActionView::IssueTaskId),
        trace(
            StageView::Recognizing { png },
            prompt,
            seq![EventView::BuiltinDone(outcome), EventView::ModelConfig(Some(model_id))],
        ) == seq![ActionView::LoadModelConfig, ActionView::IssueTaskId],
{
    let events = seq![EventView::BuiltinDone(outcome), EventView::ModelConfig(Some(model_id))];
    let rest = events.drop_first();
    assert(rest =~= seq![EventView::ModelConfig(Some(model_id))]);
    assert(rest.drop_first() =~= Seq::<EventView>::empty());
    assert(events[0] == EventView::BuiltinDone(outcome));
    assert(rest[0] == EventView::ModelConfig(Some(model_id)));
    assert(trace(StageView::AwaitingTaskId { png, model_id }, prompt, rest.drop_first())
        =~= Seq::<ActionView>::empty());
    let second = trace(StageView::AwaitingModel { png }, prompt, rest);
    assert(second =~= seq![ActionView::IssueTaskId] + Seq::<ActionView>::empty());
    assert(trace(StageView::Recognizing { png }, prompt, events) =~= seq![ActionView::LoadModelConfig]
        + second);
}

/// Whether every text sent to the front end is non-blank.
pub open spec fn sends_no_blank_text(actions: Seq<ActionView>) -> bool {
    forall|i: int|
        0 <= i < actions.len() ==> (#[trigger] actions[i] matches ActionView::SendText { text }
            ==> !is_blank(text))
}

/// Blank recognized text is never sent to the front end, in any run of a
/// request, from any stage.
pub proof fn lemma_blank_text_never_sent(stage: StageView, prompt: Seq<char>, events: Seq<EventView>)
    ensures
        sends_no_blank_text(trace(stage, prompt, events)),
    decreases events.len(),
{
    if events.len() > 0 {
        let (next, action) = spec_step(stage, prompt, events[0]);
        let rest = events.drop_first();
        lemma_blank_text_never_sent(next, prompt, rest);
        let acts = trace(stage, prompt, events);
        let tail = trace(next, prompt, rest);
        assert(acts =~= seq![action] + tail);
        assert forall|i: int| 0 <= i < acts.len() implies (#[trigger] acts[i] matches ActionView::SendText {
            text,
        } ==> !is_blank(text)) by {
            if i > 0 {
                assert(acts[i] == tail[i - 1]);
            }
        }
    }
}

/// Whether every model run in the actions gets the Base64 of `png` and the
/// request's prompt.
pub open spec fn model_sees(actions: Seq<ActionView>, png: Seq<u8>, prompt: Seq<char>) -> bool {
    forall|i: int|
        0 <= i < actions.len() ==> (#[trigger] actions[i] matches ActionView::RunModel {
            prompt: p,
            image_base64,
            model_id: _,
        } ==> p == prompt && image_base64 == base64_standard(png))
}

/// Whether a stage still holds the crop `png`, or holds no crop any more.
spec fn keeps_crop(stage: StageView, png: Seq<u8>) -> bool {
    match stage {
        StageView::Recognizing { png: p } => p == png,
        StageView::AwaitingModel { png: p } => p == png,
        StageView::AwaitingTaskId { png: p, .. } => p == png,
        StageView::Announcing { png: p, .. } => p == png,
        _ => true,
    }
}

proof fn lemma_keeps_crop_trace(stage: StageView, png: Seq<u8>, prompt: Seq<char>, events: Seq<EventView>)
    requires
        keeps_crop(stage, png),
    ensures
        model_sees(trace(stage, prompt, events), png, prompt),
    decreases events.len(),
{
    if events.len() > 0 {
        let (next, action) = spec_step(stage, prompt, events[0]);
        let rest = events.drop_first();
        lemma_keeps_crop_trace(next, png, prompt, rest);
        let acts = trace(stage, prompt, events);
        let tail = trace(next, prompt, rest);
        assert(acts =~= seq![action] + tail);
        assert forall|i: int| 0 <= i < acts.len() implies (#[trigger] acts[i] matches ActionView::RunModel {
            prompt: p,
            image_base64,
            model_id: _,
        } ==> p == prompt && image_base64 == base64_standard(png)) by {
            if i > 0 {
                assert(acts[i] == tail[i - 1]);
            }
        }
    }
}

/// Whatever happens after the crop is made, every OCR model run of the request
/// is given the Base64 of that crop and the request's prompt: the crop is
/// carried unchanged through the recognizer's fallback, the model
/// configuration, the task id and the announcement.
pub proof fn lemma_model_sees_crop(png: Seq<u8>, prompt: Seq<char>, events: Seq<EventView>)
    ensures
        model_sees(trace(StageView::Recognizing { png }, prompt, events), png, prompt),
        model_sees(trace(StageView::AwaitingModel { png }, prompt, events), png, prompt),
{
    lemma_keeps_crop_trace(StageView::Recognizing { png }, png, prompt, events);
    lemma_keeps_crop_trace(StageView::AwaitingModel { png }, png, prompt, events);
}

/// What a started request means for the screenshot: a decoding failure is
/// answered only when the request's bytes may fail to decode, and a request
/// that goes on does so with the PNG of the selection cut from an image those
/// bytes may decode to.
pub proof fn lemma_start_meaning(
    bytes: Seq<u8>,
    offset_x: u32,
    offset_y: u32,
    width: u32,
    height: u32,
    builtin_first: bool,
    cropped: Result<Vec<u8>, CropError>,
    stage: StageView,
    action: OcrAction,
)
    requires
        crop_outcome(bytes, offset_x, offset_y, width, height, cropped),
        started_with(cropped, builtin_first, stage, action),
    ensures
        action matches OcrAction::Finish { outcome: Err(OcrError::Crop(CropError::Decode(_))), .. }
            ==> may_decode_to(bytes, None),
        !(stage is Done) ==> exists|layout: (u8, u32, u32), samples: Seq<u8>|
            #![trigger may_decode_to(bytes, Some((layout, samples)))]
            {
                &&& may_decode_to(bytes, Some((layout, samples)))
                &&& spec_crop_region(offset_x, offset_y, width, height, layout.1, layout.2) matches Ok(
                    region,
                ) && Some(
                    if builtin_first {
                        stage->Recognizing_png
                    } else {
                        stage->AwaitingModel_png
                    },
                ) == png_encoding(
                    cropped_layout(layout, region.x, region.y, region.width, region.height),
                    cropped_samples(
                        layout,
                        samples,
                        region.x,
                        region.y,
                        region.width,
                        region.height,
                    ),
                )
            },
        !(stage is Done) ==> (if builtin_first {
            stage is Recognizing
        } else {
            stage is AwaitingModel
        }),
{
    lemma_crop_answer_meaning(bytes, offset_x, offset_y, width, height, cropped);
}

} // verus!
