//! One generation from request to response, as a state machine. The caller
//! does the outside work (it creates the directory, runs the inference
//! process, writes the fallback file) and reports each result as an event;
//! the coordinator decides what is done next and keeps the progress store
//! up to date.

use vstd::prelude::*;
use vstd::string::StringExecFns;
use crate::png::{create_placeholder_image, image_fits, lemma_bounded_image_fits, placeholder_image};
use crate::progress::{ProgressStore, StoreView};
use crate::protocol::{
    exit_failure_text,
    no_response_text,
    parse_backend_output,
    reply_of,
    ImageGenerationResponse,
    Reply,
    ResponseView,
};
use crate::error::DiffusionError;
use crate::request::{dimension_in_bounds, ImageGenerationRequest, RequestView};
use crate::settings::{model_extension_text, model_missing_text, FileProbe, FileProbeView};
use crate::text::{decimal, decimal_text};

verus! {

/// What the caller reports to the coordinator.
#[derive(Debug)]
pub enum Event {
    /// A generation is asked for. `model` is what was found at `model_path`.
    Start {
        request: ImageGenerationRequest,
        model_path: String,
        model: FileProbe,
        output_directory: String,
    },
    /// The output directory exists now.
    DirectoryReady,
    /// The output directory could not be created.
    DirectoryFailed { reason: String },
    /// The inference process could not be found, started or written to.
    /// `clock` is the time in seconds since the epoch, or why it cannot be
    /// told.
    BackendUnreachable { reason: String, clock: Result<u64, String> },
    /// The inference process ended. `success` says whether it ended in
    /// success, `status` describes how it ended, `output` is all that it
    /// wrote to its output stream, `clock` is as above.
    BackendExited { success: bool, status: String, output: Vec<u8>, clock: Result<u64, String> },
    /// The fallback image was written to `path`.
    FallbackWritten { path: String },
    /// The fallback image could not be written.
    FallbackFailed { reason: String },
}

/// An event as the contracts see it.
pub enum EventView {
    Start {
        request: RequestView,
        model_path: Seq<char>,
        model: FileProbeView,
        output_directory: Seq<char>,
    },
    DirectoryReady,
    DirectoryFailed { reason: Seq<char> },
    BackendUnreachable { reason: Seq<char>, clock: Result<u64, Seq<char>> },
    BackendExited { success: bool, status: Seq<char>, output: Seq<u8>, clock: Result<u64, Seq<char>> },
    FallbackWritten { path: Seq<char> },
    FallbackFailed { reason: Seq<char> },
}

/// The view of a clock reading.
pub open spec fn clock_view(clock: Result<u64, String>) -> Result<u64, Seq<char>> {
    match clock {
        Ok(seconds) => Ok(seconds),
        Err(reason) => Err(reason@),
    }
}

impl View for Event {
    type V = EventView;

    open spec fn view(&self) -> EventView {
        match *self {
            Event::Start { request, model_path, model, output_directory } => EventView::Start {
                request: request@,
                model_path: model_path@,
                model: model@,
                output_directory: output_directory@,
            },
            Event::DirectoryReady => EventView::DirectoryReady,
            Event::DirectoryFailed { reason } => EventView::DirectoryFailed { reason: reason@ },
            Event::BackendUnreachable { reason, clock } => EventView::BackendUnreachable {
                reason: reason@,
                clock: clock_view(clock),
            },
            Event::BackendExited { success, status, output, clock } => EventView::BackendExited {
                success,
                status: status@,
                output: output@,
                clock: clock_view(clock),
            },
            Event::FallbackWritten { path } => EventView::FallbackWritten { path: path@ },
            Event::FallbackFailed { reason } => EventView::FallbackFailed { reason: reason@ },
        }
    }
}

/// What the coordinator asks the caller to do next.
#[derive(Debug)]
pub enum Action {
    /// Create the directory, with the parents that are missing, and report
    /// `DirectoryReady` or `DirectoryFailed`.
    CreateOutputDirectory { path: String },
    /// Run the inference process on the request with the model, and report
    /// `BackendExited` or `BackendUnreachable`.
    InvokeBackend { request: ImageGenerationRequest, model_path: String },
    /// Write `image` to the file `file_name` in `directory`, and report
    /// `FallbackWritten` or `FallbackFailed`.
    WriteFallback { directory: String, file_name: String, image: Vec<u8> },
    /// The generation is over: hand the outcome to the user.
    Finish { outcome: Result<ImageGenerationResponse, String> },
    /// The event does not belong to the state that the generation is in.
    /// Nothing has changed.
    Ignore,
}

/// An action as the contracts see it.
pub enum ActionView {
    CreateOutputDirectory { path: Seq<char> },
    InvokeBackend { request: RequestView, model_path: Seq<char> },
    WriteFallback { directory: Seq<char>, file_name: Seq<char>, image: Seq<u8> },
    Finish { outcome: Result<ResponseView, Seq<char>> },
    Ignore,
}

impl View for Action {
    type V = ActionView;

    open spec fn view(&self) -> ActionView {
        match *self {
            Action::CreateOutputDirectory { path } => ActionView::CreateOutputDirectory {
                path: path@,
            },
            Action::InvokeBackend { request, model_path } => ActionView::InvokeBackend {
                request: request@,
                model_path: model_path@,
            },
            Action::WriteFallback { directory, file_name, image } => ActionView::WriteFallback {
                directory: directory@,
                file_name: file_name@,
                image: image@,
            },
            Action::Finish { outcome } => ActionView::Finish {
                outcome: match outcome {
                    Ok(response) => Ok(response@),
                    Err(text) => Err(text@),
                },
            },
            Action::Ignore => ActionView::Ignore,
        }
    }
}

/// The states of a generation between two events.
enum State {
    Idle,
    PreparingOutput { request: ImageGenerationRequest, model_path: String, output_directory: String },
    Invoking { img_width: u32, img_height: u32, output_directory: String },
    FallingBack { backend_failure: String },
    Done,
}

/// The state of a generation as the contracts see it.
pub enum GenerationView {
    /// Nothing was asked for yet.
    Idle,
    /// The request passed validation, the model was resolved, the progress
    /// store was reset, and the output directory is being created.
    PreparingOutput { request: RequestView, model_path: Seq<char>, output_directory: Seq<char> },
    /// The inference process is running.
    Invoking { img_width: u32, img_height: u32, output_directory: Seq<char> },
    /// The inference process failed and the fallback image is being written.
    FallingBack { backend_failure: Seq<char> },
    /// The outcome was handed out.
    Done,
}

impl GenerationView {
    /// A request that is being served is valid.
    pub open spec fn wf(self) -> bool {
        match self {
            GenerationView::PreparingOutput { request, .. } => request.is_valid(),
            GenerationView::Invoking { img_width, img_height, .. } => dimension_in_bounds(img_width)
                && dimension_in_bounds(img_height),
            _ => true,
        }
    }

    /// Whether the generation has published progress and not yet ended.
    pub open spec fn is_running(self) -> bool {
        self is PreparingOutput || self is Invoking || self is FallingBack
    }
}

/// What a step leads to: the next state, the store, and the action.
pub struct Outcome {
    pub next: GenerationView,
    pub store: StoreView,
    pub action: ActionView,
}

/// The text that a generation without a configured model ends with.
pub open spec fn no_model_text() -> Seq<char> {
    "No Stable Diffusion model found. Please download a model first."@
}

/// The text that a generation ends with when its directory cannot be made.
pub open spec fn directory_failure_text(reason: Seq<char>) -> Seq<char> {
    "Failed to create output directory: "@ + reason
}

/// The text that a cancelled generation ends with.
pub open spec fn cancelled_text() -> Seq<char> {
    "Generation cancelled"@
}

/// The text that an unreadable clock is reported with.
pub open spec fn clock_failure_text(reason: Seq<char>) -> Seq<char> {
    "Failed to get timestamp: "@ + reason
}

/// The text that a generation ends with when the inference process and the
/// fallback both failed: it names both failures.
pub open spec fn fallback_failure_text(reason: Seq<char>, backend_failure: Seq<char>) -> Seq<char> {
    "Failed to create fallback image: "@ + reason + " (backend error: "@ + backend_failure + ")"@
}

/// The name of the fallback file written at a time for a size.
pub open spec fn fallback_file_name(seconds: u64, width: u32, height: u32) -> Seq<char> {
    "diffusionbee_fallback_"@ + decimal(seconds as nat) + "_"@ + decimal(width as nat) + "x"@
        + decimal(height as nat) + ".png"@
}

/// The last status of a run that the inference process served.
pub open spec fn complete_status() -> Seq<char> {
    "Complete"@
}

/// The last status of a run that the fallback image served.
pub open spec fn fallback_status() -> Seq<char> {
    "Complete (Fallback)"@
}

/// The end of a generation with an error: nothing more is published.
pub open spec fn fail(store: StoreView, text: Seq<char>) -> Outcome {
    Outcome {
        next: GenerationView::Done,
        store,
        action: ActionView::Finish { outcome: Err(text) },
    }
}

/// The end of a generation whose cancellation was observed.
pub open spec fn cancel(store: StoreView) -> Outcome {
    Outcome {
        next: GenerationView::Done,
        store: store.mark_cancelled(),
        action: ActionView::Finish { outcome: Err(cancelled_text()) },
    }
}

/// The first step: the request is validated, then the model is resolved;
/// only then is progress published and the directory asked for.
pub open spec fn begin(
    store: StoreView,
    request: RequestView,
    model_path: Seq<char>,
    model: FileProbeView,
    output_directory: Seq<char>,
) -> Outcome {
    if let Some(violation) = request.first_violation() {
        fail(store, violation.text())
    } else if model_path.len() == 0 {
        fail(store, no_model_text())
    } else if !model.exists {
        fail(store, model_missing_text(model_path))
    } else if !model.is_model_file() {
        fail(store, model_extension_text())
    } else {
        Outcome {
            next: GenerationView::PreparingOutput { request, model_path, output_directory },
            store: store.reset(request.num_inference_steps),
            action: ActionView::CreateOutputDirectory { path: output_directory },
        }
    }
}

/// The step after the inference process failed with `backend_failure`:
/// unless cancellation was asked for, the fallback image is built.
pub open spec fn fall_back(
    store: StoreView,
    img_width: u32,
    img_height: u32,
    output_directory: Seq<char>,
    backend_failure: Seq<char>,
    clock: Result<u64, Seq<char>>,
) -> Outcome {
    if store.cancel_requested {
        cancel(store)
    } else {
        match clock {
            Err(reason) => fail(
                store,
                fallback_failure_text(clock_failure_text(reason), backend_failure),
            ),
            Ok(seconds) => Outcome {
                next: GenerationView::FallingBack { backend_failure },
                store,
                action: ActionView::WriteFallback {
                    directory: output_directory,
                    file_name: fallback_file_name(seconds, img_width, img_height),
                    image: placeholder_image(img_width, img_height),
                },
            },
        }
    }
}

/// The text that a failed exchange with the inference process is reported
/// with.
pub open spec fn reply_failure_text(reply: Reply, status: Seq<char>) -> Seq<char> {
    match reply {
        Reply::ExitFailure => exit_failure_text(status),
        _ => no_response_text(),
    }
}

/// The step function of a generation: what an event leads to in a state,
/// with the store as it is at that moment. An event that does not belong to
/// the state changes nothing.
pub open spec fn transition(state: GenerationView, store: StoreView, event: EventView) -> Outcome {
    match (state, event) {
        (
            GenerationView::Idle,
            EventView::Start { request, model_path, model, output_directory },
        ) => begin(store, request, model_path, model, output_directory),
        (
            GenerationView::PreparingOutput { request, model_path, output_directory },
            EventView::DirectoryFailed { reason },
        ) => fail(store, directory_failure_text(reason)),
        (
            GenerationView::PreparingOutput { request, model_path, output_directory },
            EventView::DirectoryReady,
        ) => if store.cancel_requested {
            cancel(store)
        } else {
            Outcome {
                next: GenerationView::Invoking {
                    img_width: request.img_width,
                    img_height: request.img_height,
                    output_directory,
                },
                store,
                action: ActionView::InvokeBackend { request, model_path },
            }
        },
        (
            GenerationView::Invoking { img_width, img_height, output_directory },
            EventView::BackendUnreachable { reason, clock },
        ) => fall_back(store, img_width, img_height, output_directory, reason, clock),
        (
            GenerationView::Invoking { img_width, img_height, output_directory },
            EventView::BackendExited { success, status, output, clock },
        ) => match reply_of(success, output) {
            Reply::Response(response) => Outcome {
                next: GenerationView::Done,
                store: store.mark_complete(complete_status()),
                action: ActionView::Finish { outcome: Ok(response) },
            },
            reply => fall_back(
                store,
                img_width,
                img_height,
                output_directory,
                reply_failure_text(reply, status),
                clock,
            ),
        },
        (GenerationView::FallingBack { backend_failure }, EventView::FallbackWritten { path }) => {
            Outcome {
                next: GenerationView::Done,
                store: store.mark_complete(fallback_status()),
                action: ActionView::Finish {
                    outcome: Ok(
                        ResponseView { generated_img_path: path, aux_output_image_path: None },
                    ),
                },
            }
        },
        (GenerationView::FallingBack { backend_failure }, EventView::FallbackFailed { reason }) => {
            fail(store, fallback_failure_text(reason, backend_failure))
        },
        _ => Outcome { next: state, store, action: ActionView::Ignore },
    }
}

/// One generation, from the request to the outcome.
pub struct GenerationCoordinator {
    state: State,
}

impl View for GenerationCoordinator {
    type V = GenerationView;

    closed spec fn view(&self) -> GenerationView {
        match self.state {
            State::Idle => GenerationView::Idle,
            State::PreparingOutput { request, model_path, output_directory } => {
                GenerationView::PreparingOutput {
                    request: request@,
                    model_path: model_path@,
                    output_directory: output_directory@,
                }
            },
            State::Invoking { img_width, img_height, output_directory } => GenerationView::Invoking {
                img_width,
                img_height,
                output_directory: output_directory@,
            },
            State::FallingBack { backend_failure } => GenerationView::FallingBack {
                backend_failure: backend_failure@,
            },
            State::Done => GenerationView::Done,
        }
    }
}

/// Writes the name of the fallback file.
pub fn write_fallback_file_name(seconds: u64, width: u32, height: u32) -> (name: String)
    ensures
        name@ == fallback_file_name(seconds, width, height),
{
    let name = String::from_str("diffusionbee_fallback_");
    let name = name.concat(decimal_text(seconds).as_str());
    let name = name.concat("_");
    let name = name.concat(decimal_text(width as u64).as_str());
    let name = name.concat("x");
    let name = name.concat(decimal_text(height as u64).as_str());
    name.concat(".png")
}

/// Writes the text that names the failure of the inference process and
/// that of the fallback.
pub fn write_fallback_failure(reason: &str, backend_failure: &str) -> (text: String)
    ensures
        text@ == fallback_failure_text(reason@, backend_failure@),
{
    let text = String::from_str("Failed to create fallback image: ");
    let text = text.concat(reason);
    let text = text.concat(" (backend error: ");
    let text = text.concat(backend_failure);
    text.concat(")")
}

impl GenerationCoordinator {
    #[verifier::type_invariant]
    spec fn well_formed(self) -> bool {
        self@.wf()
    }

    /// A generation that nothing was asked of yet.
    pub fn new() -> (coordinator: Self)
        ensures
            coordinator@ == GenerationView::Idle,
    {
        GenerationCoordinator { state: State::Idle }
    }

    /// Whether the outcome was handed out.
    pub fn is_done(&self) -> (done: bool)
        ensures
            done == (self@ is Done),
    {
        match &self.state {
            State::Done => true,
            _ => false,
        }
    }

    fn finish_with_error(store: &mut ProgressStore, text: String) -> (next: (Self, Action))
        ensures
            next.0@ == GenerationView::Done,
            final(store)@ == old(store)@,
            next.1@ == (ActionView::Finish { outcome: Err(text@) }),
    {
        (GenerationCoordinator { state: State::Done }, Action::Finish { outcome: Err(text) })
    }

    fn finish_cancelled(store: &mut ProgressStore) -> (next: (Self, Action))
        ensures
            next.0@ == cancel(old(store)@).next,
            final(store)@ == cancel(old(store)@).store,
            next.1@ == cancel(old(store)@).action,
    {
        store.mark_cancelled();
        (
            GenerationCoordinator { state: State::Done },
            Action::Finish { outcome: Err(String::from_str("Generation cancelled")) },
        )
    }

    fn start(
        store: &mut ProgressStore,
        request: ImageGenerationRequest,
        model_path: String,
        model: FileProbe,
        output_directory: String,
    ) -> (next: (Self, Action))
        ensures
            next.0@ == begin(old(store)@, request@, model_path@, model@, output_directory@).next,
            final(store)@ == begin(old(store)@, request@, model_path@, model@, output_directory@).store,
            next.1@ == begin(old(store)@, request@, model_path@, model@, output_directory@).action,
    {
        match request.check() {
            Some(violation) => {
                return Self::finish_with_error(store, violation.describe());
            },
            None => {},
        }
        if model_path.as_str().is_empty() {
            return Self::finish_with_error(
                store,
                String::from_str("No Stable Diffusion model found. Please download a model first."),
            );
        }
        if !model.exists {
            return Self::finish_with_error(
                store,
                String::from_str("Model file not found at: ").concat(model_path.as_str()),
            );
        }
        if !model.has_model_extension() {
            return Self::finish_with_error(
                store,
                String::from_str("Model file must have .tdict extension"),
            );
        }
        store.reset(request.num_inference_steps);
        let path = output_directory.clone();
        (
            GenerationCoordinator {
                state: State::PreparingOutput { request, model_path, output_directory },
            },
            Action::CreateOutputDirectory { path },
        )
    }

    fn start_fallback(
        store: &mut ProgressStore,
        img_width: u32,
        img_height: u32,
        output_directory: String,
        backend_failure: String,
        clock: Result<u64, String>,
    ) -> (next: (Self, Action))
        requires
            dimension_in_bounds(img_width),
            dimension_in_bounds(img_height),
        ensures
            next.0@ == fall_back(
                old(store)@,
                img_width,
                img_height,
                output_directory@,
                backend_failure@,
                clock_view(clock),
            ).next,
            final(store)@ == fall_back(
                old(store)@,
                img_width,
                img_height,
                output_directory@,
                backend_failure@,
                clock_view(clock),
            ).store,
            next.1@ == fall_back(
                old(store)@,
                img_width,
                img_height,
                output_directory@,
                backend_failure@,
                clock_view(clock),
            ).action,
    {
        if store.cancel_requested() {
            return Self::finish_cancelled(store);
        }
        match clock {
            Err(reason) => {
                let reason = String::from_str("Failed to get timestamp: ").concat(reason.as_str());
                Self::finish_with_error(
                    store,
                    write_fallback_failure(reason.as_str(), backend_failure.as_str()),
                )
            },
            Ok(seconds) => {
                proof {
                    lemma_bounded_image_fits(img_width, img_height);
                }
                let image = create_placeholder_image(img_width, img_height);
                let file_name = write_fallback_file_name(seconds, img_width, img_height);
                (
                    GenerationCoordinator { state: State::FallingBack { backend_failure } },
                    Action::WriteFallback { directory: output_directory, file_name, image },
                )
            },
        }
    }

    /// Takes one event and decides what is done next. The store is the one
    /// that polling callers read and raise the cancellation flag in.
    pub fn step(self, store: &mut ProgressStore, event: Event) -> (next: (Self, Action))
        ensures
            next.0@ == transition(self@, old(store)@, event@).next,
            final(store)@ == transition(self@, old(store)@, event@).store,
            next.1@ == transition(self@, old(store)@, event@).action,
    {
        proof {
            use_type_invariant(&self);
        }
        match (self.state, event) {
            (State::Idle, Event::Start { request, model_path, model, output_directory }) => {
                Self::start(store, request, model_path, model, output_directory)
            },
            (State::PreparingOutput { .. }, Event::DirectoryFailed { reason }) => {
                Self::finish_with_error(
                    store,
                    String::from_str("Failed to create output directory: ").concat(reason.as_str()),
                )
            },
            (
                State::PreparingOutput { request, model_path, output_directory },
                Event::DirectoryReady,
            ) => {
                if store.cancel_requested() {
                    Self::finish_cancelled(store)
                } else {
                    (
                        GenerationCoordinator {
                            state: State::Invoking {
                                img_width: request.img_width,
                                img_height: request.img_height,
                                output_directory,
                            },
                        },
                        Action::InvokeBackend { request, model_path },
                    )
                }
            },
            (
                State::Invoking { img_width, img_height, output_directory },
                Event::BackendUnreachable { reason, clock },
            ) => Self::start_fallback(store, img_width, img_height, output_directory, reason, clock),
            (
                State::Invoking { img_width, img_height, output_directory },
                Event::BackendExited { success, status, output, clock },
            ) => {
                match parse_backend_output(success, status.as_str(), output.as_slice()) {
                    Ok(response) => {
                        store.mark_complete(String::from_str("Complete"));
                        (
                            GenerationCoordinator { state: State::Done },
                            Action::Finish { outcome: Ok(response) },
                        )
                    },
                    Err(failure) => {
                        let backend_failure = failure.detail().clone();
                        Self::start_fallback(
                            store,
                            img_width,
                            img_height,
                            output_directory,
                            backend_failure,
                            clock,
                        )
                    },
                }
            },
            (State::FallingBack { .. }, Event::FallbackWritten { path }) => {
                store.mark_complete(String::from_str("Complete (Fallback)"));
                (
                    GenerationCoordinator { state: State::Done },
                    Action::Finish {
                        outcome: Ok(
                            ImageGenerationResponse {
                                generated_img_path: path,
                                aux_output_image_path: None,
                            },
                        ),
                    },
                )
            },
            (State::FallingBack { backend_failure }, Event::FallbackFailed { reason }) => {
                Self::finish_with_error(
                    store,
                    write_fallback_failure(reason.as_str(), backend_failure.as_str()),
                )
            },
            (state, _) => (GenerationCoordinator { state }, Action::Ignore),
        }
    }
}

/// What holds between the events of a generation while only this
/// coordinator and polling callers touch the store: the state and the store
/// are well formed, and while the generation runs the store shows a run in
/// flight.
pub open spec fn in_step(state: GenerationView, store: StoreView) -> bool {
    &&& state.wf()
    &&& store.wf()
    &&& state.is_running() ==> store.in_flight()
}

/// Whether an event reports that the inference process gave no response.
pub open spec fn is_backend_failure(event: EventView) -> bool {
    match event {
        EventView::BackendUnreachable { .. } => true,
        EventView::BackendExited { success, output, .. } => !(reply_of(success, output)
            is Response),
        _ => false,
    }
}

/// The text of the failure that such an event reports.
pub open spec fn backend_failure_text(event: EventView) -> Seq<char> {
    match event {
        EventView::BackendUnreachable { reason, .. } => reason,
        EventView::BackendExited { success, status, output, .. } => reply_failure_text(
            reply_of(success, output),
            status,
        ),
        _ => Seq::empty(),
    }
}

/// The clock reading that such an event carries.
pub open spec fn backend_clock(event: EventView) -> Result<u64, Seq<char>> {
    match event {
        EventView::BackendUnreachable { clock, .. } => clock,
        EventView::BackendExited { clock, .. } => clock,
        _ => Err(Seq::empty()),
    }
}

/// A request that breaks a constraint is refused with the text of the first
/// constraint it breaks, and a generation that ends at its first step, for
/// that or for want of a model, publishes no progress: the store is left
/// as it was.
pub proof fn lemma_refusal_publishes_nothing(
    store: StoreView,
    request: RequestView,
    model_path: Seq<char>,
    model: FileProbeView,
    output_directory: Seq<char>,
)
    ensures
        ({
            let event = EventView::Start { request, model_path, model, output_directory };
            let out = transition(GenerationView::Idle, store, event);
            &&& !request.is_valid() ==> out.action == (ActionView::Finish {
                outcome: Err(request.first_violation()->0.text()),
            })
            &&& out.action is Finish ==> out.store == store && out.next is Done
            &&& out.action is Finish <==> !request.is_valid() || model_path.len() == 0
                || !model.exists || !model.is_model_file()
        }),
{
}

/// A request that passes validation with a model that is resolved starts a
/// run: the store is reset to step 0 of the requested number of steps, with
/// both flags down and no cancellation asked for, and the output directory
/// is asked for.
pub proof fn lemma_start_resets_progress(
    store: StoreView,
    request: RequestView,
    model_path: Seq<char>,
    model: FileProbeView,
    output_directory: Seq<char>,
)
    requires
        request.is_valid(),
        model_path.len() > 0,
        model.exists,
        model.is_model_file(),
    ensures
        ({
            let event = EventView::Start { request, model_path, model, output_directory };
            let out = transition(GenerationView::Idle, store, event);
            &&& out.store == store.reset(request.num_inference_steps)
            &&& out.store.read() == crate::progress::ProgressView::initial(
                request.num_inference_steps,
            )
            &&& !out.store.cancel_requested
            &&& out.action == (ActionView::CreateOutputDirectory { path: output_directory })
            &&& in_step(out.next, out.store)
        }),
{
}

/// Every step keeps what holds between events, and so does a caller that
/// asks for cancellation. It holds of a fresh coordinator with any
/// well-formed store.
pub proof fn lemma_steps_keep_in_step(state: GenerationView, store: StoreView, event: EventView)
    requires
        in_step(state, store),
    ensures
        in_step(transition(state, store, event).next, transition(state, store, event).store),
        in_step(state, store.request_cancel()),
        in_step(GenerationView::Idle, store),
{
}

/// A generation that ends with a response leaves a record that is complete
/// and not cancelled, and no step ever leaves a record that is both.
pub proof fn lemma_success_is_complete(state: GenerationView, store: StoreView, event: EventView)
    requires
        in_step(state, store),
    ensures
        ({
            let out = transition(state, store, event);
            &&& out.action matches ActionView::Finish { outcome: Ok(_) } ==> out.store.read().is_complete
                && !out.store.read().is_cancelled
            &&& !(out.store.read().is_complete && out.store.read().is_cancelled)
        }),
{
}

/// Cancellation that was asked for is observed before the next unit of
/// work begins: the inference process is not started, nor the fallback
/// image built. The record becomes cancelled, keeps the step it had
/// reached, and the generation ends with the cancellation error.
pub proof fn lemma_cancellation_is_observed(
    state: GenerationView,
    store: StoreView,
    event: EventView,
)
    requires
        in_step(state, store),
        store.cancel_requested,
        (state is PreparingOutput && event is DirectoryReady) || (state is Invoking
            && is_backend_failure(event)),
    ensures
        ({
            let out = transition(state, store, event);
            &&& out.action == (ActionView::Finish { outcome: Err(cancelled_text()) })
            &&& out.next is Done
            &&& out.store.read().is_cancelled
            &&& !out.store.read().is_complete
            &&& out.store.read().status == "Cancelled"@
            &&& out.store.read().current_step == store.read().current_step
            &&& out.store.read().total_steps == store.read().total_steps
        }),
{
}

/// A generation that has ended takes no further event: what it published
/// stays in the store until another generation resets it.
pub proof fn lemma_done_is_final(store: StoreView, event: EventView)
    ensures
        transition(GenerationView::Done, store, event) == (Outcome {
            next: GenerationView::Done,
            store,
            action: ActionView::Ignore,
        }),
{
}

/// Whatever way the inference process fails, unless cancellation was asked
/// for or the clock cannot be read, the placeholder image of the requested
/// size is handed out to be written; and once it is written, the
/// generation ends with a response that names the written file, and the
/// record is complete with the status of the fallback.
pub proof fn lemma_backend_failure_falls_back(
    store: StoreView,
    img_width: u32,
    img_height: u32,
    output_directory: Seq<char>,
    event: EventView,
    later: StoreView,
    path: Seq<char>,
)
    requires
        in_step(GenerationView::Invoking { img_width, img_height, output_directory }, store),
        is_backend_failure(event),
        !store.cancel_requested,
        backend_clock(event) is Ok,
        later == store || later == store.request_cancel(),
    ensures
        ({
            let state = GenerationView::Invoking { img_width, img_height, output_directory };
            let out = transition(state, store, event);
            let end = transition(out.next, later, EventView::FallbackWritten { path });
            &&& out.action == (ActionView::WriteFallback {
                directory: output_directory,
                file_name: fallback_file_name(backend_clock(event)->Ok_0, img_width, img_height),
                image: placeholder_image(img_width, img_height),
            })
            &&& out.next == (GenerationView::FallingBack {
                backend_failure: backend_failure_text(event),
            })
            &&& out.store == store
            &&& end.action == (ActionView::Finish {
                outcome: Ok(
                    ResponseView { generated_img_path: path, aux_output_image_path: None },
                ),
            })
            &&& end.store.read().is_complete
            &&& !end.store.read().is_cancelled
            &&& end.store.read().status == fallback_status()
        }),
{
}

/// Where the fallback image cannot be written either, the generation ends
/// with an error that names both failures, and the record is not complete.
pub proof fn lemma_fallback_failure_names_both(
    store: StoreView,
    backend_failure: Seq<char>,
    reason: Seq<char>,
)
    requires
        in_step(GenerationView::FallingBack { backend_failure }, store),
    ensures
        ({
            let out = transition(
                GenerationView::FallingBack { backend_failure },
                store,
                EventView::FallbackFailed { reason },
            );
            &&& out.action == (ActionView::Finish {
                outcome: Err(fallback_failure_text(reason, backend_failure)),
            })
            &&& out.store == store
            &&& !out.store.read().is_complete
        }),
{
}

} // verus!
