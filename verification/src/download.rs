//! One download, as a state machine.
//!
//! The machine decides and its caller acts. `Download::start` takes the
//! target and answers with the first action. The caller performs it, reports
//! what happened as an `Event`, and `Download::step` answers with the lines
//! to print and the next action, until the action is `Action::Finish`.

use vstd::prelude::*;
use crate::error::{DownloadError, ErrorView};
use crate::output::{file_name, file_name_of, output_file_of, FileView, OutputFile};
use crate::metadata::{metadata_of, HeadView, MetadataView, ResponseHead, ResponseMetadata};
use crate::progress::{create_progress_bar, ProgressMode, ProgressState, ProgressView};
use crate::report::{
    human_bytes, human_bytes_text, length_line, length_line_of, lines_view, saving_line,
    saving_line_of, status_line, status_line_of, type_line, type_line_of, unknown_length_line,
    unknown_length_line_of, Line, SpanView,
};
use crate::status::{is_status_code, is_success, is_success_code, status_display, status_text};
use crate::target::{parse_url, parsed_url};

verus! {

/// What the machine waits for.
#[derive(Clone, Copy, Debug, PartialEq, Eq, Structural)]
pub enum Phase {
    /// The request was sent.
    AwaitingResponse,
    /// The response reported success; its body is being received.
    AwaitingBody,
    /// The body is being written to the file.
    AwaitingWrite,
    /// Nothing more: the download has ended.
    Finished,
}

/// What the caller reports back.
#[derive(Debug, PartialEq, Eq)]
pub enum Event {
    /// A response arrived, with this head.
    Response(ResponseHead),
    /// The request or the transfer of the body failed, for this cause.
    TransportFailure(String),
    /// The whole body arrived.
    Body(Vec<u8>),
    /// The file was written.
    Written,
    /// The file could not be written, for this cause.
    WriteFailure(String),
}

/// The mathematical value of an `Event`.
pub enum EventView {
    Response(HeadView),
    TransportFailure(Seq<char>),
    Body(Seq<u8>),
    Written,
    WriteFailure(Seq<char>),
}

impl View for Event {
    type V = EventView;

    open spec fn view(&self) -> EventView {
        match *self {
            Event::Response(head) => EventView::Response(head@),
            Event::TransportFailure(cause) => EventView::TransportFailure(cause@),
            Event::Body(body) => EventView::Body(body@),
            Event::Written => EventView::Written,
            Event::WriteFailure(cause) => EventView::WriteFailure(cause@),
        }
    }
}

/// What the caller is asked to do next.
#[derive(Debug, PartialEq, Eq)]
pub enum Action {
    /// Send a GET request to this URL and report the response.
    Get { url: String },
    /// Show the progress presenter, receive the body and report it.
    FetchBody,
    /// Complete the presenter and write this file, replacing what is there.
    Write(OutputFile),
    /// Stop, with this outcome.
    Finish(Result<(), DownloadError>),
    /// The event does not belong to the phase. Nothing has changed.
    Rejected,
}

/// The mathematical value of an `Action`.
pub enum ActionView {
    Get { url: Seq<char> },
    FetchBody,
    Write(FileView),
    Finish(Result<(), ErrorView>),
    Rejected,
}

impl View for Action {
    type V = ActionView;

    open spec fn view(&self) -> ActionView {
        match *self {
            Action::Get { url } => ActionView::Get { url: url@ },
            Action::FetchBody => ActionView::FetchBody,
            Action::Write(file) => ActionView::Write(file@),
            Action::Finish(Ok(())) => ActionView::Finish(Ok(())),
            Action::Finish(Err(e)) => ActionView::Finish(Err(e@)),
            Action::Rejected => ActionView::Rejected,
        }
    }
}

/// What is asked for: the target as the user gave it, and whether the
/// presenter is to stay hidden.
#[derive(Debug, PartialEq, Eq)]
pub struct DownloadRequest {
    pub target: String,
    pub quiet: bool,
}

/// The mathematical value of a `DownloadRequest`.
pub struct RequestView {
    pub target: Seq<char>,
    pub quiet: bool,
}

impl View for DownloadRequest {
    type V = RequestView;

    open spec fn view(&self) -> RequestView {
        RequestView { target: self.target@, quiet: self.quiet }
    }
}

/// The mathematical value of a `Download`.
pub struct DownloadView {
    pub request: RequestView,
    pub phase: Phase,
    pub metadata: Option<MetadataView>,
    pub progress: Option<ProgressView>,
}

/// The mathematical value of a `Step`.
pub struct StepView {
    pub state: DownloadView,
    pub report: Seq<Seq<SpanView>>,
    pub action: ActionView,
}

/// The lines that report a response of the given status.
pub open spec fn response_report(head: HeadView, target: Seq<char>, quiet: bool) -> Seq<
    Seq<SpanView>,
> {
    let status = status_line_of(status_display(head.status), quiet);
    if is_success_code(head.status) {
        let metadata = metadata_of(head);
        seq![
            status,
            match metadata.content_length {
                Some(n) => length_line_of(n, human_bytes_text(n), quiet),
                None => unknown_length_line_of(quiet),
            },
            type_line_of(metadata.content_type, quiet),
            saving_line_of(file_name_of(target), quiet),
        ]
    } else {
        seq![status]
    }
}

impl DownloadView {
    /// The presenter of a transfer that was announced by `metadata`.
    pub open spec fn presenter(self, metadata: MetadataView) -> ProgressView {
        ProgressView::created(
            self.request.quiet,
            file_name_of(self.request.target),
            metadata.content_length,
        )
    }

    /// Whether the parts of the state fit its phase: metadata and a presenter
    /// exist once a response has reported success, the presenter is the one
    /// made for that response, and it is complete once the body has arrived.
    pub open spec fn wf(self) -> bool {
        match self.phase {
            Phase::AwaitingResponse => self.metadata is None && self.progress is None,
            Phase::AwaitingBody => {
                &&& self.metadata matches Some(m)
                &&& is_success_code(m.status)
                &&& self.progress == Some(self.presenter(m))
            },
            Phase::AwaitingWrite => {
                &&& self.metadata matches Some(m)
                &&& is_success_code(m.status)
                &&& self.progress == Some(self.presenter(m).completed())
            },
            Phase::Finished => {
                match self.metadata {
                    Some(m) => {
                        &&& is_success_code(m.status)
                        &&& self.progress == Some(self.presenter(m)) || self.progress == Some(
                            self.presenter(m).completed(),
                        )
                    },
                    None => self.progress is None,
                }
            },
        }
    }

    /// The answer to an event that does not belong to the phase.
    pub open spec fn rejected(self) -> StepView {
        StepView { state: self, report: Seq::empty(), action: ActionView::Rejected }
    }

    /// The answer that ends the download.
    pub open spec fn finished(
        self,
        report: Seq<Seq<SpanView>>,
        outcome: Result<(), ErrorView>,
    ) -> StepView {
        StepView {
            state: DownloadView { phase: Phase::Finished, ..self },
            report,
            action: ActionView::Finish(outcome),
        }
    }

    /// The answer to a response. Any status is reported. A status of success
    /// has the head read, the presenter made and the body fetched; any other
    /// ends the download, with no file and no error.
    pub open spec fn on_response(self, head: HeadView) -> StepView {
        if self.phase != Phase::AwaitingResponse || !is_status_code(head.status) {
            self.rejected()
        } else if !is_success_code(head.status) {
            self.finished(response_report(head, self.request.target, self.request.quiet), Ok(()))
        } else {
            let metadata = metadata_of(head);
            StepView {
                state: DownloadView {
                    phase: Phase::AwaitingBody,
                    metadata: Some(metadata),
                    progress: Some(self.presenter(metadata)),
                    ..self
                },
                report: response_report(head, self.request.target, self.request.quiet),
                action: ActionView::FetchBody,
            }
        }
    }

    /// The answer to a failure of the transport: the download ends with it.
    pub open spec fn on_transport_failure(self, cause: Seq<char>) -> StepView {
        if self.phase == Phase::AwaitingResponse || self.phase == Phase::AwaitingBody {
            self.finished(Seq::empty(), Err(ErrorView::TransportError(cause)))
        } else {
            self.rejected()
        }
    }

    /// The answer to the body: the presenter is complete, and the body is to
    /// be written, as it came, under the file name of the target.
    pub open spec fn on_body(self, body: Seq<u8>) -> StepView {
        match (self.phase, self.progress) {
            (Phase::AwaitingBody, Some(progress)) => StepView {
                state: DownloadView {
                    phase: Phase::AwaitingWrite,
                    progress: Some(progress.completed()),
                    ..self
                },
                report: Seq::empty(),
                action: ActionView::Write(output_file_of(self.request.target, body)),
            },
            _ => self.rejected(),
        }
    }

    /// The answer to the file being written: the download ends well.
    pub open spec fn on_written(self) -> StepView {
        if self.phase == Phase::AwaitingWrite {
            self.finished(Seq::empty(), Ok(()))
        } else {
            self.rejected()
        }
    }

    /// The answer to a failure to write: the download ends with it.
    pub open spec fn on_write_failure(self, cause: Seq<char>) -> StepView {
        if self.phase == Phase::AwaitingWrite {
            self.finished(Seq::empty(), Err(ErrorView::IoError(cause)))
        } else {
            self.rejected()
        }
    }

    /// The answer to any event.
    pub open spec fn step(self, event: EventView) -> StepView {
        match event {
            EventView::Response(head) => self.on_response(head),
            EventView::TransportFailure(cause) => self.on_transport_failure(cause),
            EventView::Body(body) => self.on_body(body),
            EventView::Written => self.on_written(),
            EventView::WriteFailure(cause) => self.on_write_failure(cause),
        }
    }
}

/// How a download begins, given what the target parsed to: with a request
/// to the URL, or, where the target is none, at its end with the reason.
pub open spec fn begin_of(
    request: RequestView,
    parsed: Result<Seq<char>, url::ParseError>,
) -> StepView {
    let state = DownloadView {
        request,
        phase: Phase::AwaitingResponse,
        metadata: None,
        progress: None,
    };
    match parsed {
        Ok(url) => StepView { state, report: Seq::empty(), action: ActionView::Get { url } },
        Err(reason) => state.finished(Seq::empty(), Err(ErrorView::InvalidUrl(reason))),
    }
}

/// The state of one download.
#[derive(Debug, PartialEq, Eq)]
pub struct Download {
    request: DownloadRequest,
    phase: Phase,
    metadata: Option<ResponseMetadata>,
    progress: Option<ProgressState>,
}

impl View for Download {
    type V = DownloadView;

    closed spec fn view(&self) -> DownloadView {
        DownloadView {
            request: self.request@,
            phase: self.phase,
            metadata: match self.metadata {
                Some(m) => Some(m@),
                None => None,
            },
            progress: match self.progress {
                Some(p) => Some(p@),
                None => None,
            },
        }
    }
}

/// The answer of the machine: its next state, the lines to print now, and
/// what to do after that.
#[derive(Debug, PartialEq, Eq)]
pub struct Step {
    pub state: Download,
    pub report: Vec<Line>,
    pub action: Action,
}

impl View for Step {
    type V = StepView;

    open spec fn view(&self) -> StepView {
        StepView { state: self.state@, report: lines_view(self.report@), action: self.action@ }
    }
}

impl Download {
    #[verifier::type_invariant]
    spec fn well_formed(self) -> bool {
        self@.wf()
    }

    /// Begins the download that `request` asks for, given what its target
    /// parsed to.
    pub fn begin(
        request: DownloadRequest,
        parsed: Result<String, url::ParseError>,
    ) -> (first: Step)
        ensures
            first@ == begin_of(
                request@,
                match parsed {
                    Ok(url) => Ok(url@),
                    Err(reason) => Err(reason),
                },
            ),
            first.state@.wf(),
    {
        let report: Vec<Line> = Vec::new();
        assert(lines_view(report@) =~= Seq::empty());
        match parsed {
            Ok(url) => Step {
                state: Download {
                    request,
                    phase: Phase::AwaitingResponse,
                    metadata: None,
                    progress: None,
                },
                report,
                action: Action::Get { url },
            },
            Err(reason) => Step {
                state: Download { request, phase: Phase::Finished, metadata: None, progress: None },
                report,
                action: Action::Finish(Err(DownloadError::InvalidUrl(reason))),
            },
        }
    }

    /// Begins the download that `request` asks for. A target that parses as
    /// an absolute URL has a request sent to that URL. Any other ends the
    /// download at once with `InvalidUrl`, and nothing is sent.
    pub fn start(request: DownloadRequest) -> (first: Step)
        ensures
            match parsed_url(request@.target) {
                Some(url) => first@ == begin_of(request@, Ok(url)),
                None => exists|reason: url::ParseError|
                    first@ == begin_of(request@, Err(reason)),
            },
            first.state@.wf(),
    {
        let parsed = parse_url(request.target.as_str());
        Download::begin(request, parsed)
    }

    /// What was asked for.
    pub fn request(&self) -> (request: &DownloadRequest)
        ensures
            request@ == self@.request,
    {
        &self.request
    }

    /// What the machine waits for.
    pub fn phase(&self) -> (phase: Phase)
        ensures
            phase == self@.phase,
    {
        self.phase
    }

    /// What the head of the response said, once a response reported success.
    pub fn metadata(&self) -> (metadata: Option<&ResponseMetadata>)
        ensures
            match metadata {
                Some(m) => self@.metadata == Some(m@),
                None => self@.metadata is None,
            },
    {
        self.metadata.as_ref()
    }

    /// The state of the presenter, once there is one.
    pub fn progress(&self) -> (progress: Option<&ProgressState>)
        ensures
            match progress {
                Some(p) => self@.progress == Some(p@),
                None => self@.progress is None,
            },
    {
        self.progress.as_ref()
    }

    fn reject(self) -> (next: Step)
        ensures
            next@ == self@.rejected(),
    {
        let report: Vec<Line> = Vec::new();
        assert(lines_view(report@) =~= Seq::empty());
        Step { state: self, report, action: Action::Rejected }
    }

    fn end(self, report: Vec<Line>, outcome: Result<(), DownloadError>) -> (next: Step)
        requires
            (DownloadView { phase: Phase::Finished, ..self@ }).wf(),
        ensures
            next@ == self@.finished(
                lines_view(report@),
                match outcome {
                    Ok(()) => Ok(()),
                    Err(e) => Err(e@),
                },
            ),
    {
        Step {
            state: Download {
                request: self.request,
                phase: Phase::Finished,
                metadata: self.metadata,
                progress: self.progress,
            },
            report,
            action: Action::Finish(outcome),
        }
    }

    fn on_response(self, head: ResponseHead) -> (next: Step)
        ensures
            next@ == self@.on_response(head@),
    {
        proof {
            use_type_invariant(&self);
        }
        if self.phase != Phase::AwaitingResponse {
            return self.reject();
        }
        let status = match status_text(head.status) {
            Some(text) => text,
            None => {
                return self.reject();
            },
        };
        let quiet = self.request.quiet;
        let mut report: Vec<Line> = Vec::new();
        report.push(status_line(status.as_str(), quiet));
        if !is_success(head.status) {
            assert(lines_view(report@) =~= response_report(head@, self@.request.target, quiet));
            return self.end(report, Ok(()));
        }
        let metadata = ResponseMetadata::read(&head);
        match metadata.content_length() {
            Some(n) => {
                let readable = human_bytes(n);
                report.push(length_line(n, readable.as_str(), quiet));
            },
            None => {
                report.push(unknown_length_line(quiet));
            },
        }
        report.push(type_line(metadata.content_type(), quiet));
        let name = file_name(self.request.target.as_str());
        report.push(saving_line(name, quiet));
        let progress = create_progress_bar(quiet, name, metadata.content_length());
        assert(lines_view(report@) =~= response_report(head@, self@.request.target, quiet));
        Step {
            state: Download {
                request: self.request,
                phase: Phase::AwaitingBody,
                metadata: Some(metadata),
                progress: Some(progress),
            },
            report,
            action: Action::FetchBody,
        }
    }

    fn on_transport_failure(self, cause: String) -> (next: Step)
        ensures
            next@ == self@.on_transport_failure(cause@),
    {
        proof {
            use_type_invariant(&self);
        }
        match self.phase {
            Phase::AwaitingResponse | Phase::AwaitingBody => {
                let report: Vec<Line> = Vec::new();
                assert(lines_view(report@) =~= Seq::empty());
                self.end(report, Err(DownloadError::TransportError(cause)))
            },
            _ => self.reject(),
        }
    }

    fn on_body(self, body: Vec<u8>) -> (next: Step)
        ensures
            next@ == self@.on_body(body@),
    {
        proof {
            use_type_invariant(&self);
        }
        if self.phase != Phase::AwaitingBody {
            return self.reject();
        }
        let mut progress = match self.progress {
            Some(p) => p,
            None => {
                return self.reject();
            },
        };
        progress.finish();
        let name = file_name(self.request.target.as_str()).to_owned();
        let report: Vec<Line> = Vec::new();
        assert(lines_view(report@) =~= Seq::empty());
        Step {
            state: Download {
                request: self.request,
                phase: Phase::AwaitingWrite,
                metadata: self.metadata,
                progress: Some(progress),
            },
            report,
            action: Action::Write(OutputFile { name, data: body }),
        }
    }

    fn on_write_outcome(self, outcome: Result<(), DownloadError>) -> (next: Step)
        ensures
            next@ == if self@.phase == Phase::AwaitingWrite {
                self@.finished(
                    Seq::empty(),
                    match outcome {
                        Ok(()) => Ok(()),
                        Err(e) => Err(e@),
                    },
                )
            } else {
                self@.rejected()
            },
    {
        proof {
            use_type_invariant(&self);
        }
        if self.phase != Phase::AwaitingWrite {
            return self.reject();
        }
        let report: Vec<Line> = Vec::new();
        assert(lines_view(report@) =~= Seq::empty());
        self.end(report, outcome)
    }

    /// Answers an event: the next state, the lines to print, and the next
    /// action. An event that does not belong to the phase (a body before
    /// any response, anything after the end, a status that is none) is
    /// rejected and changes nothing.
    pub fn step(self, event: Event) -> (next: Step)
        ensures
            next@ == self@.step(event@),
            next.state@.wf(),
    {
        proof {
            use_type_invariant(&self);
        }
        let next = match event {
            Event::Response(head) => self.on_response(head),
            Event::TransportFailure(cause) => self.on_transport_failure(cause),
            Event::Body(body) => self.on_body(body),
            Event::Written => self.on_write_outcome(Ok(())),
            Event::WriteFailure(cause) => self.on_write_outcome(
                Err(DownloadError::IoError(cause)),
            ),
        };
        proof {
            use_type_invariant(&next.state);
        }
        next
    }
}

/// The machine keeps its state well formed, whatever it is told.
pub proof fn lemma_step_keeps_wf(state: DownloadView, event: EventView)
    requires
        state.wf(),
    ensures
        state.step(event).state.wf(),
{
}

/// Every download begins well formed.
pub proof fn lemma_begin_is_wf(request: RequestView, parsed: Result<Seq<char>, url::ParseError>)
    ensures
        begin_of(request, parsed).state.wf(),
{
}

/// A target that is no URL ends the download at once, with `InvalidUrl`:
/// no request is asked for, and none will be.
pub proof fn lemma_invalid_target_sends_nothing(
    request: RequestView,
    reason: url::ParseError,
    event: EventView,
)
    ensures
        begin_of(request, Err(reason)).action == ActionView::Finish(
            Err(ErrorView::InvalidUrl(reason)),
        ),
        begin_of(request, Err(reason)).state.phase == Phase::Finished,
        begin_of(request, Err(reason)).state.step(event) == begin_of(
            request,
            Err(reason),
        ).state.rejected(),
{
}

/// Once a download has ended, every event is rejected: nothing is sent,
/// fetched or written any more.
pub proof fn lemma_finished_is_final(state: DownloadView, event: EventView)
    requires
        state.phase == Phase::Finished,
    ensures
        state.step(event) == state.rejected(),
{
}

/// A file is written only for a response that reported success, and only
/// in answer to its body.
pub proof fn lemma_write_follows_success(state: DownloadView, event: EventView)
    requires
        state.wf(),
        state.step(event).action is Write,
    ensures
        state.phase == Phase::AwaitingBody,
        event is Body,
        state.metadata matches Some(m) && is_success_code(m.status),
{
}

/// A response whose status is outside 200 to 299 ends the download with
/// success and without a file: the status line is all that is reported, and
/// every later event is rejected.
pub proof fn lemma_other_status_writes_nothing(
    state: DownloadView,
    head: HeadView,
    later: EventView,
)
    requires
        state.phase == Phase::AwaitingResponse,
        is_status_code(head.status),
        !is_success_code(head.status),
    ensures
        state.on_response(head).action == ActionView::Finish(Ok(())),
        state.on_response(head).report == seq![
            status_line_of(status_display(head.status), state.request.quiet),
        ],
        state.on_response(head).state.step(later) == state.on_response(head).state.rejected(),
{
}

/// The number of files that the machine asks to write while it is told
/// `events`, one after the other.
pub open spec fn files_written(state: DownloadView, events: Seq<EventView>) -> nat
    decreases events.len(),
{
    if events.len() == 0 {
        0
    } else {
        let next = state.step(events.first());
        let now: nat = if next.action is Write {
            1
        } else {
            0
        };
        now + files_written(next.state, events.drop_first())
    }
}

/// Whatever the machine is told, and in whatever order, it asks for one
/// file at most; once the body has arrived or the download has ended, for
/// none.
pub proof fn lemma_one_file_at_most(state: DownloadView, events: Seq<EventView>)
    ensures
        files_written(state, events) <= 1,
        state.phase == Phase::AwaitingWrite || state.phase == Phase::Finished ==> files_written(
            state,
            events,
        ) == 0,
    decreases events.len(),
{
    if events.len() > 0 {
        lemma_one_file_at_most(state.step(events.first()).state, events.drop_first());
    }
}

/// The body of a response that reported success is written as it came,
/// byte for byte, under the file name of the target.
pub proof fn lemma_body_is_written_whole(state: DownloadView, head: HeadView, body: Seq<u8>)
    requires
        state.phase == Phase::AwaitingResponse,
        is_success_code(head.status),
    ensures
        state.on_response(head).action == ActionView::FetchBody,
        state.on_response(head).state.on_body(body).action == ActionView::Write(
            output_file_of(state.request.target, body),
        ),
{
}

/// Where the server announced `n` bytes and the body has `n` bytes, the
/// `n` bytes of the body are what is written, and a bar of length `n`
/// stands full when it is complete.
pub proof fn lemma_announced_length_is_written(
    state: DownloadView,
    head: HeadView,
    body: Seq<u8>,
    n: u64,
)
    requires
        state.phase == Phase::AwaitingResponse,
        is_success_code(head.status),
        metadata_of(head).content_length == Some(n),
        body.len() == n,
    ensures
        ({
            let written = state.on_response(head).state.on_body(body);
            &&& written.action matches ActionView::Write(file)
            &&& file.data == body
            &&& file.data.len() == n
            &&& written.state.progress matches Some(progress)
            &&& progress.finished
            &&& !state.request.quiet ==> progress.mode == ProgressMode::Bar(n) && progress.position == n
        }),
{
}

/// Where the server announced no length, a presenter that is shown is a
/// spinner, and the body is written with whatever length it has.
pub proof fn lemma_unannounced_length_spins(state: DownloadView, head: HeadView, body: Seq<u8>)
    requires
        state.phase == Phase::AwaitingResponse,
        is_success_code(head.status),
        metadata_of(head).content_length is None,
        !state.request.quiet,
    ensures
        ({
            let fetched = state.on_response(head);
            let written = fetched.state.on_body(body);
            &&& fetched.state.progress matches Some(progress)
            &&& progress.mode == ProgressMode::Spinner
            &&& written.action == ActionView::Write(output_file_of(state.request.target, body))
        }),
{
}

/// The total that a presenter declares is the length that the server
/// announced; a presenter that is shown for an unannounced length is a
/// spinner.
pub proof fn lemma_total_is_announced_length(state: DownloadView)
    requires
        state.wf(),
    ensures
        state.progress matches Some(progress) ==> {
            &&& state.metadata matches Some(metadata)
            &&& progress.total() is Some ==> progress.total() == metadata.content_length
            &&& !state.request.quiet ==> progress.total() == metadata.content_length
            &&& !state.request.quiet && metadata.content_length is None ==> progress.mode
                == ProgressMode::Spinner
        },
{
}

/// In quiet mode the presenter shows nothing, in every state.
pub proof fn lemma_quiet_is_hidden(state: DownloadView)
    requires
        state.wf(),
        state.request.quiet,
    ensures
        state.progress matches Some(progress) ==> !progress.visible(),
{
}

/// Quiet mode leaves the report as it is: the same lines are printed, and
/// each differs from its counterpart in the flag at its end only.
pub proof fn lemma_quiet_keeps_report(head: HeadView, target: Seq<char>)
    ensures
        response_report(head, target, true).len() == response_report(head, target, false).len(),
        forall|i: int|
            0 <= i < response_report(head, target, true).len() ==> (#[trigger] response_report(
                head,
                target,
                true,
            )[i]).drop_last() == response_report(head, target, false)[i].drop_last(),
{
    let quiet = response_report(head, target, true);
    let loud = response_report(head, target, false);
    assert forall|i: int| 0 <= i < quiet.len() implies (#[trigger] quiet[i]).drop_last()
        == loud[i].drop_last() by {
        assert(quiet[i].drop_last() =~= loud[i].drop_last());
    }
}

} // verus!
