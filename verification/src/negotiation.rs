//! Opening a stream, step by step.
//!
//! Opening talks to the audio platform, which this library does not do itself.  A
//! `Negotiation` holds every decision instead: it names the one thing the caller has to
//! ask of the platform next (`Request`), takes the platform's answer (`Response`) and
//! moves on.  The caller performs requests until the negotiation is `Done` or `Failed`.

use vstd::prelude::*;
use crate::config::{OutputStreamConfig, SupportedStreamConfig, SupportedStreamConfigRange};
use crate::error::{
    BuildStreamError,
    DefaultStreamConfigError,
    PlayStreamError,
    StreamError,
    SupportedStreamConfigsError,
};
use crate::output::{init_stream, stream_plan, StreamPlan};
use crate::supported::{attempts, expand_all, fallback_configs};

verus! {

/// How far a negotiation goes to get a stream.
#[derive(Clone, Copy, Debug, PartialEq, Eq, Structural)]
pub enum Strategy {
    /// One attempt with one configuration on one device.
    Once,
    /// The preferred configuration first, then every candidate the device supports.
    Fallback,
    /// One attempt on the host's default device; any failure moves on to `OtherDevices`.
    DefaultDevice,
    /// Every device the host enumerates, each with `Fallback`; a device that fails is
    /// passed over.
    OtherDevices,
}

/// What the caller has to do next.  Requests about a device refer to the current device:
/// the one the negotiation was started for, the default device once the host named it,
/// or the device the host enumerated last.
#[derive(Clone, Copy, Debug, PartialEq, Eq, Structural)]
pub enum Request {
    /// Ask the host for its default output device.
    DefaultDevice,
    /// Ask the current device for its default output configuration.
    DefaultConfig,
    /// Build a stream with this configuration on the current device.
    Build(OutputStreamConfig),
    /// Start the stream that was just built.
    Play,
    /// Ask the current device for the configuration ranges it supports, from the most
    /// preferred to the least.
    SupportedConfigs,
    /// Ask the host to enumerate its output devices.
    Devices,
    /// Take the next enumerated device as the current device.
    NextDevice,
    /// The stream that was started last is the result.
    Done,
    /// No stream could be opened.
    Failed,
}

/// The platform's answer to a request.
#[derive(Debug)]
pub enum Response {
    /// Whether the host has a default output device.
    DefaultDevice(bool),
    /// The default output configuration of the current device.
    DefaultConfig(Result<SupportedStreamConfig, DefaultStreamConfigError>),
    /// Whether the stream was built.
    Built(Result<(), BuildStreamError>),
    /// Whether the stream started.
    Played(Result<(), PlayStreamError>),
    /// The ranges the current device supports, from the most preferred to the least.
    SupportedConfigs(Result<Vec<SupportedStreamConfigRange>, SupportedStreamConfigsError>),
    /// Whether the host could enumerate its output devices.
    Devices(bool),
    /// Whether the enumeration had another device.
    NextDevice(bool),
}

/// How a pending `Build` request is served.
#[derive(Debug)]
pub enum BuildStep {
    /// Ask the current device to build a stream after this plan, and answer with what it
    /// says.
    Ask(StreamPlan),
    /// Answer with this response; the device is not asked.
    Answer(Response),
}

/// How a request to build a stream with `config` is served: with the plan for the
/// device, or, where the sample format has no render callback, with the answer that the
/// configuration is not supported.
pub open spec fn build_step(config: OutputStreamConfig) -> BuildStep {
    match stream_plan(config) {
        Ok(plan) => BuildStep::Ask(plan),
        Err(err) => BuildStep::Answer(Response::Built(Err(err))),
    }
}

/// Whether `response` is an answer to `request`.
pub open spec fn answers(request: Request, response: Response) -> bool {
    match (request, response) {
        (Request::DefaultDevice, Response::DefaultDevice(_)) => true,
        (Request::DefaultConfig, Response::DefaultConfig(_)) => true,
        (Request::Build(_), Response::Built(_)) => true,
        (Request::Play, Response::Played(_)) => true,
        (Request::SupportedConfigs, Response::SupportedConfigs(_)) => true,
        (Request::Devices, Response::Devices(_)) => true,
        (Request::NextDevice, Response::NextDevice(_)) => true,
        _ => false,
    }
}

/// One failed attempt to open a stream: it was not built, or it was built and did not
/// start.
pub enum AttemptFailure {
    Build(BuildStreamError),
    Play(PlayStreamError),
}

impl AttemptFailure {
    /// The error this failure is reported as.
    pub open spec fn error(self) -> StreamError {
        match self {
            AttemptFailure::Build(err) => StreamError::BuildStreamError(err),
            AttemptFailure::Play(err) => StreamError::PlayStreamError(err),
        }
    }
}

/// What a `Negotiation` holds.
pub struct NegotiationView {
    pub strategy: Strategy,
    /// The request the caller has to perform next.
    pub request: Request,
    /// The error the negotiation ends with if nothing succeeds from here on.
    pub error: Option<StreamError>,
    /// The fallback configurations of the current device, in the order they are tried.
    pub candidates: Seq<OutputStreamConfig>,
    /// Whether the attempt in progress is for one of the candidates.
    pub on_candidate: bool,
    /// The index of that candidate.
    pub cursor: int,
}

impl NegotiationView {
    /// The state in which a negotiation for `config` begins.
    pub open spec fn begin(strategy: Strategy, config: OutputStreamConfig) -> NegotiationView {
        NegotiationView {
            strategy,
            request: Request::Build(config),
            error: None,
            candidates: Seq::empty(),
            on_candidate: false,
            cursor: 0,
        }
    }

    /// The state in which a negotiation for the host's default device begins.
    pub open spec fn begin_default() -> NegotiationView {
        NegotiationView {
            strategy: Strategy::DefaultDevice,
            request: Request::DefaultDevice,
            error: None,
            candidates: Seq::empty(),
            on_candidate: false,
            cursor: 0,
        }
    }

    /// Whether the negotiation has ended.
    pub open spec fn finished(self) -> bool {
        self.request == Request::Done || self.request == Request::Failed
    }

    /// The result of a negotiation that has ended.
    pub open spec fn outcome(self) -> Option<Result<(), StreamError>> {
        match self.request {
            Request::Done => Some(Ok(())),
            Request::Failed => Some(
                Err(
                    match self.error {
                        Some(err) => err,
                        None => StreamError::NoDevice,
                    },
                ),
            ),
            _ => None,
        }
    }

    /// How the pending request is served, if it is a request to build a stream.
    pub open spec fn build_plan(self) -> Option<BuildStep> {
        match self.request {
            Request::Build(config) => Some(build_step(config)),
            _ => None,
        }
    }

    /// The same negotiation waiting for `request`.
    pub open spec fn awaiting(self, request: Request) -> NegotiationView {
        NegotiationView { request, ..self }
    }

    /// The negotiation ended with `err`.
    pub open spec fn fail(self, err: StreamError) -> NegotiationView {
        NegotiationView { request: Request::Failed, error: Some(err), ..self }
    }

    /// The current device has nothing left to try.
    pub open spec fn exhausted(self) -> NegotiationView {
        match self.strategy {
            Strategy::OtherDevices => NegotiationView {
                request: Request::NextDevice,
                on_candidate: false,
                ..self
            },
            _ => self.awaiting(Request::Failed),
        }
    }

    /// Candidate `index` is tried next, if there is one.
    pub open spec fn try_candidate(self, index: int) -> NegotiationView {
        if 0 <= index < self.candidates.len() {
            NegotiationView {
                request: Request::Build(self.candidates[index]),
                on_candidate: true,
                cursor: index,
                ..self
            }
        } else {
            self.exhausted()
        }
    }

    /// The attempt in progress failed with `err`.
    pub open spec fn attempt_failed(self, err: StreamError) -> NegotiationView {
        match self.strategy {
            Strategy::Once => self.fail(err),
            Strategy::DefaultDevice => NegotiationView {
                strategy: Strategy::OtherDevices,
                request: Request::Devices,
                error: Some(err),
                on_candidate: false,
                ..self
            },
            Strategy::Fallback => if self.on_candidate {
                self.try_candidate(self.cursor + 1)
            } else {
                NegotiationView { request: Request::SupportedConfigs, error: Some(err), ..self }
            },
            Strategy::OtherDevices => if self.on_candidate {
                self.try_candidate(self.cursor + 1)
            } else {
                self.awaiting(Request::SupportedConfigs)
            },
        }
    }

    /// The current device did not report a default configuration.
    pub open spec fn config_unavailable(self, err: DefaultStreamConfigError) -> NegotiationView {
        match self.strategy {
            Strategy::OtherDevices => self.awaiting(Request::NextDevice),
            _ => self.attempt_failed(StreamError::DefaultStreamConfigError(err)),
        }
    }

    /// The current device did not list what it supports.
    pub open spec fn candidates_unavailable(self, err: SupportedStreamConfigsError) -> NegotiationView {
        match self.strategy {
            Strategy::OtherDevices => self.awaiting(Request::NextDevice),
            _ => self.fail(StreamError::SupportedStreamConfigsError(err)),
        }
    }

    /// The negotiation after `response`.  A response that does not answer the pending
    /// request changes nothing.
    pub open spec fn step(self, response: Response) -> NegotiationView {
        if !answers(self.request, response) {
            self
        } else {
            match response {
                Response::DefaultDevice(found) => if found {
                    self.awaiting(Request::DefaultConfig)
                } else {
                    self.attempt_failed(StreamError::NoDevice)
                },
                Response::DefaultConfig(Ok(supported)) => NegotiationView {
                    request: Request::Build(OutputStreamConfig::of_supported(supported@)),
                    on_candidate: false,
                    ..self
                },
                Response::DefaultConfig(Err(err)) => self.config_unavailable(err),
                Response::Built(Ok(_)) => self.awaiting(Request::Play),
                Response::Built(Err(err)) => self.attempt_failed(StreamError::BuildStreamError(err)),
                Response::Played(Ok(_)) => self.awaiting(Request::Done),
                Response::Played(Err(err)) => self.attempt_failed(StreamError::PlayStreamError(err)),
                Response::SupportedConfigs(Ok(ranges)) => NegotiationView {
                    candidates: attempts(expand_all(ranges@)),
                    ..self
                }.try_candidate(0),
                Response::SupportedConfigs(Err(err)) => self.candidates_unavailable(err),
                Response::Devices(listed) => if listed {
                    self.awaiting(Request::NextDevice)
                } else {
                    self.awaiting(Request::Failed)
                },
                Response::NextDevice(found) => if found {
                    NegotiationView { request: Request::DefaultConfig, on_candidate: false, ..self }
                } else {
                    self.awaiting(Request::Failed)
                },
            }
        }
    }

    /// The negotiation after the attempt in progress failed as `failure` says.
    pub open spec fn after_failure(self, failure: AttemptFailure) -> NegotiationView {
        match failure {
            AttemptFailure::Build(err) => self.step(Response::Built(Err(err))),
            AttemptFailure::Play(err) => self.step(Response::Built(Ok(()))).step(Response::Played(Err(err))),
        }
    }

    /// The negotiation after the responses of a list, one after the other.
    pub open spec fn after_responses(self, responses: Seq<Response>) -> NegotiationView
        decreases responses.len(),
    {
        if responses.len() == 0 {
            self
        } else {
            self.after_responses(responses.drop_last()).step(responses.last())
        }
    }

    /// The negotiation after one attempt after the other failed.
    pub open spec fn after_failures(self, failures: Seq<AttemptFailure>) -> NegotiationView
        decreases failures.len(),
    {
        if failures.len() == 0 {
            self
        } else {
            self.after_failures(failures.drop_last()).after_failure(failures.last())
        }
    }
}

/// The state of opening a stream.
#[derive(Debug)]
pub struct Negotiation {
    strategy: Strategy,
    request: Request,
    error: Option<StreamError>,
    candidates: Vec<OutputStreamConfig>,
    on_candidate: bool,
    cursor: usize,
}

impl View for Negotiation {
    type V = NegotiationView;

    closed spec fn view(&self) -> NegotiationView {
        NegotiationView {
            strategy: self.strategy,
            request: self.request,
            error: self.error,
            candidates: self.candidates@,
            on_candidate: self.on_candidate,
            cursor: self.cursor as int,
        }
    }
}

impl Negotiation {
    /// Begins a negotiation for `config` on a device.
    pub fn begin(strategy: Strategy, config: OutputStreamConfig) -> (r: Negotiation)
        ensures
            r@ == NegotiationView::begin(strategy, config),
    {
        let r = Negotiation {
            strategy,
            request: Request::Build(config),
            error: None,
            candidates: Vec::new(),
            on_candidate: false,
            cursor: 0,
        };
        assert(r@.candidates =~= Seq::empty());
        r
    }

    /// Begins a negotiation for the host's default device.
    pub fn begin_default() -> (r: Negotiation)
        ensures
            r@ == NegotiationView::begin_default(),
    {
        let r = Negotiation {
            strategy: Strategy::DefaultDevice,
            request: Request::DefaultDevice,
            error: None,
            candidates: Vec::new(),
            on_candidate: false,
            cursor: 0,
        };
        assert(r@.candidates =~= Seq::empty());
        r
    }

    /// What the caller has to do next.
    pub fn request(&self) -> (r: Request)
        ensures
            r == self@.request,
    {
        self.request
    }

    /// Whether the negotiation has ended.
    pub fn is_finished(&self) -> (r: bool)
        ensures
            r == self@.finished(),
    {
        match self.request {
            Request::Done => true,
            Request::Failed => true,
            _ => false,
        }
    }

    /// Whether `response` answers the pending request.
    pub fn accepts(&self, response: &Response) -> (r: bool)
        ensures
            r == answers(self@.request, *response),
    {
        match (self.request, response) {
            (Request::DefaultDevice, Response::DefaultDevice(_)) => true,
            (Request::DefaultConfig, Response::DefaultConfig(_)) => true,
            (Request::Build(_), Response::Built(_)) => true,
            (Request::Play, Response::Played(_)) => true,
            (Request::SupportedConfigs, Response::SupportedConfigs(_)) => true,
            (Request::Devices, Response::Devices(_)) => true,
            (Request::NextDevice, Response::NextDevice(_)) => true,
            _ => false,
        }
    }

    /// How the pending request to build a stream is served: a configuration whose sample
    /// format has no render callback is answered here, with `StreamConfigNotSupported`,
    /// and the device is asked for every other.  `None` when no `Build` is pending.
    pub fn build_plan(&self) -> (r: Option<BuildStep>)
        ensures
            r == self@.build_plan(),
            r is Some <==> self@.request is Build,
            r matches Some(BuildStep::Answer(response)) ==> answers(self@.request, response),
    {
        match self.request {
            Request::Build(config) => match init_stream(&config) {
                Ok(plan) => Some(BuildStep::Ask(plan)),
                Err(err) => Some(BuildStep::Answer(Response::Built(Err(err)))),
            },
            _ => None,
        }
    }

    /// The result, once the negotiation has ended: `Ok` when a stream plays, the error to
    /// report when none could be opened.  `None` while a request is pending.
    pub fn into_result(self) -> (r: Option<Result<(), StreamError>>)
        ensures
            r == self@.outcome(),
    {
        match self.request {
            Request::Done => Some(Ok(())),
            Request::Failed => Some(
                Err(
                    match self.error {
                        Some(err) => err,
                        None => StreamError::NoDevice,
                    },
                ),
            ),
            _ => None,
        }
    }

    fn awaiting(self, request: Request) -> (r: Negotiation)
        ensures
            r@ == self@.awaiting(request),
    {
        Negotiation { request, ..self }
    }

    fn fail(self, err: StreamError) -> (r: Negotiation)
        ensures
            r@ == self@.fail(err),
    {
        Negotiation { request: Request::Failed, error: Some(err), ..self }
    }

    fn exhausted(self) -> (r: Negotiation)
        ensures
            r@ == self@.exhausted(),
    {
        match self.strategy {
            Strategy::OtherDevices => Negotiation {
                request: Request::NextDevice,
                on_candidate: false,
                ..self
            },
            _ => self.awaiting(Request::Failed),
        }
    }

    fn try_candidate(self, index: usize) -> (r: Negotiation)
        ensures
            r@ == self@.try_candidate(index as int),
    {
        if index < self.candidates.len() {
            let config = self.candidates[index];
            Negotiation { request: Request::Build(config), on_candidate: true, cursor: index, ..self }
        } else {
            self.exhausted()
        }
    }

    fn try_next_candidate(self) -> (r: Negotiation)
        ensures
            r@ == self@.try_candidate(self@.cursor + 1),
    {
        if self.cursor < self.candidates.len() {
            let index: usize = self.cursor + 1;
            self.try_candidate(index)
        } else {
            self.exhausted()
        }
    }

    fn attempt_failed(self, err: StreamError) -> (r: Negotiation)
        ensures
            r@ == self@.attempt_failed(err),
    {
        match self.strategy {
            Strategy::Once => self.fail(err),
            Strategy::DefaultDevice => Negotiation {
                strategy: Strategy::OtherDevices,
                request: Request::Devices,
                error: Some(err),
                on_candidate: false,
                ..self
            },
            Strategy::Fallback => if self.on_candidate {
                self.try_next_candidate()
            } else {
                Negotiation { request: Request::SupportedConfigs, error: Some(err), ..self }
            },
            Strategy::OtherDevices => if self.on_candidate {
                self.try_next_candidate()
            } else {
                self.awaiting(Request::SupportedConfigs)
            },
        }
    }

    fn config_unavailable(self, err: DefaultStreamConfigError) -> (r: Negotiation)
        ensures
            r@ == self@.config_unavailable(err),
    {
        match self.strategy {
            Strategy::OtherDevices => self.awaiting(Request::NextDevice),
            _ => self.attempt_failed(StreamError::DefaultStreamConfigError(err)),
        }
    }

    fn candidates_unavailable(self, err: SupportedStreamConfigsError) -> (r: Negotiation)
        ensures
            r@ == self@.candidates_unavailable(err),
    {
        match self.strategy {
            Strategy::OtherDevices => self.awaiting(Request::NextDevice),
            _ => self.fail(StreamError::SupportedStreamConfigsError(err)),
        }
    }

    /// Takes the platform's answer to the pending request and decides what comes next.
    /// A response that does not answer the pending request changes nothing.
    pub fn advance(self, response: Response) -> (r: Negotiation)
        ensures
            r@ == self@.step(response),
    {
        if !self.accepts(&response) {
            return self;
        }
        match response {
            Response::DefaultDevice(found) => if found {
                self.awaiting(Request::DefaultConfig)
            } else {
                self.attempt_failed(StreamError::NoDevice)
            },
            Response::DefaultConfig(Ok(supported)) => Negotiation {
                request: Request::Build(OutputStreamConfig::from_supported(&supported)),
                on_candidate: false,
                ..self
            },
            Response::DefaultConfig(Err(err)) => self.config_unavailable(err),
            Response::Built(Ok(_)) => self.awaiting(Request::Play),
            Response::Built(Err(err)) => self.attempt_failed(StreamError::BuildStreamError(err)),
            Response::Played(Ok(_)) => self.awaiting(Request::Done),
            Response::Played(Err(err)) => self.attempt_failed(StreamError::PlayStreamError(err)),
            Response::SupportedConfigs(Ok(ranges)) => {
                let candidates = fallback_configs(&ranges);
                let listed = Negotiation { candidates, ..self };
                listed.try_candidate(0)
            },
            Response::SupportedConfigs(Err(err)) => self.candidates_unavailable(err),
            Response::Devices(listed) => if listed {
                self.awaiting(Request::NextDevice)
            } else {
                self.awaiting(Request::Failed)
            },
            Response::NextDevice(found) => if found {
                Negotiation { request: Request::DefaultConfig, on_candidate: false, ..self }
            } else {
                self.awaiting(Request::Failed)
            },
        }
    }
}

impl NegotiationView {
    /// What every negotiation keeps true from its beginning: an error is on record
    /// whenever one may have to be reported, and the attempt for a candidate is for the
    /// candidate under the cursor.
    pub open spec fn consistent(self) -> bool {
        &&& self.request == Request::Failed ==> self.error is Some
        &&& self.strategy == Strategy::OtherDevices ==> self.error is Some
        &&& self.strategy == Strategy::Fallback && (self.on_candidate || self.request
            == Request::SupportedConfigs) ==> self.error is Some
        &&& self.on_candidate && self.request is Build ==> 0 <= self.cursor < self.candidates.len()
            && self.request == Request::Build(self.candidates[self.cursor])
        &&& self.on_candidate && self.request == Request::Play ==> 0 <= self.cursor
            < self.candidates.len()
        &&& self.strategy == Strategy::Once || self.strategy == Strategy::DefaultDevice
            ==> !self.on_candidate
        &&& self.strategy == Strategy::Once || self.strategy == Strategy::Fallback ==> self.request
            != Request::DefaultDevice && self.request != Request::DefaultConfig && self.request
            != Request::Devices && self.request != Request::NextDevice
        &&& self.strategy == Strategy::Once || self.strategy == Strategy::DefaultDevice
            ==> self.request != Request::SupportedConfigs
        &&& self.strategy == Strategy::DefaultDevice ==> self.request != Request::Devices
            && self.request != Request::NextDevice
    }
}

/// A negotiation is consistent when it begins and stays so with every response.
pub proof fn lemma_consistent(s: NegotiationView, config: OutputStreamConfig, strategy: Strategy, response: Response)
    ensures
        strategy == Strategy::Once || strategy == Strategy::Fallback ==> NegotiationView::begin(
            strategy,
            config,
        ).consistent(),
        NegotiationView::begin_default().consistent(),
        s.consistent() ==> s.step(response).consistent(),
{
}

/// A consistent negotiation that failed reports the error it has on record, and a
/// negotiation that has ended takes no further response.
pub proof fn lemma_finished_is_final(s: NegotiationView, response: Response)
    requires
        s.finished(),
    ensures
        s.step(response) == s,
        s.consistent() && s.request == Request::Failed ==> s.outcome() == Some(
            Err::<(), StreamError>(s.error->0),
        ),
        s.request == Request::Done ==> s.outcome() == Some(Ok::<(), StreamError>(())),
{
}

/// `open_stream` makes one attempt.  A stream that is built and starts is the result; a
/// failure to build or to start ends the negotiation with that error.
pub proof fn lemma_single_attempt(config: OutputStreamConfig, failure: AttemptFailure)
    ensures
        ({
            let begun = NegotiationView::begin(Strategy::Once, config);
            &&& begun.request == Request::Build(config)
            &&& begun.step(Response::Built(Ok(()))).request == Request::Play
            &&& begun.step(Response::Built(Ok(()))).step(Response::Played(Ok(()))).outcome() == Some(
                Ok::<(), StreamError>(()),
            )
            &&& begun.after_failure(failure).outcome() == Some(Err::<(), StreamError>(failure.error()))
        }),
{
}

/// A sample format without a render callback is rejected before the device is asked.
/// The request to build such a configuration is served with the answer
/// `StreamConfigNotSupported`; taken by a one-attempt negotiation, that answer ends it
/// with this error.  Every other configuration is served with the plan for the device.
pub proof fn lemma_format_without_callback_is_rejected(config: OutputStreamConfig)
    ensures
        ({
            let begun = NegotiationView::begin(Strategy::Once, config);
            let rejected = Response::Built(Err(BuildStreamError::StreamConfigNotSupported));
            &&& config.sample_format.renderable() ==> begun.build_plan() == Some(
                BuildStep::Ask(
                    StreamPlan {
                        config: config.device_config(),
                        native: config.sample_format.native_type()->0,
                    },
                ),
            )
            &&& !config.sample_format.renderable() ==> begun.build_plan() == Some(
                BuildStep::Answer(rejected),
            )
            &&& begun.step(rejected).outcome() == Some(
                Err::<(), StreamError>(
                    StreamError::BuildStreamError(BuildStreamError::StreamConfigNotSupported),
                ),
            )
        }),
{
}

/// The first success wins: as soon as a stream starts, the negotiation is done, whatever
/// the strategy and however many attempts failed before.
pub proof fn lemma_first_success_wins(s: NegotiationView)
    requires
        s.request == Request::Play,
    ensures
        s.step(Response::Played(Ok(()))).request == Request::Done,
        s.step(Response::Played(Ok(()))).outcome() == Some(Ok::<(), StreamError>(())),
{
}

/// Candidates are tried in the order of the list.  While the attempt for candidate
/// `cursor` is pending and `n` attempts fail one after the other, the next request is to
/// build candidate `cursor + n`; when the last candidate has failed, the device has
/// nothing left to try.  The error on record does not change on the way.
pub proof fn lemma_candidates_in_order(s: NegotiationView, failures: Seq<AttemptFailure>)
    requires
        s.strategy == Strategy::Fallback || s.strategy == Strategy::OtherDevices,
        s.on_candidate,
        0 <= s.cursor < s.candidates.len(),
        s.request == Request::Build(s.candidates[s.cursor]),
        failures.len() <= s.candidates.len() - s.cursor,
    ensures
        ({
            let t = s.after_failures(failures);
            let next = s.cursor + failures.len();
            &&& t.strategy == s.strategy
            &&& t.error == s.error
            &&& t.candidates == s.candidates
            &&& next < s.candidates.len() ==> t.request == Request::Build(s.candidates[next])
                && t.on_candidate && t.cursor == next
            &&& next == s.candidates.len() ==> t.request == (if s.strategy == Strategy::Fallback {
                Request::Failed
            } else {
                Request::NextDevice
            })
        }),
    decreases failures.len(),
{
    if failures.len() > 0 {
        lemma_candidates_in_order(s, failures.drop_last());
    }
}

/// The order of `try_open_stream`.  The first attempt uses the caller's configuration.
/// When it fails, the device is asked what it supports; the candidates of that answer
/// are then tried in their order, and after `n` failed candidates the next request is to
/// build candidate `n`.  When every candidate has failed, the negotiation fails with the
/// error of the first attempt.
pub proof fn lemma_fallback_order(
    config: OutputStreamConfig,
    first: AttemptFailure,
    ranges: Vec<SupportedStreamConfigRange>,
    failures: Seq<AttemptFailure>,
)
    requires
        failures.len() <= attempts(expand_all(ranges@)).len(),
    ensures
        ({
            let begun = NegotiationView::begin(Strategy::Fallback, config);
            let asked = begun.after_failure(first);
            let listed = asked.step(Response::SupportedConfigs(Ok(ranges)));
            let last = listed.after_failures(failures);
            let candidates = attempts(expand_all(ranges@));
            &&& begun.request == Request::Build(config)
            &&& asked.request == Request::SupportedConfigs
            &&& failures.len() < candidates.len() ==> last.request == Request::Build(
                candidates[failures.len() as int],
            )
            &&& failures.len() == candidates.len() ==> last.outcome() == Some(
                Err::<(), StreamError>(first.error()),
            )
        }),
{
    let begun = NegotiationView::begin(Strategy::Fallback, config);
    let asked = begun.after_failure(first);
    let listed = asked.step(Response::SupportedConfigs(Ok(ranges)));
    let candidates = attempts(expand_all(ranges@));
    assert(asked.request == Request::SupportedConfigs && asked.error == Some(first.error()));
    if candidates.len() > 0 {
        lemma_candidates_in_order(listed, failures);
    } else {
        assert(failures.len() == 0);
    }
}

/// When the device cannot list what it supports, `try_open_stream` fails with that
/// error, not with the error of the first attempt.
pub proof fn lemma_listing_error_escapes(
    config: OutputStreamConfig,
    first: AttemptFailure,
    err: SupportedStreamConfigsError,
)
    ensures
        NegotiationView::begin(Strategy::Fallback, config).after_failure(first).step(
            Response::SupportedConfigs(Err(err)),
        ).outcome() == Some(Err::<(), StreamError>(StreamError::SupportedStreamConfigsError(err))),
{
}

/// The ways in which the default device fails.  Whether the host has no default device,
/// the device reports no default configuration, or the one attempt on it fails: the
/// error is put on record and the host is asked for its other devices.
pub proof fn lemma_default_device_failure(
    supported: SupportedStreamConfig,
    err: DefaultStreamConfigError,
    failure: AttemptFailure,
)
    ensures
        ({
            let begun = NegotiationView::begin_default();
            let missing = begun.step(Response::DefaultDevice(false));
            let found = begun.step(Response::DefaultDevice(true));
            let silent = found.step(Response::DefaultConfig(Err(err)));
            let attempt = found.step(Response::DefaultConfig(Ok(supported)));
            let failed = attempt.after_failure(failure);
            &&& begun.request == Request::DefaultDevice
            &&& found.request == Request::DefaultConfig
            &&& attempt.request == Request::Build(OutputStreamConfig::of_supported(supported@))
            &&& missing.request == Request::Devices && missing.strategy == Strategy::OtherDevices
                && missing.error == Some(StreamError::NoDevice)
            &&& silent.request == Request::Devices && silent.strategy == Strategy::OtherDevices
                && silent.error == Some(StreamError::DefaultStreamConfigError(err))
            &&& failed.request == Request::Devices && failed.strategy == Strategy::OtherDevices
                && failed.error == Some(failure.error())
        }),
{
}

/// While the other devices are tried, the error of the default device stays on record
/// whatever they answer; if none of them plays, the negotiation fails with that error.
pub proof fn lemma_default_failure_is_reported(s: NegotiationView, responses: Seq<Response>)
    requires
        s.strategy == Strategy::OtherDevices,
        s.error is Some,
    ensures
        ({
            let last = s.after_responses(responses);
            &&& last.strategy == Strategy::OtherDevices
            &&& last.error == s.error
            &&& last.request == Request::Failed ==> last.outcome() == Some(
                Err::<(), StreamError>(s.error->0),
            )
        }),
    decreases responses.len(),
{
    if responses.len() > 0 {
        lemma_default_failure_is_reported(s, responses.drop_last());
    }
}

} // verus!
