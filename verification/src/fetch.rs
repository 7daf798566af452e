//! One fetch as a state machine. The machine decides; the caller does the
//! work on the network: it performs each [`Action`] and reports what came of
//! it as an [`Event`].
//!
//! A fetch runs in a straight line. The client is built, a GET request is
//! sent, the status of the response is looked at, the body is read and
//! handed out in the form that was asked for. The first failure ends it;
//! nothing is tried twice.

use crate::config::{ClientConfig, ClientConfigView};
use crate::encoding::{data_uri_of, encodable, fits_encoded, try_data_uri};
use crate::error::{FetchError, FetchErrorView};
use crate::proxy::{resolve_proxy, resolved, text_of, ProxyChoice, ProxyChoiceView};
use crate::status::{is_success, is_success_code};
use vstd::prelude::*;

verus! {

/// The form in which the body is handed out.
#[derive(Debug, Clone, Copy, PartialEq, Eq, Structural)]
pub enum Output {
    /// As `data:image/jpeg;base64,<payload>`.
    DataUri,
    /// As the bytes that arrived, unchanged.
    Bytes,
}

/// Where a fetch stands: what the machine waits for.
#[derive(Debug, Clone, Copy, PartialEq, Eq, Structural)]
pub enum Stage {
    /// The client is being built.
    AwaitClient,
    /// The request is on its way.
    AwaitResponse,
    /// The body is being read.
    AwaitBody,
    /// The fetch is over.
    Finished,
}

/// What a fetch hands out when it succeeds.
#[derive(Debug, PartialEq, Eq)]
pub enum Payload {
    DataUri(String),
    Bytes(Vec<u8>),
}

/// A `Payload` as a mathematical value.
pub enum PayloadView {
    DataUri(Seq<char>),
    Bytes(Seq<u8>),
}

impl View for Payload {
    type V = PayloadView;

    open spec fn view(&self) -> PayloadView {
        match *self {
            Payload::DataUri(uri) => PayloadView::DataUri(uri@),
            Payload::Bytes(bytes) => PayloadView::Bytes(bytes@),
        }
    }
}

/// What the caller reports back to the machine.
#[derive(Debug, PartialEq, Eq)]
pub enum Event {
    /// The client was built.
    ClientReady,
    /// The client could not be built; the text says why.
    ClientFailed(String),
    /// The response arrived with this status code.
    Response(u16),
    /// No response arrived; the text says why.
    RequestFailed(String),
    /// The body was read in full.
    Body(Vec<u8>),
    /// The body could not be read to its end; the text says why.
    BodyFailed(String),
}

/// An `Event` as a mathematical value.
pub enum EventView {
    ClientReady,
    ClientFailed(Seq<char>),
    Response(u16),
    RequestFailed(Seq<char>),
    Body(Seq<u8>),
    BodyFailed(Seq<char>),
}

impl View for Event {
    type V = EventView;

    open spec fn view(&self) -> EventView {
        match *self {
            Event::ClientReady => EventView::ClientReady,
            Event::ClientFailed(detail) => EventView::ClientFailed(detail@),
            Event::Response(code) => EventView::Response(code),
            Event::RequestFailed(detail) => EventView::RequestFailed(detail@),
            Event::Body(bytes) => EventView::Body(bytes@),
            Event::BodyFailed(detail) => EventView::BodyFailed(detail@),
        }
    }
}

/// What the machine asks the caller to do next.
#[derive(Debug, PartialEq, Eq)]
pub enum Action {
    /// Build the HTTP client from these settings.
    BuildClient(ClientConfig),
    /// Send a GET request to this URL and wait for the response headers.
    SendGet(String),
    /// Read the whole body of the response into memory.
    ReadBody,
    /// Stop: this is the result of the fetch.
    Finish(Result<Payload, FetchError>),
}

/// An `Action` as a mathematical value.
pub enum ActionView {
    BuildClient(ClientConfigView),
    SendGet(Seq<char>),
    ReadBody,
    Finish(Result<PayloadView, FetchErrorView>),
}

impl View for Action {
    type V = ActionView;

    open spec fn view(&self) -> ActionView {
        match *self {
            Action::BuildClient(config) => ActionView::BuildClient(config@),
            Action::SendGet(url) => ActionView::SendGet(url@),
            Action::ReadBody => ActionView::ReadBody,
            Action::Finish(result) => ActionView::Finish(
                match result {
                    Ok(payload) => Ok(payload@),
                    Err(error) => Err(error@),
                },
            ),
        }
    }
}

/// The state of one fetch.
#[derive(Debug, PartialEq, Eq)]
pub struct Fetcher {
    url: String,
    output: Output,
    stage: Stage,
}

/// A `Fetcher` as a mathematical value.
pub struct FetcherView {
    pub url: Seq<char>,
    pub output: Output,
    pub stage: Stage,
}

impl View for Fetcher {
    type V = FetcherView;

    closed spec fn view(&self) -> FetcherView {
        FetcherView { url: self.url@, output: self.output, stage: self.stage }
    }
}

/// The body in the form that was asked for.
pub open spec fn payload_of(output: Output, body: Seq<u8>) -> PayloadView {
    match output {
        Output::DataUri => PayloadView::DataUri(data_uri_of(body)),
        Output::Bytes => PayloadView::Bytes(body),
    }
}

impl EventView {
    /// Whether the machine can encode what this event carries: a body must
    /// be short enough for its base64 text to exist.
    pub open spec fn fits(self) -> bool {
        self matches EventView::Body(bytes) ==> encodable(bytes.len())
    }
}

impl FetcherView {
    /// This state at another stage.
    pub open spec fn at(self, stage: Stage) -> FetcherView {
        FetcherView { stage, ..self }
    }

    /// How a fetch begins, once the proxy is decided: with the order to
    /// build the client, or, where the proxy address was refused, with the
    /// failure, before anything is built or sent.
    pub open spec fn begin(url: Seq<char>, output: Output, proxy: ProxyChoiceView) -> (
        FetcherView,
        ActionView,
    ) {
        match proxy {
            ProxyChoiceView::Direct => (
                FetcherView { url, output, stage: Stage::AwaitClient },
                ActionView::BuildClient(ClientConfigView::standard(None)),
            ),
            ProxyChoiceView::Via(address) => (
                FetcherView { url, output, stage: Stage::AwaitClient },
                ActionView::BuildClient(ClientConfigView::standard(Some(address))),
            ),
            ProxyChoiceView::Rejected(reason) => (
                FetcherView { url, output, stage: Stage::Finished },
                ActionView::Finish(Err(FetchErrorView::InvalidProxy(reason))),
            ),
        }
    }

    /// How a fetch begins for a proxy address as the caller gave it.
    pub open spec fn start(url: Seq<char>, proxy_url: Option<Seq<char>>, output: Output) -> (
        FetcherView,
        ActionView,
    ) {
        FetcherView::begin(url, output, resolved(proxy_url))
    }

    /// Whether the machine waits for this event. Each stage waits for the
    /// two outcomes of the action that led to it; a finished fetch waits for
    /// nothing.
    pub open spec fn awaits(self, event: EventView) -> bool {
        match self.stage {
            Stage::AwaitClient => event is ClientReady || event is ClientFailed,
            Stage::AwaitResponse => event is Response || event is RequestFailed,
            Stage::AwaitBody => event is Body || event is BodyFailed,
            Stage::Finished => false,
        }
    }

    /// Whether the machine takes this event in: it waits for it, and, where
    /// the event is a body that is to become a data URI, the body is short
    /// enough for its base64 text to exist.
    pub open spec fn accepts(self, event: EventView) -> bool {
        self.awaits(event) && (self.output == Output::DataUri ==> event.fits())
    }

    /// The next state and the next action for an event that the machine
    /// takes in.
    pub open spec fn react(self, event: EventView) -> (FetcherView, ActionView)
        recommends
            self.accepts(event),
    {
        match event {
            EventView::ClientReady => (self.at(Stage::AwaitResponse), ActionView::SendGet(self.url)),
            EventView::ClientFailed(detail) => (
                self.at(Stage::Finished),
                ActionView::Finish(Err(FetchErrorView::ClientBuildFailed(detail))),
            ),
            EventView::Response(code) => if is_success_code(code) {
                (self.at(Stage::AwaitBody), ActionView::ReadBody)
            } else {
                (
                    self.at(Stage::Finished),
                    ActionView::Finish(Err(FetchErrorView::HttpStatusError(code))),
                )
            },
            EventView::RequestFailed(detail) => (
                self.at(Stage::Finished),
                ActionView::Finish(Err(FetchErrorView::NetworkError(detail))),
            ),
            EventView::Body(bytes) => (
                self.at(Stage::Finished),
                ActionView::Finish(Ok(payload_of(self.output, bytes))),
            ),
            EventView::BodyFailed(detail) => (
                self.at(Stage::Finished),
                ActionView::Finish(Err(FetchErrorView::BodyReadError(detail))),
            ),
        }
    }
}

impl Fetcher {
    /// Begins a fetch whose proxy is already decided. Returns the machine
    /// and its first action: build the client, or, for a refused proxy
    /// address, finish with `InvalidProxy`.
    pub fn begin(url: String, output: Output, proxy: ProxyChoice) -> (started: (Fetcher, Action))
        ensures
            (started.0@, started.1@) == FetcherView::begin(url@, output, proxy@),
    {
        match proxy {
            ProxyChoice::Direct => (
                Fetcher { url, output, stage: Stage::AwaitClient },
                Action::BuildClient(ClientConfig::new(None)),
            ),
            ProxyChoice::Via(address) => (
                Fetcher { url, output, stage: Stage::AwaitClient },
                Action::BuildClient(ClientConfig::new(Some(address))),
            ),
            ProxyChoice::Rejected(reason) => (
                Fetcher { url, output, stage: Stage::Finished },
                Action::Finish(Err(FetchError::InvalidProxy(reason))),
            ),
        }
    }

    /// Begins a fetch of `url`. An absent or empty `proxy_url` means a direct
    /// connection; any other is checked at once, and a refused address ends
    /// the fetch before anything is built or sent. The URL itself is not
    /// looked at: it is for the HTTP client to accept or refuse.
    pub fn start(url: String, proxy_url: Option<String>, output: Output) -> (started: (
        Fetcher,
        Action,
    ))
        ensures
            (started.0@, started.1@) == FetcherView::start(url@, text_of(proxy_url), output),
    {
        let proxy = resolve_proxy(proxy_url);
        Fetcher::begin(url, output, proxy)
    }

    /// Begins a fetch that hands the body out as a data URI.
    pub fn fetch_as_data_uri(url: String, proxy_url: Option<String>) -> (started: (Fetcher, Action))
        ensures
            (started.0@, started.1@) == FetcherView::start(
                url@,
                text_of(proxy_url),
                Output::DataUri,
            ),
    {
        Fetcher::start(url, proxy_url, Output::DataUri)
    }

    /// Begins a fetch that hands the body out as bytes.
    pub fn fetch_as_bytes(url: String, proxy_url: Option<String>) -> (started: (Fetcher, Action))
        ensures
            (started.0@, started.1@) == FetcherView::start(url@, text_of(proxy_url), Output::Bytes),
    {
        Fetcher::start(url, proxy_url, Output::Bytes)
    }

    /// Takes in what came of the last action and says what to do next.
    /// Returns `None`, and changes nothing, for an event that the machine
    /// does not accept: one that it does not wait for at this stage, or a
    /// body too long to be encoded.
    pub fn advance(&mut self, event: Event) -> (action: Option<Action>)
        ensures
            old(self)@.accepts(event@) ==> action.is_some() && (final(self)@, action.unwrap()@)
                == old(self)@.react(event@),
            !old(self)@.accepts(event@) ==> action.is_none() && final(self)@ == old(self)@,
    {
        match self.stage {
            Stage::AwaitClient => match event {
                Event::ClientReady => {
                    self.stage = Stage::AwaitResponse;
                    Some(Action::SendGet(self.url.clone()))
                },
                Event::ClientFailed(detail) => {
                    self.stage = Stage::Finished;
                    Some(Action::Finish(Err(FetchError::ClientBuildFailed(detail))))
                },
                _ => None,
            },
            Stage::AwaitResponse => match event {
                Event::Response(code) => {
                    if is_success(code) {
                        self.stage = Stage::AwaitBody;
                        Some(Action::ReadBody)
                    } else {
                        self.stage = Stage::Finished;
                        Some(Action::Finish(Err(FetchError::HttpStatusError(code))))
                    }
                },
                Event::RequestFailed(detail) => {
                    self.stage = Stage::Finished;
                    Some(Action::Finish(Err(FetchError::NetworkError(detail))))
                },
                _ => None,
            },
            Stage::AwaitBody => match event {
                Event::Body(bytes) => match self.output {
                    Output::Bytes => {
                        self.stage = Stage::Finished;
                        Some(Action::Finish(Ok(Payload::Bytes(bytes))))
                    },
                    Output::DataUri => match try_data_uri(bytes.as_slice()) {
                        Some(uri) => {
                            self.stage = Stage::Finished;
                            Some(Action::Finish(Ok(Payload::DataUri(uri))))
                        },
                        None => None,
                    },
                },
                Event::BodyFailed(detail) => {
                    self.stage = Stage::Finished;
                    Some(Action::Finish(Err(FetchError::BodyReadError(detail))))
                },
                _ => None,
            },
            Stage::Finished => None,
        }
    }

    /// Whether `advance` would take this event in.
    pub fn accepts(&self, event: &Event) -> (taken: bool)
        ensures
            taken == self@.accepts(event@),
    {
        match self.stage {
            Stage::AwaitClient => match event {
                Event::ClientReady => true,
                Event::ClientFailed(_) => true,
                _ => false,
            },
            Stage::AwaitResponse => match event {
                Event::Response(_) => true,
                Event::RequestFailed(_) => true,
                _ => false,
            },
            Stage::AwaitBody => match event {
                Event::Body(bytes) => match self.output {
                    Output::Bytes => true,
                    Output::DataUri => fits_encoded(bytes.len()),
                },
                Event::BodyFailed(_) => true,
                _ => false,
            },
            Stage::Finished => false,
        }
    }

    /// What the machine waits for.
    pub fn stage(&self) -> (stage: Stage)
        ensures
            stage == self@.stage,
    {
        self.stage
    }

    /// The form in which the body will be handed out.
    pub fn output(&self) -> (output: Output)
        ensures
            output == self@.output,
    {
        self.output
    }

    /// The URL that is fetched.
    pub fn url(&self) -> (url: &str)
        ensures
            url@ == self@.url,
    {
        self.url.as_str()
    }

    /// Whether the fetch is over.
    pub fn is_finished(&self) -> (finished: bool)
        ensures
            finished == (self@.stage == Stage::Finished),
    {
        match self.stage {
            Stage::Finished => true,
            _ => false,
        }
    }
}

} // verus!
