//! What holds of every fetch, proved from the definitions of the machine.

use crate::config::{ClientConfigView, REQUEST_TIMEOUT_SECS};
use crate::encoding::{
    data_uri_body, data_uri_of, encodable, lemma_data_uri_round_trip, standard_base64,
    DATA_URI_PREFIX,
};
use crate::error::{
    contains_text, occurs_at, FetchErrorView, HTTP_STATUS_PREFIX, INVALID_PROXY_PREFIX,
    NETWORK_PREFIX,
};
use crate::fetch::{ActionView, EventView, FetcherView, Output, PayloadView, Stage};
use crate::proxy::{effective_proxy, proxy_rejection, resolved, ProxyChoiceView};
use crate::status::{
    canonical_reason, decimal, is_success_code, lemma_status_text_opens_with_code, status_text,
};
use vstd::prelude::*;

verus! {

/// Where a fetch stands, and what it last asked for, after the caller has
/// reported `events` one after the other. An event that the machine does not
/// accept ends the run where it stands.
pub open spec fn run(from: (FetcherView, ActionView), events: Seq<EventView>) -> (
    FetcherView,
    ActionView,
)
    decreases events.len(),
{
    if events.len() == 0 || !from.0.accepts(events[0]) {
        from
    } else {
        run(from.0.react(events[0]), events.skip(1))
    }
}

/// The events of a fetch that meets no failure: the client is built, the
/// response arrives with status `code`, and `body` is read.
pub open spec fn answered(code: u16, body: Seq<u8>) -> Seq<EventView> {
    seq![EventView::ClientReady, EventView::Response(code), EventView::Body(body)]
}

/// The events of a fetch up to the arrival of a response with status `code`.
pub open spec fn responded(code: u16) -> Seq<EventView> {
    seq![EventView::ClientReady, EventView::Response(code)]
}

/// A run of one event takes one step.
pub proof fn lemma_run_one(from: (FetcherView, ActionView), event: EventView)
    requires
        from.0.accepts(event),
    ensures
        run(from, seq![event]) == from.0.react(event),
{
    reveal_with_fuel(run, 2);
    assert(seq![event].skip(1) =~= Seq::empty());
}

/// A run of two events takes two steps, if both are accepted.
pub proof fn lemma_run_two(from: (FetcherView, ActionView), first: EventView, second: EventView)
    requires
        from.0.accepts(first),
        from.0.react(first).0.accepts(second),
    ensures
        run(from, seq![first, second]) == from.0.react(first).0.react(second),
{
    reveal_with_fuel(run, 2);
    assert(seq![first, second].skip(1) =~= seq![second]);
    lemma_run_one(from.0.react(first), second);
}

/// A run of three events takes three steps, if each is accepted.
pub proof fn lemma_run_three(
    from: (FetcherView, ActionView),
    first: EventView,
    second: EventView,
    third: EventView,
)
    requires
        from.0.accepts(first),
        from.0.react(first).0.accepts(second),
        from.0.react(first).0.react(second).0.accepts(third),
    ensures
        run(from, seq![first, second, third]) == from.0.react(first).0.react(second).0.react(
            third,
        ),
{
    reveal_with_fuel(run, 2);
    assert(seq![first, second, third].skip(1) =~= seq![second, third]);
    lemma_run_two(from.0.react(first), second, third);
}

/// A fetch for bytes hands out the body exactly as it arrived: whenever the
/// proxy, if any, is accepted and the response has a success status (200
/// among them), the result is the body, byte for byte.
pub proof fn law_bytes_come_back_unchanged(
    url: Seq<char>,
    proxy: ProxyChoiceView,
    code: u16,
    body: Seq<u8>,
)
    requires
        !(proxy is Rejected),
        is_success_code(code),
    ensures
        run(FetcherView::begin(url, Output::Bytes, proxy), answered(code, body)).1
            == ActionView::Finish(Ok(PayloadView::Bytes(body))),
        run(FetcherView::begin(url, Output::Bytes, proxy), answered(code, body)).0.stage
            == Stage::Finished,
{
    let from = FetcherView::begin(url, Output::Bytes, proxy);
    lemma_run_three(
        from,
        EventView::ClientReady,
        EventView::Response(code),
        EventView::Body(body),
    );
}

/// A fetch for a data URI hands out `data:image/jpeg;base64,` followed by
/// the body in padded standard base64, and the body is found again by
/// decoding what follows the prefix: whenever the proxy, if any, is accepted,
/// the response has a success status (200 among them), and the body is short
/// enough for its base64 text to exist.
pub proof fn law_data_uri_carries_the_body(
    url: Seq<char>,
    proxy: ProxyChoiceView,
    code: u16,
    body: Seq<u8>,
)
    requires
        !(proxy is Rejected),
        is_success_code(code),
        encodable(body.len()),
    ensures
        run(FetcherView::begin(url, Output::DataUri, proxy), answered(code, body)).1
            == ActionView::Finish(Ok(PayloadView::DataUri(data_uri_of(body)))),
        run(FetcherView::begin(url, Output::DataUri, proxy), answered(code, body)).0.stage
            == Stage::Finished,
        data_uri_of(body) == DATA_URI_PREFIX@ + standard_base64(body),
        data_uri_body(data_uri_of(body)) == Some(body),
{
    let from = FetcherView::begin(url, Output::DataUri, proxy);
    lemma_run_three(
        from,
        EventView::ClientReady,
        EventView::Response(code),
        EventView::Body(body),
    );
    lemma_data_uri_round_trip(body);
}

/// No two bodies share a data URI: whoever holds the URI holds the body.
pub proof fn law_data_uri_names_one_body(first: Seq<u8>, second: Seq<u8>)
    requires
        data_uri_of(first) == data_uri_of(second),
    ensures
        first == second,
{
    lemma_data_uri_round_trip(first);
    lemma_data_uri_round_trip(second);
}

/// A status outside 200..=299 fails the fetch, whichever form of output was
/// asked for: the result is `HttpStatusError` with that code, the body is
/// never asked for, and the message holds the status: its code in decimal,
/// right after the opening words, and its full text.
pub proof fn law_failure_status_fails(
    url: Seq<char>,
    proxy: ProxyChoiceView,
    output: Output,
    code: u16,
)
    requires
        !(proxy is Rejected),
        !is_success_code(code),
    ensures
        run(FetcherView::begin(url, output, proxy), responded(code)).1 == ActionView::Finish(
            Err(FetchErrorView::HttpStatusError(code)),
        ),
        run(FetcherView::begin(url, output, proxy), responded(code)).0.stage == Stage::Finished,
        FetchErrorView::HttpStatusError(code).message() == HTTP_STATUS_PREFIX@ + status_text(code),
        contains_text(FetchErrorView::HttpStatusError(code).message(), decimal(code as nat)),
        contains_text(FetchErrorView::HttpStatusError(code).message(), status_text(code)),
{
    let from = FetcherView::begin(url, output, proxy);
    lemma_run_two(from, EventView::ClientReady, EventView::Response(code));
    let message = FetchErrorView::HttpStatusError(code).message();
    let at: int = HTTP_STATUS_PREFIX@.len() as int;
    lemma_status_text_opens_with_code(code, canonical_reason(code));
    let digits = decimal(code as nat);
    assert(message.subrange(at, at + digits.len()) =~= status_text(code).subrange(
        0,
        digits.len() as int,
    ));
    assert(occurs_at(message, digits, at));
    assert(message.subrange(at, at + status_text(code).len()) =~= status_text(code));
    assert(occurs_at(message, status_text(code), at));
}

/// An absent proxy address and an empty one begin the same fetch: the same
/// state, and the order to build a client without any proxy.
pub proof fn law_empty_proxy_is_no_proxy(url: Seq<char>, output: Output)
    ensures
        FetcherView::start(url, None, output) == FetcherView::start(
            url,
            Some(Seq::<char>::empty()),
            output,
        ),
        FetcherView::start(url, None, output).1 == ActionView::BuildClient(
            ClientConfigView::standard(None),
        ),
{
}

/// A proxy address that is refused ends the fetch at once. The first and only
/// action is the failure `InvalidProxy` with the reason of the refusal, and
/// its message opens with the words for a proxy that could not be created.
/// Since a finished fetch accepts nothing, no client is built and no request
/// is sent, whatever the caller reports afterwards.
pub proof fn law_refused_proxy_ends_the_fetch(
    url: Seq<char>,
    address: Seq<char>,
    output: Output,
    events: Seq<EventView>,
)
    ensures
        address.len() > 0 && proxy_rejection(address) is Some ==> {
            let reason = proxy_rejection(address).unwrap();
            let started = FetcherView::start(url, Some(address), output);
            &&& started.0 == FetcherView { url, output, stage: Stage::Finished }
            &&& started.1 == ActionView::Finish(Err(FetchErrorView::InvalidProxy(reason)))
            &&& run(started, events) == started
            &&& FetchErrorView::InvalidProxy(reason).message() == INVALID_PROXY_PREFIX@ + reason
            &&& occurs_at(FetchErrorView::InvalidProxy(reason).message(), INVALID_PROXY_PREFIX@, 0)
        },
{
    if address.len() > 0 && proxy_rejection(address) is Some {
        let message = FetchErrorView::InvalidProxy(proxy_rejection(address).unwrap()).message();
        assert(message.subrange(0, INVALID_PROXY_PREFIX@.len() as int) =~= INVALID_PROXY_PREFIX@);
    }
}

/// Which proxy addresses are refused: the non-empty ones that the check of
/// the address turns down, with the reason that the check gave. Every other
/// address is used as given, and an absent or empty one means no proxy.
pub proof fn law_proxy_is_decided_by_its_check(proxy_url: Option<Seq<char>>)
    ensures
        match effective_proxy(proxy_url) {
            None => resolved(proxy_url) == ProxyChoiceView::Direct,
            Some(address) => match proxy_rejection(address) {
                None => resolved(proxy_url) == ProxyChoiceView::Via(address),
                Some(reason) => resolved(proxy_url) == ProxyChoiceView::Rejected(reason),
            },
        },
{
}

/// A request that gets no response fails the fetch with `NetworkError`, whose
/// message opens with the words for a failed request and then gives the
/// client's own detail. The client that sent it was told to give up after
/// thirty seconds.
pub proof fn law_unanswered_request_fails(
    url: Seq<char>,
    proxy: ProxyChoiceView,
    output: Output,
    detail: Seq<char>,
)
    requires
        !(proxy is Rejected),
    ensures
        run(
            FetcherView::begin(url, output, proxy),
            seq![EventView::ClientReady, EventView::RequestFailed(detail)],
        ).1 == ActionView::Finish(Err(FetchErrorView::NetworkError(detail))),
        FetchErrorView::NetworkError(detail).message() == NETWORK_PREFIX@ + detail,
        FetcherView::begin(url, output, proxy).1 is BuildClient,
        FetcherView::begin(url, output, proxy).1->BuildClient_0.timeout_secs
            == REQUEST_TIMEOUT_SECS,
{
    let from = FetcherView::begin(url, output, proxy);
    lemma_run_two(from, EventView::ClientReady, EventView::RequestFailed(detail));
}

/// The two forms of output are one fetch up to its last step. They begin
/// alike, wait for the same events, and answer every event alike, except the
/// body that was read: that one alone is handed out in two forms.
pub proof fn law_outputs_differ_only_in_encoding(
    url: Seq<char>,
    proxy: ProxyChoiceView,
    stage: Stage,
    event: EventView,
)
    ensures
        FetcherView::begin(url, Output::DataUri, proxy).1 == FetcherView::begin(
            url,
            Output::Bytes,
            proxy,
        ).1,
        FetcherView::begin(url, Output::DataUri, proxy).0.stage == FetcherView::begin(
            url,
            Output::Bytes,
            proxy,
        ).0.stage,
        (FetcherView { url, output: Output::DataUri, stage }).awaits(event) == (FetcherView {
            url,
            output: Output::Bytes,
            stage,
        }).awaits(event),
        !(event is Body) ==> (FetcherView { url, output: Output::DataUri, stage }).accepts(event)
            == (FetcherView { url, output: Output::Bytes, stage }).accepts(event),
        (FetcherView { url, output: Output::DataUri, stage }).react(event).0.stage == (FetcherView {
            url,
            output: Output::Bytes,
            stage,
        }).react(event).0.stage,
        !(event is Body) ==> (FetcherView { url, output: Output::DataUri, stage }).react(event).1
            == (FetcherView { url, output: Output::Bytes, stage }).react(event).1,
{
}

/// The place of a stage in the course of a fetch.
pub open spec fn stage_rank(stage: Stage) -> nat {
    match stage {
        Stage::AwaitClient => 0,
        Stage::AwaitResponse => 1,
        Stage::AwaitBody => 2,
        Stage::Finished => 3,
    }
}

/// Every step moves a fetch forward, and it is over exactly when the machine
/// says `Finish`: so a fetch takes three events at most, and nothing is
/// tried twice.
pub proof fn law_every_step_moves_forward(state: FetcherView, event: EventView)
    requires
        state.accepts(event),
    ensures
        stage_rank(state.react(event).0.stage) > stage_rank(state.stage),
        state.react(event).1 is Finish <==> state.react(event).0.stage == Stage::Finished,
        state.react(event).0.url == state.url,
        state.react(event).0.output == state.output,
{
}

} // verus!
