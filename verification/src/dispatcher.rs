//! One request on one connection, step by step.
//!
//! The dispatcher performs no input or output. It is a state machine: the
//! driver tells it what happened ([`Event`]), and it answers with the state
//! that the exchange is in now and the one thing to do next ([`Action`]).
//! A request for a tunnel runs `Received`, `Resolving`, `Acknowledged`,
//! `Upgrading`, `Relaying`, `Closed`, and ends early in `ResolutionFailed`
//! or `UpgradeFailed`; any other request runs `Received`, `Forwarding`,
//! and ends in `Forwarded` or `ForwardFailed`.

use vstd::prelude::*;
use vstd::string::*;
use crate::address::{first_candidate, select_address, Lookup, SocketAddress};
use crate::request::{
    is_connect,
    is_connect_method,
    parse_authority,
    uri_authority,
    ProxyRequest,
    ProxyRequestView,
};

verus! {

/// Status of the acknowledgment of a tunnel.
pub const STATUS_OK: u16 = 200;

/// Status of the answer to a tunnel request whose target cannot be resolved.
pub const STATUS_BAD_REQUEST: u16 = 400;

/// An outbound response: made here, or the origin's, passed through.
#[derive(Debug, PartialEq, Eq)]
pub enum ProxyResponse<R> {
    Local { status: u16, body: String },
    Upstream(R),
}

/// The mathematical content of a [`ProxyResponse`].
pub enum ProxyResponseView<R> {
    Local { status: u16, body: Seq<char> },
    Upstream(R),
}

impl<R> View for ProxyResponse<R> {
    type V = ProxyResponseView<R>;

    open spec fn view(&self) -> ProxyResponseView<R> {
        match self {
            ProxyResponse::Local { status, body } => ProxyResponseView::Local {
                status: *status,
                body: body@,
            },
            ProxyResponse::Upstream(response) => ProxyResponseView::Upstream(*response),
        }
    }
}

/// Where an exchange stands.
#[derive(Debug, PartialEq, Eq)]
pub enum State<B> {
    /// Nothing has arrived yet.
    Received,
    /// A tunnel was asked for; its authority is being resolved.
    Resolving(ProxyRequest<B>),
    /// The target had no authority, or none that resolves. Terminal.
    ResolutionFailed,
    /// The acknowledgment is on its way to the client.
    Acknowledged { payload: B, address: SocketAddress },
    /// The transport was asked for the raw connection.
    Upgrading { address: SocketAddress },
    /// The transport did not hand the connection over. Terminal.
    UpgradeFailed,
    /// Bytes are relayed between the client and the destination.
    Relaying,
    /// The tunnel is closed. Terminal.
    Closed,
    /// The request is with the origin.
    Forwarding,
    /// The origin's response went back to the client. Terminal.
    Forwarded,
    /// The origin could not be reached. Terminal.
    ForwardFailed,
}

/// The mathematical content of a [`State`].
pub enum StateView<B> {
    Received,
    Resolving(ProxyRequestView<B>),
    ResolutionFailed,
    Acknowledged { payload: B, address: SocketAddress },
    Upgrading { address: SocketAddress },
    UpgradeFailed,
    Relaying,
    Closed,
    Forwarding,
    Forwarded,
    ForwardFailed,
}

impl<B> View for State<B> {
    type V = StateView<B>;

    open spec fn view(&self) -> StateView<B> {
        match self {
            State::Received => StateView::Received,
            State::Resolving(request) => StateView::Resolving(request@),
            State::ResolutionFailed => StateView::ResolutionFailed,
            State::Acknowledged { payload, address } => StateView::Acknowledged {
                payload: *payload,
                address: *address,
            },
            State::Upgrading { address } => StateView::Upgrading { address: *address },
            State::UpgradeFailed => StateView::UpgradeFailed,
            State::Relaying => StateView::Relaying,
            State::Closed => StateView::Closed,
            State::Forwarding => StateView::Forwarding,
            State::Forwarded => StateView::Forwarded,
            State::ForwardFailed => StateView::ForwardFailed,
        }
    }
}

/// What the driver reports.
#[derive(Debug, PartialEq, Eq)]
pub enum Event<B, R, E> {
    /// A request arrived.
    Request(ProxyRequest<B>),
    /// The lookup of the authority ended.
    Resolved(Lookup),
    /// The acknowledgment has been written out to the client in full.
    AcknowledgmentSent,
    /// The transport handed over the raw connection.
    Upgraded,
    /// The transport could not hand over the raw connection.
    UpgradeFailed,
    /// The tunnel ended: both directions are done, or one failed, or the
    /// destination could not be connected to.
    TunnelClosed,
    /// The origin answered.
    UpstreamResponded(R),
    /// The request could not be carried out against the origin.
    UpstreamFailed(E),
}

/// The mathematical content of an [`Event`].
pub enum EventView<B, R, E> {
    Request(ProxyRequestView<B>),
    Resolved(Option<Seq<SocketAddress>>),
    AcknowledgmentSent,
    Upgraded,
    UpgradeFailed,
    TunnelClosed,
    UpstreamResponded(R),
    UpstreamFailed(E),
}

impl<B, R, E> View for Event<B, R, E> {
    type V = EventView<B, R, E>;

    open spec fn view(&self) -> EventView<B, R, E> {
        match self {
            Event::Request(request) => EventView::Request(request@),
            Event::Resolved(lookup) => EventView::Resolved(lookup@),
            Event::AcknowledgmentSent => EventView::AcknowledgmentSent,
            Event::Upgraded => EventView::Upgraded,
            Event::UpgradeFailed => EventView::UpgradeFailed,
            Event::TunnelClosed => EventView::TunnelClosed,
            Event::UpstreamResponded(response) => EventView::UpstreamResponded(*response),
            Event::UpstreamFailed(error) => EventView::UpstreamFailed(*error),
        }
    }
}

/// What the driver is to do next.
#[derive(Debug, PartialEq, Eq)]
pub enum Action<B, R, E> {
    /// Nothing: the event has no meaning in the state the exchange is in.
    Ignore,
    /// Look up the addresses of this authority.
    Resolve(String),
    /// Send this response to the client.
    Respond(ProxyResponse<R>),
    /// Ask the transport for the raw connection of this request.
    Upgrade(B),
    /// Connect to this address and relay between it and the client.
    OpenTunnel(SocketAddress),
    /// Tear down what is left of the tunnel.
    Close,
    /// Give the connection up without a response.
    Abandon,
    /// Send this request to the origin.
    Forward(ProxyRequest<B>),
    /// End the exchange with this error and without a response.
    Fail(E),
}

/// The mathematical content of an [`Action`].
pub enum ActionView<B, R, E> {
    Ignore,
    Resolve(Seq<char>),
    Respond(ProxyResponseView<R>),
    Upgrade(B),
    OpenTunnel(SocketAddress),
    Close,
    Abandon,
    Forward(ProxyRequestView<B>),
    Fail(E),
}

impl<B, R, E> View for Action<B, R, E> {
    type V = ActionView<B, R, E>;

    open spec fn view(&self) -> ActionView<B, R, E> {
        match self {
            Action::Ignore => ActionView::Ignore,
            Action::Resolve(authority) => ActionView::Resolve(authority@),
            Action::Respond(response) => ActionView::Respond(response@),
            Action::Upgrade(payload) => ActionView::Upgrade(*payload),
            Action::OpenTunnel(address) => ActionView::OpenTunnel(*address),
            Action::Close => ActionView::Close,
            Action::Abandon => ActionView::Abandon,
            Action::Forward(request) => ActionView::Forward(request@),
            Action::Fail(error) => ActionView::Fail(*error),
        }
    }
}

/// The acknowledgment of a tunnel: `200` with an empty body.
pub open spec fn acknowledgment<R>() -> ProxyResponseView<R> {
    ProxyResponseView::Local { status: STATUS_OK, body: Seq::empty() }
}

/// The answer to a tunnel request whose target has no authority that
/// resolves: `400`, and a body that names the target.
pub open spec fn rejection<R>(target: Seq<char>) -> ProxyResponseView<R> {
    ProxyResponseView::Local {
        status: STATUS_BAD_REQUEST,
        body: "cannot resolve remote uri "@ + target,
    }
}

/// What becomes of a request, given the authority found in its target: a
/// tunnel request goes on to resolve the authority, or is rejected where
/// there is none; any other request is forwarded as it came.
pub open spec fn classification<B, R, E>(request: ProxyRequestView<B>, authority: Option<Seq<char>>) -> (
    StateView<B>,
    ActionView<B, R, E>,
) {
    if is_connect_method(request.method) {
        match authority {
            Some(found) => (StateView::Resolving(request), ActionView::Resolve(found)),
            None => (StateView::ResolutionFailed, ActionView::Respond(rejection(request.target))),
        }
    } else {
        (StateView::Forwarding, ActionView::Forward(request))
    }
}

/// What becomes of a tunnel request once the lookup has ended: it is
/// acknowledged where there is a candidate, and rejected where there is none.
pub open spec fn settlement<B, R, E>(
    request: ProxyRequestView<B>,
    lookup: Option<Seq<SocketAddress>>,
) -> (StateView<B>, ActionView<B, R, E>) {
    match first_candidate(lookup) {
        Some(address) => (
            StateView::Acknowledged { payload: request.payload, address },
            ActionView::Respond(acknowledgment()),
        ),
        None => (StateView::ResolutionFailed, ActionView::Respond(rejection(request.target))),
    }
}

/// The state that follows `state` on `event`, and the action that the
/// event draws. An event that `state` does not wait for changes nothing.
pub open spec fn transition<B, R, E>(state: StateView<B>, event: EventView<B, R, E>) -> (
    StateView<B>,
    ActionView<B, R, E>,
) {
    match (state, event) {
        (StateView::Received, EventView::Request(request)) => classification(
            request,
            uri_authority(request.target),
        ),
        (StateView::Resolving(request), EventView::Resolved(lookup)) => settlement(
            request,
            lookup,
        ),
        (StateView::Acknowledged { payload, address }, EventView::AcknowledgmentSent) => (
            StateView::Upgrading { address },
            ActionView::Upgrade(payload),
        ),
        (StateView::Upgrading { address }, EventView::Upgraded) => (
            StateView::Relaying,
            ActionView::OpenTunnel(address),
        ),
        (StateView::Upgrading { .. }, EventView::UpgradeFailed) => (
            StateView::UpgradeFailed,
            ActionView::Abandon,
        ),
        (StateView::Relaying, EventView::TunnelClosed) => (StateView::Closed, ActionView::Close),
        (StateView::Forwarding, EventView::UpstreamResponded(response)) => (
            StateView::Forwarded,
            ActionView::Respond(ProxyResponseView::Upstream(response)),
        ),
        (StateView::Forwarding, EventView::UpstreamFailed(error)) => (
            StateView::ForwardFailed,
            ActionView::Fail(error),
        ),
        _ => (state, ActionView::Ignore),
    }
}

/// Builds the rejection of a target.
fn reject<R>(target: &String) -> (response: ProxyResponse<R>)
    ensures
        response@ == rejection::<R>(target@),
{
    let mut body = String::from_str("cannot resolve remote uri ");
    body.append(target.as_str());
    ProxyResponse::Local { status: STATUS_BAD_REQUEST, body }
}

/// Decides what becomes of a request that has just arrived, given the
/// authority that was found in its target.
pub fn classify<B, R, E>(request: ProxyRequest<B>, authority: Option<String>) -> (next: (
    State<B>,
    Action<B, R, E>,
))
    ensures
        (next.0@, next.1@) == classification::<B, R, E>(request@, authority.deep_view()),
{
    if is_connect(&request.method) {
        match authority {
            Some(found) => (State::Resolving(request), Action::Resolve(found)),
            None => {
                let response = reject(&request.target);
                (State::ResolutionFailed, Action::Respond(response))
            },
        }
    } else {
        (State::Forwarding, Action::Forward(request))
    }
}

/// Decides what becomes of a tunnel request whose lookup has ended.
pub fn settle<B, R, E>(request: ProxyRequest<B>, lookup: &Lookup) -> (next: (
    State<B>,
    Action<B, R, E>,
))
    ensures
        (next.0@, next.1@) == settlement::<B, R, E>(request@, lookup@),
{
    match select_address(lookup) {
        Some(address) => {
            let response = ProxyResponse::Local { status: STATUS_OK, body: String::new() };
            (State::Acknowledged { payload: request.payload, address }, Action::Respond(response))
        },
        None => {
            let response = reject(&request.target);
            (State::ResolutionFailed, Action::Respond(response))
        },
    }
}

/// Takes one step: consumes the state and the event, and returns the next
/// state and the action to perform.
pub fn step<B, R, E>(state: State<B>, event: Event<B, R, E>) -> (next: (State<B>, Action<B, R, E>))
    ensures
        (next.0@, next.1@) == transition(state@, event@),
{
    match state {
        State::Received => match event {
            Event::Request(request) => {
                let authority = if is_connect(&request.method) {
                    parse_authority(request.target.as_str())
                } else {
                    None
                };
                classify(request, authority)
            },
            _ => (State::Received, Action::Ignore),
        },
        State::Resolving(request) => match event {
            Event::Resolved(lookup) => settle(request, &lookup),
            _ => (State::Resolving(request), Action::Ignore),
        },
        State::Acknowledged { payload, address } => match event {
            Event::AcknowledgmentSent => (State::Upgrading { address }, Action::Upgrade(payload)),
            _ => (State::Acknowledged { payload, address }, Action::Ignore),
        },
        State::Upgrading { address } => match event {
            Event::Upgraded => (State::Relaying, Action::OpenTunnel(address)),
            Event::UpgradeFailed => (State::UpgradeFailed, Action::Abandon),
            _ => (State::Upgrading { address }, Action::Ignore),
        },
        State::Relaying => match event {
            Event::TunnelClosed => (State::Closed, Action::Close),
            _ => (State::Relaying, Action::Ignore),
        },
        State::Forwarding => match event {
            Event::UpstreamResponded(response) => (
                State::Forwarded,
                Action::Respond(ProxyResponse::Upstream(response)),
            ),
            Event::UpstreamFailed(error) => (State::ForwardFailed, Action::Fail(error)),
            _ => (State::Forwarding, Action::Ignore),
        },
        State::ResolutionFailed => (State::ResolutionFailed, Action::Ignore),
        State::UpgradeFailed => (State::UpgradeFailed, Action::Ignore),
        State::Closed => (State::Closed, Action::Ignore),
        State::Forwarded => (State::Forwarded, Action::Ignore),
        State::ForwardFailed => (State::ForwardFailed, Action::Ignore),
    }
}

/// The actions that a run of events draws from an exchange that stands in
/// `state`, in order. Events that are ignored leave no trace.
pub open spec fn effects<B, R, E>(state: StateView<B>, events: Seq<EventView<B, R, E>>) -> Seq<
    ActionView<B, R, E>,
>
    decreases events.len(),
{
    if events.len() == 0 {
        Seq::empty()
    } else {
        let (next, action) = transition(state, events[0]);
        let rest = effects(next, events.drop_first());
        if action is Ignore {
            rest
        } else {
            seq![action] + rest
        }
    }
}

/// A state that no event leads out of.
pub open spec fn is_terminal<B>(state: StateView<B>) -> bool {
    state is ResolutionFailed || state is UpgradeFailed || state is Closed || state is Forwarded
        || state is ForwardFailed
}

/// Nothing happens after a terminal state.
proof fn lemma_after_terminal<B, R, E>(state: StateView<B>, events: Seq<EventView<B, R, E>>)
    requires
        is_terminal(state),
    ensures
        effects(state, events).len() == 0,
    decreases events.len(),
{
    if events.len() > 0 {
        lemma_after_terminal(state, events.drop_first());
    }
}

/// A relay can only be closed, once.
proof fn lemma_after_relaying<B, R, E>(events: Seq<EventView<B, R, E>>)
    ensures
        ({
            let trace = effects(StateView::<B>::Relaying, events);
            trace.len() == 0 || trace =~= seq![ActionView::<B, R, E>::Close]
        }),
    decreases events.len(),
{
    if events.len() > 0 {
        if events[0] is TunnelClosed {
            lemma_after_terminal(StateView::<B>::Closed, events.drop_first());
        } else {
            lemma_after_relaying::<B, R, E>(events.drop_first());
        }
    }
}

/// After the upgrade was asked for, the connection is given up, or the
/// tunnel is opened and later closed.
proof fn lemma_after_upgrading<B, R, E>(address: SocketAddress, events: Seq<EventView<B, R, E>>)
    ensures
        ({
            let trace = effects(StateView::<B>::Upgrading { address }, events);
            ||| trace.len() == 0
            ||| trace =~= seq![ActionView::<B, R, E>::Abandon]
            ||| trace =~= seq![ActionView::<B, R, E>::OpenTunnel(address)]
            ||| trace =~= seq![ActionView::<B, R, E>::OpenTunnel(address), ActionView::Close]
        }),
    decreases events.len(),
{
    if events.len() > 0 {
        if events[0] is Upgraded {
            lemma_after_relaying::<B, R, E>(events.drop_first());
        } else if events[0] is UpgradeFailed {
            lemma_after_terminal(StateView::<B>::UpgradeFailed, events.drop_first());
        } else {
            lemma_after_upgrading::<B, R, E>(address, events.drop_first());
        }
    }
}

/// What can follow the acknowledgment: the upgrade, then what follows it.
pub open spec fn follows_acknowledgment<B, R, E>(
    payload: B,
    address: SocketAddress,
    trace: Seq<ActionView<B, R, E>>,
) -> bool {
    ||| trace.len() == 0
    ||| trace =~= seq![ActionView::<B, R, E>::Upgrade(payload)]
    ||| trace =~= seq![ActionView::<B, R, E>::Upgrade(payload), ActionView::Abandon]
    ||| trace =~= seq![ActionView::<B, R, E>::Upgrade(payload), ActionView::OpenTunnel(address)]
    ||| trace =~= seq![
        ActionView::<B, R, E>::Upgrade(payload),
        ActionView::OpenTunnel(address),
        ActionView::Close,
    ]
}

proof fn lemma_after_acknowledged<B, R, E>(
    payload: B,
    address: SocketAddress,
    events: Seq<EventView<B, R, E>>,
)
    ensures
        follows_acknowledgment(
            payload,
            address,
            effects(StateView::Acknowledged { payload, address }, events),
        ),
    decreases events.len(),
{
    if events.len() > 0 {
        if events[0] is AcknowledgmentSent {
            lemma_after_upgrading::<B, R, E>(address, events.drop_first());
        } else {
            lemma_after_acknowledged::<B, R, E>(payload, address, events.drop_first());
        }
    }
}

/// The origin's answer, or its failure, ends a forwarded exchange.
proof fn lemma_after_forwarding<B, R, E>(events: Seq<EventView<B, R, E>>)
    ensures
        ({
            let trace = effects(StateView::<B>::Forwarding, events);
            ||| trace.len() == 0
            ||| trace.len() == 1 && trace[0] matches ActionView::Respond(
                ProxyResponseView::Upstream(_),
            )
            ||| trace.len() == 1 && trace[0] is Fail
        }),
    decreases events.len(),
{
    if events.len() > 0 {
        if events[0] is UpstreamResponded {
            lemma_after_terminal(StateView::<B>::Forwarded, events.drop_first());
        } else if events[0] is UpstreamFailed {
            lemma_after_terminal(StateView::<B>::ForwardFailed, events.drop_first());
        } else {
            lemma_after_forwarding::<B, R, E>(events.drop_first());
        }
    }
}

/// A tunnel request that resolves draws, in this order and each at most
/// once: the lookup of its authority, the one response, which is the empty
/// `200`, the upgrade of the connection that the request came on, the
/// tunnel to the first candidate, and its close. The run may stop anywhere
/// after the response, and ends after the upgrade where that fails. No other
/// action appears, whatever further events are reported.
pub proof fn law_tunnel_sequence<B, R, E>(
    request: ProxyRequestView<B>,
    authority: Seq<char>,
    lookup: Option<Seq<SocketAddress>>,
    address: SocketAddress,
    events: Seq<EventView<B, R, E>>,
)
    requires
        is_connect_method(request.method),
        uri_authority(request.target) == Some(authority),
        first_candidate(lookup) == Some(address),
        events.len() >= 2,
        events[0] == EventView::<B, R, E>::Request(request),
        events[1] == EventView::<B, R, E>::Resolved(lookup),
    ensures
        ({
            let trace = effects(StateView::Received, events);
            &&& trace.len() >= 2
            &&& trace[0] == ActionView::<B, R, E>::Resolve(authority)
            &&& trace[1] == ActionView::<B, R, E>::Respond(acknowledgment())
            &&& follows_acknowledgment(request.payload, address, trace.skip(2))
            &&& forall|i: int| 0 <= i < trace.len() && i != 1 ==> !(#[trigger] trace[i] is Respond)
        }),
{
    let after_request = events.drop_first();
    let after_lookup = after_request.drop_first();
    let acknowledged = StateView::Acknowledged { payload: request.payload, address };
    let tail = effects(acknowledged, after_lookup);
    lemma_after_acknowledged::<B, R, E>(request.payload, address, after_lookup);
    assert(after_request[0] == events[1]);
    assert(effects(StateView::Resolving(request), after_request) == seq![
        ActionView::<B, R, E>::Respond(acknowledgment()),
    ] + tail);
    let trace = effects(StateView::Received, events);
    assert(trace == seq![ActionView::<B, R, E>::Resolve(authority)] + (seq![
        ActionView::<B, R, E>::Respond(acknowledgment()),
    ] + tail));
    assert(trace.skip(2) =~= tail);
    assert forall|i: int| 0 <= i < trace.len() && i != 1 implies !(#[trigger] trace[i] is Respond) by {
        if i >= 2 {
            assert(trace[i] == tail[i - 2]);
        }
    }
}

/// A tunnel request whose target has no authority draws the one response
/// `400` and nothing else, whatever further events are reported: no lookup,
/// no upgrade, no tunnel.
pub proof fn law_missing_authority_rejected<B, R, E>(
    request: ProxyRequestView<B>,
    events: Seq<EventView<B, R, E>>,
)
    requires
        is_connect_method(request.method),
        uri_authority(request.target) is None,
        events.len() >= 1,
        events[0] == EventView::<B, R, E>::Request(request),
    ensures
        effects(StateView::Received, events) == seq![
            ActionView::<B, R, E>::Respond(rejection(request.target)),
        ],
{
    lemma_after_terminal(StateView::<B>::ResolutionFailed, events.drop_first());
    assert(effects(StateView::Received, events) =~= seq![
        ActionView::<B, R, E>::Respond(rejection(request.target)),
    ]);
}

/// A tunnel request whose authority does not resolve draws the lookup and
/// then the one response `400`, and nothing else, whatever further events
/// are reported: no upgrade, no tunnel.
pub proof fn law_unresolved_authority_rejected<B, R, E>(
    request: ProxyRequestView<B>,
    authority: Seq<char>,
    lookup: Option<Seq<SocketAddress>>,
    events: Seq<EventView<B, R, E>>,
)
    requires
        is_connect_method(request.method),
        uri_authority(request.target) == Some(authority),
        first_candidate(lookup) is None,
        events.len() >= 2,
        events[0] == EventView::<B, R, E>::Request(request),
        events[1] == EventView::<B, R, E>::Resolved(lookup),
    ensures
        effects(StateView::Received, events) == seq![
            ActionView::<B, R, E>::Resolve(authority),
            ActionView::Respond(rejection(request.target)),
        ],
{
    let after_request = events.drop_first();
    lemma_after_terminal(StateView::<B>::ResolutionFailed, after_request.drop_first());
    assert(after_request[0] == events[1]);
    assert(effects(StateView::Resolving(request), after_request) =~= seq![
        ActionView::<B, R, E>::Respond(rejection(request.target)),
    ]);
    assert(effects(StateView::Received, events) =~= seq![
        ActionView::<B, R, E>::Resolve(authority),
        ActionView::Respond(rejection(request.target)),
    ]);
}

/// A request that asks for no tunnel is handed to the origin as it came:
/// method, target and payload are those received. What the origin answers
/// goes back as it is, and its failure ends the exchange with its error.
/// Nothing else happens, whatever further events are reported.
pub proof fn law_forwarded_verbatim<B, R, E>(
    request: ProxyRequestView<B>,
    events: Seq<EventView<B, R, E>>,
)
    requires
        !is_connect_method(request.method),
        events.len() >= 1,
        events[0] == EventView::<B, R, E>::Request(request),
    ensures
        ({
            let trace = effects(StateView::Received, events);
            &&& 1 <= trace.len() <= 2
            &&& trace[0] == ActionView::<B, R, E>::Forward(request)
            &&& events.len() >= 2 ==> (events[1] matches EventView::UpstreamResponded(response)
                ==> trace == seq![
                ActionView::<B, R, E>::Forward(request),
                ActionView::Respond(ProxyResponseView::Upstream(response)),
            ])
            &&& events.len() >= 2 ==> (events[1] matches EventView::UpstreamFailed(error) ==> trace
                == seq![ActionView::<B, R, E>::Forward(request), ActionView::Fail(error)])
        }),
{
    let after_request = events.drop_first();
    let tail = effects(StateView::<B>::Forwarding, after_request);
    let trace = effects(StateView::Received, events);
    lemma_after_forwarding::<B, R, E>(after_request);
    assert(trace == seq![ActionView::<B, R, E>::Forward(request)] + tail);
    if events.len() >= 2 {
        assert(after_request[0] == events[1]);
        match events[1] {
            EventView::UpstreamResponded(response) => {
                lemma_after_terminal(StateView::<B>::Forwarded, after_request.drop_first());
                assert(trace =~= seq![
                    ActionView::<B, R, E>::Forward(request),
                    ActionView::Respond(ProxyResponseView::Upstream(response)),
                ]);
            },
            EventView::UpstreamFailed(error) => {
                lemma_after_terminal(StateView::<B>::ForwardFailed, after_request.drop_first());
                assert(trace =~= seq![
                    ActionView::<B, R, E>::Forward(request),
                    ActionView::Fail(error),
                ]);
            },
            _ => {},
        }
    }
}

/// The upgrade is asked for in one place only: on the report that the
/// acknowledgment has been written out, in the state that sending the
/// acknowledgment led to. The tunnel is opened in one place only: on the
/// report that the upgrade succeeded.
pub proof fn law_upgrade_waits_for_acknowledgment<B, R, E>(
    state: StateView<B>,
    event: EventView<B, R, E>,
)
    ensures
        transition(state, event).1 is Upgrade ==> state is Acknowledged && event
            is AcknowledgmentSent,
        transition(state, event).0 is Acknowledged && !(state is Acknowledged) ==> transition(
            state,
            event,
        ).1 == ActionView::<B, R, E>::Respond(acknowledgment()),
        transition(state, event).1 is OpenTunnel ==> state is Upgrading && event is Upgraded,
        transition(state, event).0 is Upgrading && !(state is Upgrading) ==> transition(
            state,
            event,
        ).1 is Upgrade,
{
}


/// The trace holds no response.
spec fn without_response<B, R, E>(trace: Seq<ActionView<B, R, E>>) -> bool {
    forall|i: int| 0 <= i < trace.len() ==> !(#[trigger] trace[i] is Respond)
}

/// A lookup ends in one response, and nothing after it is a response.
proof fn lemma_after_resolving<B, R, E>(
    request: ProxyRequestView<B>,
    events: Seq<EventView<B, R, E>>,
)
    ensures
        ({
            let trace = effects(StateView::Resolving(request), events);
            trace.len() == 0 || (trace[0] is Respond && without_response(trace.skip(1)))
        }),
    decreases events.len(),
{
    if events.len() > 0 {
        let rest = events.drop_first();
        match events[0] {
            EventView::Resolved(lookup) => {
                let trace = effects(StateView::Resolving(request), events);
                match first_candidate(lookup) {
                    Some(address) => {
                        lemma_after_acknowledged::<B, R, E>(request.payload, address, rest);
                        let tail = effects(
                            StateView::Acknowledged { payload: request.payload, address },
                            rest,
                        );
                        assert(trace.skip(1) =~= tail);
                    },
                    None => {
                        lemma_after_terminal(StateView::<B>::ResolutionFailed, rest);
                        assert(trace.skip(1) =~= Seq::empty());
                    },
                }
            },
            _ => {
                lemma_after_resolving::<B, R, E>(request, rest);
            },
        }
    }
}

/// An exchange answers at most once: whatever is reported, and in whatever
/// order, no run from the start draws two responses.
pub proof fn law_single_response<B, R, E>(events: Seq<EventView<B, R, E>>)
    ensures
        ({
            let trace = effects(StateView::<B>::Received, events);
            forall|i: int, j: int|
                0 <= i < j < trace.len() ==> !(#[trigger] trace[i] is Respond
                    && #[trigger] trace[j] is Respond)
        }),
    decreases events.len(),
{
    if events.len() > 0 {
        let rest = events.drop_first();
        let trace = effects(StateView::<B>::Received, events);
        match events[0] {
            EventView::Request(request) => {
                let (next, action) = transition(StateView::<B>::Received, events[0]);
                let tail = effects(next, rest);
                assert(trace =~= seq![action] + tail);
                match next {
                    StateView::Resolving(resolving) => {
                        lemma_after_resolving::<B, R, E>(resolving, rest);
                        assert forall|i: int, j: int| 0 <= i < j < trace.len() implies !(
                        #[trigger] trace[i] is Respond && #[trigger] trace[j] is Respond) by {
                            if i >= 1 && trace[i] is Respond {
                                assert(trace[i] == tail[i - 1]);
                                assert(trace[j] == tail.skip(1)[j - 2]);
                            }
                        }
                    },
                    StateView::Forwarding => {
                        lemma_after_forwarding::<B, R, E>(rest);
                    },
                    _ => {
                        lemma_after_terminal(StateView::<B>::ResolutionFailed, rest);
                    },
                }
            },
            _ => {
                law_single_response::<B, R, E>(rest);
            },
        }
    }
}


/// The changes of state that an exchange can make.
pub open spec fn may_follow<B>(from: StateView<B>, to: StateView<B>) -> bool {
    match from {
        StateView::Received => to is Resolving || to is ResolutionFailed || to is Forwarding,
        StateView::Resolving(_) => to is Acknowledged || to is ResolutionFailed,
        StateView::Acknowledged { .. } => to is Upgrading,
        StateView::Upgrading { .. } => to is Relaying || to is UpgradeFailed,
        StateView::Relaying => to is Closed,
        StateView::Forwarding => to is Forwarded || to is ForwardFailed,
        _ => false,
    }
}

/// Every step keeps to the chart: an event that is ignored leaves the state
/// as it is, any other moves it along one arrow of [`may_follow`]. No arrow
/// leaves a terminal state, so such a state ignores every event.
pub proof fn law_steps_follow_the_chart<B, R, E>(state: StateView<B>, event: EventView<B, R, E>)
    ensures
        transition(state, event).1 is Ignore ==> transition(state, event).0 == state,
        !(transition(state, event).1 is Ignore) ==> may_follow(state, transition(state, event).0),
        is_terminal(state) ==> transition(state, event) == (state, ActionView::<B, R, E>::Ignore),
{
}


} // verus!
