//! What holds of the life of every tool, from its initialization to its exit.
use lsp_types::{InitializeResult, Url};
use serde_json::Value;
use vstd::prelude::*;

use crate::error_message::ErrorMessage;
use crate::json;
use crate::json::JsonNumber;
use crate::json_rpc::{
    ClientView, ErrorObject, IdView, Kind, Outcome, OutcomeView, ParamsView, PredefinedError,
    ProcessResponseError, RequestObject, RequestView, ResponseError, ResponseObject, ResponseView,
};
use crate::lsp;
use crate::lsp::{
    Directive, Event, EventView, InvalidStateError, RequestHandler, ResponseHandlers, State,
    StateView,
};
use crate::message::Message;
use crate::protocol;
use crate::protocol::{Registration, RegistrationView};
use crate::tool;
use crate::tool::{
    CreateToolError, Product, Reaction, ReactionView, Received, ReceptionError, Receptions,
    ToolView, TransmissionError, WriteError,
};

verus! {

/// How far `state` is from the start of the life of a tool.
pub open spec fn stage(state: StateView) -> int {
    match state {
        StateView::Uninitialized { .. } => 0,
        StateView::WaitingInitialization { .. } => 1,
        StateView::Running { .. } => 2,
        StateView::WaitingShutdown => 3,
        StateView::WaitingExit => 4,
    }
}

/// What a tool transmits never moves it back, nor over a stage.
pub proof fn law_transmission_moves_forward(
    tool: ToolView,
    directives: Seq<Directive>,
    process_id: u32,
)
    ensures
        tool.transmitted(directives, process_id) matches Ok((after, _)) ==> stage(tool.state)
            <= stage(after.state) <= stage(tool.state) + 1,
{
}

/// What a tool sends on its own never moves it back, nor over a stage.
pub proof fn law_sending_moves_forward(tool: ToolView, directives: Seq<Directive>)
    ensures
        stage(tool.state) <= stage(tool.sending(directives).0.state) <= stage(tool.state) + 1,
{
}

/// What a tool receives never moves it back, nor over a stage.
pub proof fn law_reception_moves_forward<X>(tool: ToolView, product: Product<X>)
    ensures
        stage(tool.state) <= stage(tool.received(product).0.state) <= stage(tool.state) + 1,
{
}

/// A tool takes directives until it is told to shut down, and none from then on.
pub proof fn law_tool_takes_directives_until_shutdown(
    tool: ToolView,
    directives: Seq<Directive>,
    process_id: u32,
)
    ensures
        (tool.transmitted(directives, process_id) is Err) == (tool.state is WaitingShutdown
            || tool.state is WaitingExit),
        tool.transmitted(directives, process_id) matches Err(state) ==> state == tool.state,
{
}

/// A running tool sends one request per directive, in order, with the method and the parameters of
/// the directive, and with an id if and only if a response is due.
pub proof fn law_requests_follow_the_directives(
    client: ClientView<ResponseHandlers>,
    directives: Seq<Directive>,
)
    ensures
        tool::sent(client, directives).1.len() == directives.len(),
        forall|i: int|
            0 <= i < directives.len() ==> {
                let request = #[trigger] tool::sent(client, directives).1[i];
                &&& exists|id: Option<u64>|
                    request == #[trigger] RequestView::of(
                        directives[i].method(),
                        directives[i].value(),
                        id,
                    )
                &&& (request.id is Some) == (directives[i].response_handlers() is Some)
            },
    decreases directives.len(),
{
    if directives.len() > 0 {
        law_requests_follow_the_directives(client, directives.drop_last());
        let requests = tool::sent(client, directives).1;
        assert forall|i: int| 0 <= i < directives.len() implies {
            let request = #[trigger] requests[i];
            &&& exists|id: Option<u64>|
                request == #[trigger] RequestView::of(
                    directives[i].method(),
                    directives[i].value(),
                    id,
                )
            &&& (request.id is Some) == (directives[i].response_handlers() is Some)
        } by {
            if i < directives.len() - 1 {
                assert(requests[i] == tool::sent(client, directives.drop_last()).1[i]);
                assert(directives.drop_last()[i] == directives[i]);
            }
        }
    }
}

/// `tool` after it took each of `batches` in order, with all requests to be written, or the state in
/// which it refused one.
pub open spec fn transmitted_all(tool: ToolView, batches: Seq<Seq<Directive>>, process_id: u32) -> Result<
    (ToolView, Seq<RequestView>),
    StateView,
>
    decreases batches.len(),
{
    if batches.len() == 0 {
        Ok((tool, Seq::empty()))
    } else {
        match transmitted_all(tool, batches.drop_last(), process_id) {
            Ok((before, requests)) => match before.transmitted(batches.last(), process_id) {
                Ok((after, more)) => Ok((after, requests + more)),
                Err(state) => Err(state),
            },
            Err(state) => Err(state),
        }
    }
}

/// All of `batches`, one after the other.
pub open spec fn joined(batches: Seq<Seq<Directive>>) -> Seq<Directive>
    decreases batches.len(),
{
    if batches.len() == 0 {
        Seq::empty()
    } else {
        joined(batches.drop_last()) + batches.last()
    }
}

/// A new tool initializes its server as soon as there is something to transmit, once, whatever is
/// transmitted before the server confirms it; until then everything is kept, in order.
pub proof fn law_first_transmission_initializes_the_server(
    root_dir: Url,
    batches: Seq<Seq<Directive>>,
    process_id: u32,
)
    requires
        batches.len() > 0,
    ensures
        ({
            let tool = ToolView::in_state(StateView::Uninitialized { root_dir });
            let (client, id) = tool.client.requested(Some(ResponseHandlers::Initialize));
            let value = tool::initialize_params_spec(root_dir, process_id).json();
            transmitted_all(tool, batches, process_id) == Ok::<
                (ToolView, Seq<RequestView>),
                StateView,
            >(
                (
                    ToolView {
                        client,
                        server: tool.server,
                        state: StateView::WaitingInitialization { directives: joined(batches) },
                    },
                    seq![RequestView::of("initialize"@, value, id)],
                ),
            )
        }),
    decreases batches.len(),
{
    let tool = ToolView::in_state(StateView::Uninitialized { root_dir });
    let (client, id) = tool.client.requested(Some(ResponseHandlers::Initialize));
    let value = tool::initialize_params_spec(root_dir, process_id).json();
    let request = RequestView::of("initialize"@, value, id);
    let before = batches.drop_last();
    if batches.len() > 1 {
        law_first_transmission_initializes_the_server(root_dir, before, process_id);
        assert(seq![request] + Seq::<RequestView>::empty() =~= seq![request]);
    } else {
        assert(joined(before) =~= Seq::empty());
        assert(joined(batches) =~= batches.last());
        assert(transmitted_all(tool, before, process_id) == Ok::<
            (ToolView, Seq<RequestView>),
            StateView,
        >((tool, Seq::empty())));
        assert(Seq::<RequestView>::empty() + seq![request] =~= seq![request]);
    }
}

/// Whether `response` is a success that answers the request of id `id` of `tool`.
pub open spec fn confirms(tool: ToolView, response: ResponseObject, id: u64) -> bool {
    tool.client.answered(response.id@) == Some(id) && response.outcome is Result
}

/// Once its server confirms the initialization, a tool runs, and has itself send first that it is
/// initialized and then everything that was kept, in order; the requests say exactly that.
pub proof fn law_confirmed_tool_sends_what_was_kept<X>(
    tool: ToolView,
    response: ResponseObject,
    id: u64,
    message: Product<X>,
    process_id: u32,
)
    requires
        tool.state is WaitingInitialization,
        tool.client.awaiting.contains_key(id),
        tool.client.awaiting[id] == ResponseHandlers::Initialize,
        confirms(tool, response, id),
        protocol::initialize_result_of(json::json_of(response.outcome->Result_0)) is Ok,
        message matches Product::Output(message) && message.content.kind == Kind::Response(response),
    ensures
        ({
            let (after, received) = tool.received(message);
            let kept = tool.state->directives;
            let directives = seq![Directive::Initialized] + kept;
            let requests = after.transmitted_own(directives, process_id)->Ok_0.1;
            &&& after.state is Running
            &&& received == Received::Reaction(
                ReactionView::<X>::event(Some(EventView::SendDirectives(directives))),
            )
            &&& after.transmitted_own(directives, process_id) is Ok
            &&& requests == tool::sent(after.client, directives).1
            &&& requests.len() == kept.len() + 1
            &&& requests[0] == RequestView::of("initialized"@, json::Json::Null, None)
            &&& forall|i: int|
                0 <= i < kept.len() ==> (#[trigger] requests[i + 1]).method == kept[i].method()
                    && requests[i + 1].params == ParamsView::of(kept[i].value())
        }),
{
    let after = tool.received(message).0;
    let kept = tool.state->directives;
    let directives = seq![Directive::Initialized] + kept;
    law_requests_follow_the_directives(after.client, directives);
    let requests = tool::sent(after.client, directives).1;
    assert(directives[0] == Directive::Initialized);
    assert(requests[0] == RequestView::of("initialized"@, json::Json::Null, None)) by {
        let request = requests[0];
        let id = choose|id: Option<u64>|
            request == #[trigger] RequestView::of(directives[0].method(), directives[0].value(), id);
        assert(request.id is None);
    }
    assert forall|i: int| 0 <= i < kept.len() implies (#[trigger] requests[i + 1]).method
        == kept[i].method() && requests[i + 1].params == ParamsView::of(kept[i].value()) by {
        assert(directives[i + 1] == kept[i]);
    }
}

/// Once its server confirms the shutdown, a tool waits for it to exit and asks for the exit; what
/// it then sends is the notification to exit and nothing else.
pub proof fn law_confirmed_shutdown_sends_the_exit<X>(
    tool: ToolView,
    response: ResponseObject,
    id: u64,
    message: Product<X>,
    process_id: u32,
)
    requires
        tool.state is WaitingShutdown,
        tool.client.awaiting.contains_key(id),
        tool.client.awaiting[id] == ResponseHandlers::Shutdown,
        confirms(tool, response, id),
        message matches Product::Output(message) && message.content.kind == Kind::Response(response),
    ensures
        ({
            let (after, received) = tool.received(message);
            let directives = seq![Directive::Exit];
            &&& after.state is WaitingExit
            &&& received == Received::Reaction(
                ReactionView::<X>::event(Some(EventView::SendDirectives(directives))),
            )
            &&& after.transmitted_own(directives, process_id) == Ok::<
                (ToolView, Seq<RequestView>),
                StateView,
            >((after, seq![RequestView::of("exit"@, json::Json::Null, None)]))
        }),
{
    let after = tool.received(message).0;
    let directives = seq![Directive::Exit];
    let request = RequestView::of("exit"@, json::Json::Null, None);
    assert(directives.drop_last() =~= Seq::empty());
    assert(tool::sent(after.client, directives.drop_last()) == (
        after.client,
        Seq::<RequestView>::empty(),
    ));
    assert(Seq::<RequestView>::empty().push(request) =~= seq![request]);
}

/// A response with an error leaves the state of a tool as it is, and no event follows from it.
pub proof fn law_error_response_leaves_the_state<X>(
    tool: ToolView,
    response: ResponseObject,
    message: Product<X>,
)
    requires
        response.outcome is Error,
        message matches Product::Output(message) && message.content.kind == Kind::Response(response),
    ensures
        ({
            let (after, received) = tool.received(message);
            &&& after.state == tool.state
            &&& received matches Received::Reaction(reaction) ==> reaction == ReactionView::<
                X,
            >::event(None)
        }),
{
}

/// A tool that waits for its server to exit does so whatever the server produces.
pub proof fn law_finished_tool_stays_finished<X>(tool: ToolView, product: Product<X>)
    requires
        tool.state is WaitingExit,
    ensures
        tool.received(product).0.state is WaitingExit,
{
}

/// The methods that a tool serves never change.
pub proof fn law_served_methods_never_change<X>(
    tool: ToolView,
    directives: Seq<Directive>,
    process_id: u32,
    product: Product<X>,
)
    ensures
        tool.transmitted(directives, process_id) matches Ok((after, _)) ==> after.server
            == tool.server,
        tool.sending(directives).0.server == tool.server,
        tool.received(product).0.server == tool.server,
{
}

/// A running tool keeps the capabilities that its server registers, after those that it already
/// has, and answers with `null`. Parameters that hold no registrations are answered with an error,
/// and so is a registration in any other state; both change nothing.
pub proof fn law_capabilities_are_registered_while_running<X>(
    tool: ToolView,
    request: RequestObject,
    message: Product<X>,
)
    requires
        tool.server == ToolView::in_state(tool.state).server,
        request@.id is Some,
        request@.method == "client/registerCapability"@,
        message matches Product::Output(message) && message.content.kind == Kind::Request(request),
    ensures
        ({
            let (after, received) = tool.received(message);
            let (registrations, outcome) = match tool.state {
                StateView::Running { registrations, .. } => {
                    match protocol::registrations_of(request@.params.value()) {
                        Ok(registered) => (
                            registrations + registered,
                            OutcomeView::Result(json::Json::Null),
                        ),
                        Err(text) => (registrations, OutcomeView::invalid_params(text)),
                    }
                },
                _ => (Seq::empty(), OutcomeView::invalid_state()),
            };
            &&& received == Received::Reaction(
                ReactionView::<X>::response(
                    Some(ResponseView { outcome, id: request@.id->Some_0 }),
                ),
            )
            &&& after.client == tool.client
            &&& match tool.state {
                StateView::Running { server_state, .. } => after.state == StateView::Running {
                    server_state,
                    registrations,
                },
                _ => after.state == tool.state,
            }
        }),
{
}

/// A request of the server for any other method changes nothing, and is answered with a method not
/// found error.
pub proof fn law_other_requests_are_refused<X>(
    tool: ToolView,
    request: RequestObject,
    message: Product<X>,
)
    requires
        tool.server == ToolView::in_state(tool.state).server,
        request@.id is Some,
        request@.method != "client/registerCapability"@,
        message matches Product::Output(message) && message.content.kind == Kind::Request(request),
    ensures
        tool.received(message) == (
            tool,
            Received::Reaction(
                ReactionView::<X>::response(
                    Some(
                        ResponseView {
                            outcome: OutcomeView::unknown_request(),
                            id: request@.id->Some_0,
                        },
                    ),
                ),
            ),
        ),
{
}

/// A notification of the server changes nothing, and is not answered.
pub proof fn law_notifications_are_ignored<X>(
    tool: ToolView,
    request: RequestObject,
    message: Product<X>,
)
    requires
        tool.server == ToolView::in_state(tool.state).server,
        request@.id is None,
        message matches Product::Output(message) && message.content.kind == Kind::Request(request),
    ensures
        tool.received(message) == (
            tool,
            Received::Reaction(ReactionView::<X>::response(None)),
        ),
{
}

/// Whether the requests that await a response fit the state of `tool`: none before the
/// initialization, then at most one initialization and nothing else, and no shutdown until the tool
/// was told to shut down.
pub open spec fn orderly(tool: ToolView) -> bool {
    let awaiting = tool.client.awaiting;
    &&& tool.state is Uninitialized ==> awaiting.dom() =~= Set::empty()
    &&& tool.state is WaitingInitialization ==> {
        &&& forall|id: u64| #[trigger]
            awaiting.contains_key(id) ==> awaiting[id] == ResponseHandlers::Initialize
        &&& forall|one: u64, other: u64|
            #[trigger] awaiting.contains_key(one) && #[trigger] awaiting.contains_key(other) ==> one
                == other
    }
    &&& tool.state !is WaitingInitialization ==> forall|id: u64| #[trigger]
        awaiting.contains_key(id) ==> awaiting[id] != ResponseHandlers::Initialize
    &&& stage(tool.state) < 3 ==> forall|id: u64| #[trigger]
        awaiting.contains_key(id) ==> awaiting[id] != ResponseHandlers::Shutdown
}

/// Every new tool is orderly.
pub proof fn law_new_tool_is_orderly(state: StateView)
    ensures
        orderly(ToolView::in_state(state)),
{
    assert(Map::<u64, ResponseHandlers>::empty().dom() =~= Set::empty());
}

/// The requests that await a response after `directives` were sent are those that did before, and
/// new ones for symbols and, where it is one of the directives, for the shutdown.
proof fn lemma_sent_awaits(client: ClientView<ResponseHandlers>, directives: Seq<Directive>, id: u64)
    requires
        tool::sent(client, directives).0.awaiting.contains_key(id),
    ensures
        ({
            let handlers = tool::sent(client, directives).0.awaiting[id];
            ||| client.awaiting.contains_key(id) && client.awaiting[id] == handlers
            ||| handlers == ResponseHandlers::DocumentSymbol
            ||| handlers == ResponseHandlers::Shutdown && directives.contains(Directive::Shutdown)
        }),
    decreases directives.len(),
{
    if directives.len() > 0 {
        let before = directives.drop_last();
        assert(directives.contains(directives.last()));
        if tool::sent(client, before).0.awaiting.contains_key(id) {
            lemma_sent_awaits(client, before, id);
            if before.contains(Directive::Shutdown) {
                let i = before.index_of(Directive::Shutdown);
                assert(directives[i] == Directive::Shutdown);
            }
        }
    }
}

/// An orderly tool is orderly after it took directives.
pub proof fn law_transmission_keeps_order(
    tool: ToolView,
    directives: Seq<Directive>,
    process_id: u32,
)
    requires
        orderly(tool),
    ensures
        tool.transmitted(directives, process_id) matches Ok((after, _)) ==> orderly(after),
{
    if let Ok((after, _)) = tool.transmitted(directives, process_id) {
        match tool.state {
            StateView::Uninitialized { .. } => {
                assert forall|id: u64| #[trigger] tool.client.awaiting.contains_key(id) implies false by {
                    assert(tool.client.awaiting.dom().contains(id));
                }
            },
            StateView::Running { .. } => {
                law_sending_keeps_order(tool, directives);
            },
            _ => {},
        }
    }
}

/// An orderly tool whose server is initialized is orderly after it sent something on its own.
pub proof fn law_sending_keeps_order(tool: ToolView, directives: Seq<Directive>)
    requires
        orderly(tool),
        stage(tool.state) >= 2,
    ensures
        orderly(tool.sending(directives).0),
{
    let after = tool.sending(directives).0;
    let awaiting = after.client.awaiting;
    assert forall|id: u64| #[trigger] awaiting.contains_key(id) implies awaiting[id]
        != ResponseHandlers::Initialize && (stage(after.state) < 3 ==> awaiting[id]
        != ResponseHandlers::Shutdown) by {
        lemma_sent_awaits(tool.client, directives, id);
    }
}

/// What a tool wants to send on its own after it received something, it sends at once and whole: it
/// is not refused, and nothing of it is kept.
pub proof fn law_own_directives_are_sent<X>(
    tool: ToolView,
    product: Product<X>,
    directives: Seq<Directive>,
    process_id: u32,
)
    requires
        tool.received(product).1 == Received::Reaction(
            ReactionView::<X>::event(Some(EventView::SendDirectives(directives))),
        ),
    ensures
        ({
            let after = tool.received(product).0;
            &&& after.state is Running || after.state is WaitingExit
            &&& after.transmitted_own(directives, process_id) == Ok::<
                (ToolView, Seq<RequestView>),
                StateView,
            >(after.sending(directives))
        }),
{
    let event = EventView::<X>::SendDirectives(directives);
    let reaction = ReactionView::<X>::event(Some(event));
    assert(reaction.events[0] == event);
    assert(tool.received(product).1->Reaction_0.events[0] == event);
    assert(tool.received(product).1->Reaction_0.events.len() == 1);
}

/// What a tool takes of its own directives is what it takes of those of its client, but for the time
/// when it waits for its server to exit.
pub proof fn law_own_directives_differ_at_the_exit_alone(
    tool: ToolView,
    directives: Seq<Directive>,
    process_id: u32,
)
    requires
        tool.state !is WaitingExit,
    ensures
        tool.transmitted_own(directives, process_id) == tool.transmitted(directives, process_id),
{
}

/// What a tool has no handlers for changes nothing, and no event follows from it.
pub proof fn law_unrecognized_products_change_nothing<X>(tool: ToolView, product: Product<X>)
    requires
        !tool.recognizes(product),
    ensures
        tool.received(product).0 == tool,
        tool.received(product).1 matches Received::Reaction(reaction) && reaction.events.len() == 0,
{
}

/// An orderly tool is orderly after it received something.
pub proof fn law_reception_keeps_order<X>(tool: ToolView, product: Product<X>)
    requires
        orderly(tool),
    ensures
        orderly(tool.received(product).0),
{
    let after = tool.received(product).0;
    assert(after.client.awaiting.submap_of(tool.client.awaiting));
    if tool.state is Uninitialized {
        assert(after.client.awaiting.dom() =~= Set::empty());
    }
}

/// Products are received one after the other: those before a last one give what they give alone, and
/// unless one of them failed, the last one is received by the tool that they leave.
pub proof fn law_products_are_received_in_order<X>(
    tool: ToolView,
    products: Seq<Product<X>>,
    product: Product<X>,
)
    ensures
        ({
            let (before, reactions, failure) = tool.received_all(products);
            let (after, more, later) = tool.received_all(products.push(product));
            if failure is Some {
                (after, more, later) == (before, reactions, failure)
            } else {
                &&& after == before.received(product).0
                &&& match before.received(product).1 {
                    Received::Reaction(reaction) => more == reactions.push(reaction)
                        && later is None,
                    other => more == reactions && later == Some(other),
                }
            }
        }),
{
    assert(products.push(product).drop_last() =~= products);
}

/// An orderly tool is orderly after it received any number of products, and it did not move back.
pub proof fn law_receptions_keep_order<X>(tool: ToolView, products: Seq<Product<X>>)
    requires
        orderly(tool),
    ensures
        orderly(tool.received_all(products).0),
        stage(tool.state) <= stage(tool.received_all(products).0.state),
    decreases products.len(),
{
    if products.len() > 0 {
        law_receptions_keep_order(tool, products.drop_last());
        let before = tool.received_all(products.drop_last()).0;
        law_reception_keeps_order(before, products.last());
        law_reception_moves_forward(before, products.last());
    }
}

/// In an orderly tool the only response that comes in an invalid state is one to a second shutdown:
/// it comes when the tool already waits for its server to exit.
pub proof fn law_only_a_second_shutdown_is_out_of_order<X>(
    tool: ToolView,
    product: Product<X>,
    state: StateView,
)
    requires
        orderly(tool),
        tool.received(product).1 == Received::Reaction(
            ReactionView::<X>::event(Some(EventView::Error(state))),
        ),
    ensures
        state is WaitingExit,
        tool.state is WaitingExit,
        exists|id: u64|
            #[trigger] tool.client.awaiting.contains_key(id) && tool.client.awaiting[id]
                == ResponseHandlers::Shutdown,
{
    let reaction = ReactionView::<X>::event(Some(EventView::Error(state)));
    assert(reaction.events[0] == EventView::<X>::Error(state));
    assert(tool.received(product).1->Reaction_0.events[0] == EventView::<X>::Error(state));
    assert(tool.received(product).1->Reaction_0.events.len() == 1);
    if let Product::Output(message) = product {
        if let Kind::Response(response) = message.content.kind {
            if let Some(id) = tool.client.answered(response.id@) {
                assert(tool.client.awaiting.contains_key(id));
            }
        }
    }
}

/// The answer to a request for symbols, in any state, changes nothing but that it is not waited for
/// any more: the symbols that its whole value stands for are the one event, or the reception fails
/// with what is wrong with the value.
pub proof fn law_symbols_are_handed_on_whole<X>(
    tool: ToolView,
    response: ResponseObject,
    id: u64,
    value: Value,
    message: Product<X>,
)
    requires
        response.id@ == IdView::Num(JsonNumber::Integer(id as int)),
        response.outcome == Outcome::Result(value),
        tool.client.awaiting.contains_key(id),
        tool.client.awaiting[id] == ResponseHandlers::DocumentSymbol,
        message matches Product::Output(message) && message.content.kind == Kind::Response(response),
    ensures
        ({
            let (after, received) = tool.received(message);
            &&& after.server == tool.server
            &&& after.client.next_id == tool.client.next_id
            &&& after.client.awaiting == tool.client.awaiting.remove(id)
            &&& after.state == tool.state
            &&& match protocol::document_symbols_of(json::json_of(value)) {
                Ok(symbols) => {
                    &&& received matches Received::Reaction(reaction)
                    &&& reaction.response is None
                    &&& reaction.events == seq![EventView::<X>::DocumentSymbol(symbols)]
                },
                Err(text) => received == Received::<X>::Serialize(text),
            }
        }),
{
}

/// The answer to the initialization starts the running of a tool that waits for it, with what the
/// whole value stands for, no registrations, and one event: to send that it is initialized and then
/// what was kept. A value that stands for nothing makes the reception fail, and an answer that is
/// not waited for is an error; both leave the state.
pub proof fn law_initialization_is_confirmed_by_its_result<X>(
    tool: ToolView,
    response: ResponseObject,
    id: u64,
    value: Value,
    message: Product<X>,
)
    requires
        response.id@ == IdView::Num(JsonNumber::Integer(id as int)),
        response.outcome == Outcome::Result(value),
        tool.client.awaiting.contains_key(id),
        tool.client.awaiting[id] == ResponseHandlers::Initialize,
        message matches Product::Output(message) && message.content.kind == Kind::Response(response),
    ensures
        ({
            let (after, received) = tool.received(message);
            &&& after.server == tool.server
            &&& after.client.next_id == tool.client.next_id
            &&& after.client.awaiting == tool.client.awaiting.remove(id)
            &&& match (tool.state, protocol::initialize_result_of(json::json_of(value))) {
                (StateView::WaitingInitialization { directives }, Ok(result)) => {
                    &&& after.state matches StateView::Running { server_state, registrations }
                    &&& server_state == result
                    &&& registrations.len() == 0
                    &&& received matches Received::Reaction(reaction)
                    &&& reaction.response is None
                    &&& reaction.events.len() == 1
                    &&& reaction.events[0] matches EventView::SendDirectives(sending)
                    &&& sending.len() == directives.len() + 1
                    &&& sending[0] == Directive::Initialized
                    &&& sending.drop_first() == directives
                },
                (StateView::WaitingInitialization { .. }, Err(text)) => {
                    &&& after.state == tool.state
                    &&& received == Received::<X>::Serialize(text)
                },
                _ => {
                    &&& after.state == tool.state
                    &&& received matches Received::Reaction(reaction)
                    &&& reaction.response is None
                    &&& reaction.events == seq![EventView::<X>::Error(tool.state)]
                },
            }
        }),
{
    if let StateView::WaitingInitialization { directives } = tool.state {
        let sending = seq![Directive::Initialized] + directives;
        assert(sending.drop_first() =~= directives);
    }
}

/// Whatever value the shutdown is answered with, a tool that waits for it waits for the exit from
/// then on, and the one event is to send the exit; in any other state the answer is an error and
/// leaves the state.
pub proof fn law_shutdown_is_confirmed_by_any_result<X>(
    tool: ToolView,
    response: ResponseObject,
    id: u64,
    value: Value,
    message: Product<X>,
)
    requires
        response.id@ == IdView::Num(JsonNumber::Integer(id as int)),
        response.outcome == Outcome::Result(value),
        tool.client.awaiting.contains_key(id),
        tool.client.awaiting[id] == ResponseHandlers::Shutdown,
        message matches Product::Output(message) && message.content.kind == Kind::Response(response),
    ensures
        ({
            let (after, received) = tool.received(message);
            &&& after.server == tool.server
            &&& after.client.next_id == tool.client.next_id
            &&& after.client.awaiting == tool.client.awaiting.remove(id)
            &&& received matches Received::Reaction(reaction)
            &&& reaction.response is None
            &&& match tool.state {
                StateView::WaitingShutdown => {
                    &&& after.state is WaitingExit
                    &&& reaction.events == seq![
                        EventView::<X>::SendDirectives(seq![Directive::Exit]),
                    ]
                },
                _ => {
                    &&& after.state == tool.state
                    &&& reaction.events == seq![EventView::<X>::Error(tool.state)]
                },
            }
        }),
{
}

/// An answer with an error leaves the state of a tool, whatever was asked for: no event follows from
/// an error of the application, and the reception fails with any other error, as it is sorted.
pub proof fn law_refusals_are_sorted<X>(
    tool: ToolView,
    response: ResponseObject,
    id: u64,
    error: ErrorObject,
    message: Product<X>,
)
    requires
        response.id@ == IdView::Num(JsonNumber::Integer(id as int)),
        response.outcome == Outcome::Error(error),
        tool.client.awaiting.contains_key(id),
        message matches Product::Output(message) && message.content.kind == Kind::Response(response),
    ensures
        ({
            let (after, received) = tool.received(message);
            &&& after.state == tool.state
            &&& after.server == tool.server
            &&& after.client.awaiting == tool.client.awaiting.remove(id)
            &&& if -32768 <= error.code <= -32000 {
                &&& received matches Received::Predefined(predefined)
                &&& ResponseError::of(error) == ResponseError::Predefined(predefined)
            } else {
                &&& received matches Received::Reaction(reaction)
                &&& reaction.response is None
                &&& reaction.events.len() == 0
            }
        }),
{
}

/// What a server writes to its error output changes nothing, and the status with which it exits is
/// the one event.
pub proof fn law_other_products_are_handed_on<X>(tool: ToolView, line: ErrorMessage, status: X)
    ensures
        ({
            let (after, received) = tool.received(Product::<X>::Error(line));
            &&& after == tool
            &&& received matches Received::Reaction(reaction)
            &&& reaction.response is None
            &&& reaction.events.len() == 0
        }),
        ({
            let (after, received) = tool.received(Product::Exit(status));
            &&& after == tool
            &&& received matches Received::Reaction(reaction)
            &&& reaction.response is None
            &&& reaction.events == seq![EventView::Exit(status)]
        }),
        tool.recognizes(Product::<X>::Error(line)),
        tool.recognizes(Product::Exit(status)),
{
}

/// A tool recognizes the responses that it waits for, and the requests and notifications that its
/// server has handlers for.
pub proof fn law_messages_are_recognized_by_their_handlers<X>(tool: ToolView, message: Message)
    ensures
        match message.content.kind {
            Kind::Response(response) => tool.recognizes(Product::<X>::Output(message)) <==> exists|
                id: u64,
            |
                response.id@ == IdView::Num(JsonNumber::Integer(id as int))
                    && #[trigger] tool.client.awaiting.contains_key(id),
            Kind::Request(request) => tool.recognizes(Product::<X>::Output(message)) == {
                ||| request@.id is Some && tool.server.requests.contains_key(request@.method)
                ||| request@.id is None && tool.server.notifications.contains_key(request@.method)
            },
        },
{
    if let Kind::Response(response) = message.content.kind {
        if let Some(id) = tool.client.answered(response.id@) {
            assert(tool.client.awaiting.contains_key(id));
        }
    }
}

/// A reaction is a response and no event, or at most one event and no response.
pub proof fn law_reactions_hold_one_thing<X>(response: Option<ResponseView>, event: EventView<X>)
    ensures
        ReactionView::<X>::response(response).response == response,
        ReactionView::<X>::response(response).events.len() == 0,
        ReactionView::event(Some(event)).response is None,
        ReactionView::event(Some(event)).events == seq![event],
        ReactionView::<X>::event(None).response is None,
        ReactionView::<X>::event(None).events.len() == 0,
{
}

/// A new tool has asked for nothing, numbers its requests from 1 on, and serves requests to register
/// capabilities and nothing else.
pub proof fn law_new_tool_serves_registrations(state: StateView)
    ensures
        ({
            let tool = ToolView::in_state(state);
            &&& tool.state == state
            &&& tool.client.next_id == 1
            &&& tool.client.awaiting.dom() == Set::<u64>::empty()
            &&& tool.server.requests.dom() == set!["client/registerCapability"@]
            &&& tool.server.requests["client/registerCapability"@]
                == RequestHandler::RegisterCapability
            &&& tool.server.notifications.dom() == Set::<Seq<char>>::empty()
        }),
{
    let tool = ToolView::in_state(state);
    assert(tool.client.awaiting.dom() =~= Set::empty());
    assert(tool.server.requests.dom() =~= set!["client/registerCapability"@]);
    assert(tool.server.notifications.dom() =~= Set::empty());
}

/// Nothing is received of no products.
pub proof fn law_nothing_is_received_of_nothing<X>(tool: ToolView)
    ensures
        tool.received_all(Seq::<Product<X>>::empty()) == (
            tool,
            Seq::<ReactionView<X>>::empty(),
            None::<Received<X>>,
        ),
{
}

/// A state shows the root, what is kept, what the server answered and what is registered, as it holds
/// it.
pub proof fn law_states_show_what_they_hold(state: State, registration: Registration)
    ensures
        match state {
            State::Uninitialized { root_dir } => state@ == (StateView::Uninitialized { root_dir }),
            State::WaitingInitialization { directives } => state@ == (
            StateView::WaitingInitialization { directives: directives@ }),
            State::Running { server_state, registrations } => {
                &&& state@ matches StateView::Running { server_state: shown, registrations: views }
                &&& shown == *server_state
                &&& views.len() == registrations@.len()
                &&& forall|i: int|
                    0 <= i < views.len() ==> #[trigger] views[i] == registrations@[i]@
            },
            State::WaitingShutdown => state@ is WaitingShutdown,
            State::WaitingExit => state@ is WaitingExit,
        },
        registration@.id == registration.id@,
        registration@.method == registration.method@,
        match registration.register_options {
            Some(options) => registration@.register_options == Some(json::json_of(options)),
            None => registration@.register_options is None,
        },
{
}

/// An event, and a reaction, shows what it holds, part by part.
pub proof fn law_events_show_what_they_hold<X>(event: Event<X>, reaction: Reaction<X>)
    ensures
        match event {
            Event::SendDirectives(directives) => event@ == EventView::<X>::SendDirectives(
                directives@,
            ),
            Event::Error(error) => event@ == EventView::<X>::Error(error.state@),
            Event::DocumentSymbol(symbols) => event@ == EventView::<X>::DocumentSymbol(symbols),
            Event::Exit(status) => event@ == EventView::Exit(status),
        },
        match reaction.response {
            Some(response) => reaction@.response == Some(response@),
            None => reaction@.response is None,
        },
        reaction@.events.len() == reaction.events@.len(),
        forall|i: int|
            0 <= i < reaction.events@.len() ==> #[trigger] reaction@.events[i]
                == reaction.events@[i]@,
{
}

/// What is transmitted is what is returned: the requests one by one and the tool after them, or the
/// refusal with the state, which leaves the tool.
pub proof fn law_transmissions_are_returned_as_they_are(
    tool: ToolView,
    transmitted: Result<(ToolView, Seq<RequestView>), StateView>,
    after: ToolView,
    result: Result<Vec<RequestObject>, TransmissionError>,
)
    ensures
        tool::transmits(tool, transmitted, after, result) <==> match transmitted {
            Ok((expected, views)) => {
                &&& after == expected
                &&& result matches Ok(requests)
                &&& requests@.len() == views.len()
                &&& forall|i: int| 0 <= i < views.len() ==> #[trigger] requests@[i]@ == views[i]
            },
            Err(state) => {
                &&& after == tool
                &&& result matches Err(TransmissionError::InvalidState(error))
                &&& error.state@ == state
            },
        },
{
    if let (Ok((_, views)), Ok(requests)) = (transmitted, result) {
        let shown = tool::request_views(requests@);
        if shown == views {
            assert forall|i: int| 0 <= i < views.len() implies #[trigger] requests@[i]@
                == views[i] by {
                assert(shown[i] == requests@[i]@);
            }
        } else if requests@.len() == views.len() && forall|i: int|
            0 <= i < views.len() ==> #[trigger] requests@[i]@ == views[i] {
            assert(shown =~= views);
        }
    }
}

/// What is received is what is returned: the reactions one by one, the tool after them, and the
/// failure at which the reception stopped, if there was one.
pub proof fn law_receptions_are_returned_as_they_are<X>(
    receptions: Receptions<X>,
    tool: ToolView,
    products: Seq<Product<X>>,
    after: ToolView,
)
    requires
        receptions.follow(tool, products, after),
    ensures
        ({
            let (received, reactions, failure) = tool.received_all(products);
            &&& after == received
            &&& receptions.reactions@.len() == reactions.len()
            &&& forall|i: int|
                0 <= i < reactions.len() ==> #[trigger] receptions.reactions@[i]@ == reactions[i]
            &&& match failure {
                None => receptions.outcome is Ok,
                Some(Received::Predefined(error)) => receptions.outcome == Err::<
                    (),
                    ReceptionError,
                >(ReceptionError::ProcessResponse(ProcessResponseError::Predefined(error))),
                Some(Received::Serialize(text)) => {
                    &&& receptions.outcome matches Err(
                        ReceptionError::ProcessResponse(ProcessResponseError::Serialize(error)),
                    )
                    &&& json::error_text(error) == text
                },
                Some(Received::Reaction(_)) => false,
            }
        }),
{
    let (received, reactions, failure) = tool.received_all(products);
    let shown = receptions.reaction_views();
    assert forall|i: int| 0 <= i < reactions.len() implies #[trigger] receptions.reactions@[i]@
        == reactions[i] by {
        assert(shown[i] == receptions.reactions@[i]@);
    }
}

/// What one reception gave is shown as it is.
pub proof fn law_reception_is_shown_as_it_is<X>(
    reaction: Reaction<X>,
    predefined: PredefinedError,
    error: serde_json::Error,
)
    ensures
        tool::received_view(Ok(reaction)) == Some(Received::Reaction(reaction@)),
        tool::received_view::<X>(
            Err(ReceptionError::ProcessResponse(ProcessResponseError::Predefined(predefined))),
        ) == Some(Received::<X>::Predefined(predefined)),
        tool::received_view::<X>(
            Err(ReceptionError::ProcessResponse(ProcessResponseError::Serialize(error))),
        ) == Some(Received::<X>::Serialize(json::error_text(error))),
{
}

/// The steps of a state, by what was parsed.
pub proof fn law_states_step_by_what_was_parsed<X>(
    state: StateView,
    result: Result<InitializeResult, Seq<char>>,
    registrations: Result<Seq<RegistrationView>, Seq<char>>,
)
    ensures
        match (state, result) {
            (StateView::WaitingInitialization { directives }, Ok(answer)) => {
                state.initialized::<X>(result) == (
                    StateView::Running { server_state: answer, registrations: Seq::empty() },
                    Ok::<EventView<X>, Seq<char>>(
                        EventView::SendDirectives(seq![Directive::Initialized] + directives),
                    ),
                )
            },
            (StateView::WaitingInitialization { .. }, Err(text)) => state.initialized::<X>(result)
                == (state, Err::<EventView<X>, Seq<char>>(text)),
            _ => state.initialized::<X>(result) == (
                state,
                Ok::<EventView<X>, Seq<char>>(EventView::Error(state)),
            ),
        },
        state is WaitingShutdown ==> state.shut_down::<X>() == (
            StateView::WaitingExit,
            EventView::<X>::SendDirectives(seq![Directive::Exit]),
        ),
        state !is WaitingShutdown ==> state.shut_down::<X>() == (
            state,
            EventView::<X>::Error(state),
        ),
        match (state, registrations) {
            (StateView::Running { server_state, registrations: before }, Ok(added)) => {
                state.registered(registrations) == (
                    StateView::Running { server_state, registrations: before + added },
                    OutcomeView::Result(json::Json::Null),
                )
            },
            (StateView::Running { .. }, Err(text)) => state.registered(registrations) == (
                state,
                OutcomeView::invalid_params(text),
            ),
            _ => state.registered(registrations) == (state, OutcomeView::invalid_state()),
        },
{
}

/// What a tool sends on its own is requested directive by directive of its client; it waits for the
/// shutdown if it was running and that is among them. While it waits for the exit, it sends all the
/// same.
pub proof fn law_own_directives_are_requested(
    tool: ToolView,
    directives: Seq<Directive>,
    process_id: u32,
)
    ensures
        ({
            let (after, requests) = tool.sending(directives);
            &&& after.client == tool::sent(tool.client, directives).0
            &&& requests == tool::sent(tool.client, directives).1
            &&& after.server == tool.server
            &&& after.state == if tool.state is Running && directives.contains(
                Directive::Shutdown,
            ) {
                StateView::WaitingShutdown
            } else {
                tool.state
            }
        }),
        tool.state is WaitingExit ==> tool.transmitted_own(directives, process_id) == Ok::<
            (ToolView, Seq<RequestView>),
            StateView,
        >(tool.sending(directives)),
{
}

/// What follows from a parsed result is shown as it is.
pub proof fn law_parsed_results_are_shown_as_they_are<X>(
    event: Event<X>,
    registrations: Vec<Registration>,
    error: serde_json::Error,
)
    ensures
        lsp::event_view(Ok(event)) == Ok::<EventView<X>, Seq<char>>(event@),
        lsp::event_view::<X>(Err(error)) == Err::<EventView<X>, Seq<char>>(json::error_text(error)),
        lsp::registered_view(Ok(registrations)) matches Ok(views) && views.len()
            == registrations@.len() && forall|i: int|
            0 <= i < views.len() ==> #[trigger] views[i] == registrations@[i]@,
        lsp::registered_view(Err(error)) == Err::<Seq<RegistrationView>, Seq<char>>(
            json::error_text(error),
        ),
{
}

/// The texts of states, of events, and of the error of a state.
pub proof fn law_texts_of_states<X>(state: StateView, event: EventView<X>, error: InvalidStateError)
    ensures
        state.text() == match state {
            StateView::Uninitialized { .. } => "uninitialized"@,
            StateView::WaitingInitialization { .. } => "waiting initialization"@,
            StateView::Running { .. } => "running"@,
            StateView::WaitingShutdown => "waiting shutdown"@,
            StateView::WaitingExit => "waiting exit"@,
        },
        event.text() == match event {
            EventView::SendDirectives(_) => "send message"@,
            EventView::Error(_) => "error"@,
            EventView::DocumentSymbol(_) => ""@,
            EventView::Exit(_) => ""@,
        },
        error.text() == "Tool is in invalid state: "@ + error.state@.text(),
{
}

/// The texts of directives.
pub proof fn law_texts_of_directives(directive: Directive)
    ensures
        directive.text() == match directive {
            Directive::Initialized => "Initialized"@,
            Directive::Shutdown => "Shutdown"@,
            Directive::Exit => "Exit"@,
            Directive::DocumentSymbol(params) => "DocumentSymbol "@
                + protocol::document_symbol_debug_text(params.text_document.uri),
            Directive::OpenDoc(params) => "OpenDoc "@ + protocol::did_open_debug_text(
                params.text_document.uri,
                params.text_document.language_id@,
                params.text_document.version,
                params.text_document.text@,
            ),
            Directive::CloseDoc(params) => "CloseDoc "@ + protocol::did_close_debug_text(
                params.text_document.uri,
            ),
        },
{
}

/// Whatever value a registration is answered with, in any state, nothing follows from it.
pub proof fn law_answer_to_a_registration_is_of_no_consequence<X>(
    tool: ToolView,
    response: ResponseObject,
    id: u64,
    value: Value,
    message: Product<X>,
)
    requires
        response.id@ == IdView::Num(JsonNumber::Integer(id as int)),
        response.outcome == Outcome::Result(value),
        tool.client.awaiting.contains_key(id),
        tool.client.awaiting[id] == ResponseHandlers::Registration,
        message matches Product::Output(message) && message.content.kind == Kind::Response(response),
    ensures
        ({
            let (after, received) = tool.received(message);
            &&& after.server == tool.server
            &&& after.client.next_id == tool.client.next_id
            &&& after.client.awaiting == tool.client.awaiting.remove(id)
            &&& after.state == tool.state
            &&& received matches Received::Reaction(reaction)
            &&& reaction.response is None
            &&& reaction.events.len() == 0
        }),
{
}

/// The errors of a tool say what the errors say that they hold.
pub proof fn law_texts_of_tool_errors(
    write: WriteError,
    transmission: TransmissionError,
    reception: ReceptionError,
    creation: CreateToolError,
)
    ensures
        match write {
            WriteError::Serialize(error) => write.text() == json::error_text(error),
        },
        match transmission {
            TransmissionError::Tx(error) => transmission.text() == error.text(),
            TransmissionError::InvalidState(error) => transmission.text() == error.text(),
        },
        match reception {
            ReceptionError::Response(error) => reception.text() == error.text(),
            ReceptionError::ProcessResponse(error) => reception.text() == error.text(),
        },
        match creation {
            CreateToolError::InsertRequest(error) => creation.text() == error.text(),
        },
{
}

} // verus!
