//! What holds of every exchange of JSON-RPC objects.
use vstd::prelude::*;

use crate::json;
use crate::json::{Json, JsonNumber};
use crate::json_rpc;
use crate::json_rpc::{
    Answer, ClientView, ErrorObject, ErrorView, HandleNotification, HandleRequest, HandleResponse,
    Id, IdView, InsertRequestError, Kind, Outcome, OutcomeView, Params, ParamsView, PredefinedError,
    ProcessResponseError, Request, RequestObject, RequestView, ResponseError, ResponseObject,
    ResponseView, ServerView,
};
use crate::text;

verus! {

/// Parameters are the same after they were turned into a JSON value and back.
pub proof fn law_params_survive_as_a_value(params: ParamsView)
    ensures
        ParamsView::of(params.value()) == params,
{
}

/// A JSON value is the same after it was turned into parameters and back, unless it is a boolean, a
/// number or a string, which comes back as the one element of an array.
pub proof fn law_value_survives_as_params(value: Json)
    ensures
        ParamsView::of(value).value() == match value {
            Json::Null | Json::Array(_) | Json::Object(_) => value,
            _ => Json::Array(seq![value]),
        },
{
}

/// The ids before the free one are all taken, and there is a free one.
proof fn lemma_free_distance(taken: Set<u64>, start: u64, distance: nat)
    requires
        taken.finite(),
        taken.len() < 0x1_0000_0000_0000_0000,
        distance <= 0x1_0000_0000_0000_0000,
        forall|d: nat| d < distance ==> taken.contains(#[trigger] json_rpc::id_after(start, d)),
    ensures
        !taken.contains(
            json_rpc::id_after(start, json_rpc::free_distance(taken, start, distance)),
        ),
    decreases 0x1_0000_0000_0000_0000 - distance,
{
    if distance == 0x1_0000_0000_0000_0000 {
        json_rpc::lemma_taken_run(taken, start, distance);
    } else if taken.contains(json_rpc::id_after(start, distance)) {
        lemma_free_distance(taken, start, distance + 1);
    }
}

/// The id of a request belongs to no request that awaits a response, and to this one from now on;
/// the other requests keep waiting as they did.
///
/// It is the next number of the sequence, unless that one is still awaiting a response.
pub proof fn law_request_gets_a_fresh_id<H>(client: ClientView<H>, handlers: H)
    requires
        client.awaiting.dom().finite(),
        client.awaiting.dom().len() < 0x1_0000_0000_0000_0000,
    ensures
        ({
            let (after, id) = client.requested(Some(handlers));
            &&& id matches Some(id)
            &&& !client.awaiting.contains_key(id)
            &&& after.awaiting == client.awaiting.insert(id, handlers)
            &&& !client.awaiting.contains_key(client.next_id) ==> id == client.next_id
        }),
{
    lemma_free_distance(client.awaiting.dom(), client.next_id, 0);
}

/// A notification has no id, and no response is awaited.
pub proof fn law_notification_leaves_the_client<H>(client: ClientView<H>)
    ensures
        client.requested(None) == (client, None::<u64>),
{
}

/// The response to a request goes to the handlers of that request, and leaves the other requests
/// waiting as they did before it was made.
pub proof fn law_response_goes_to_its_request<H>(client: ClientView<H>, handlers: H)
    requires
        client.awaiting.dom().finite(),
        client.awaiting.dom().len() < 0x1_0000_0000_0000_0000,
    ensures
        ({
            let (after, id) = client.requested(Some(handlers));
            &&& id matches Some(id)
            &&& after.answered(IdView::of(id)) == Some(id)
            &&& after.awaiting[id] == handlers
            &&& after.without(id).awaiting == client.awaiting
        }),
{
    law_request_gets_a_fresh_id(client, handlers);
    let (after, id) = client.requested(Some(handlers));
    assert(after.without(id.unwrap()).awaiting =~= client.awaiting);
}

/// A response is handled at most once: another one with the same id changes nothing.
pub proof fn law_response_is_handled_once<S: View, O: View, H: HandleResponse<S, O>>(
    client: ClientView<H>,
    state: S::V,
    response: ResponseObject,
    later: S::V,
    again: ResponseObject,
)
    requires
        again.id@ == response.id@,
    ensures
        ({
            let after = client.responded::<S, O>(state, response).0;
            after.responded::<S, O>(later, again) == (after, later, Answer::<O::V>::Output(None))
        }),
{
}

/// A response takes no request but the one that it answers off those that await a response.
pub proof fn law_response_leaves_the_other_requests<S: View, O: View, H: HandleResponse<S, O>>(
    client: ClientView<H>,
    state: S::V,
    response: ResponseObject,
    id: u64,
)
    requires
        client.awaiting.contains_key(id),
        response.id@ != IdView::of(id),
    ensures
        ({
            let after = client.responded::<S, O>(state, response).0;
            after.awaiting.contains_key(id) && after.awaiting[id] == client.awaiting[id]
        }),
{
}

/// A response that answers no request changes nothing.
pub proof fn law_stray_response_is_ignored<S: View, O: View, H: HandleResponse<S, O>>(
    client: ClientView<H>,
    state: S::V,
    response: ResponseObject,
)
    requires
        forall|id: u64| response.id@ == #[trigger] IdView::of(id) ==> !client.awaiting.contains_key(id),
    ensures
        client.responded::<S, O>(state, response) == (client, state, Answer::<O::V>::Output(None)),
{
    if let IdView::Num(json::JsonNumber::Integer(number)) = response.id@ {
        if 0 <= number <= u64::MAX {
            assert(response.id@ == IdView::of(number as u64));
        }
    }
}

/// Every request is answered with its own id, and no notification is answered.
pub proof fn law_requests_and_only_requests_are_answered<
    S: View,
    Q: HandleRequest<S>,
    N: HandleNotification<S>,
>(server: ServerView<Q, N>, state: S::V, request: RequestView)
    ensures
        match (server.processed::<S>(state, request).1, request.id) {
            (Some(response), Some(id)) => response.id == id,
            (None, None) => true,
            _ => false,
        },
{
}

/// A request for a method that has no handler changes nothing, and is answered with a method not
/// found error.
pub proof fn law_unknown_method_is_refused<
    S: View,
    Q: HandleRequest<S>,
    N: HandleNotification<S>,
>(server: ServerView<Q, N>, state: S::V, request: RequestView)
    requires
        request.id is Some,
        !server.requests.contains_key(request.method),
    ensures
        ({
            let (after, response) = server.processed::<S>(state, request);
            &&& after == state
            &&& response matches Some(response)
            &&& response.outcome == OutcomeView::unknown_request()
        }),
{
}

/// A server that was made handles every request that it was made of with the handlers of that
/// request.
pub proof fn law_server_serves_its_requests<H, Q, N, R: Request<H, Q, N>>(
    requests: Seq<R>,
    index: int,
)
    requires
        0 <= index < requests.len(),
        json_rpc::server_of::<H, Q, N, R>(requests) is Ok,
    ensures
        ({
            let server = json_rpc::server_of::<H, Q, N, R>(requests)->Ok_0;
            let method = requests[index].method_spec();
            let handlers = requests[index].method_handlers_spec();
            &&& handlers.0 matches Some(handler) ==> server.requests.contains_key(method)
                && server.requests[method] == handler
            &&& handlers.1 matches Some(handler) ==> server.notifications.contains_key(method)
                && server.notifications[method] == handler
        }),
    decreases requests.len(),
{
    if index < requests.len() - 1 {
        law_server_serves_its_requests::<H, Q, N, R>(requests.drop_last(), index);
    }
}

/// Two requests whose methods are the same and that both have a handler for it cannot be served
/// together.
pub proof fn law_server_refuses_a_second_handler<H, Q, N, R: Request<H, Q, N>>(
    requests: Seq<R>,
    first: int,
    second: int,
)
    requires
        0 <= first < second < requests.len(),
        requests[first].method_spec() == requests[second].method_spec(),
        ({
            let one = requests[first].method_handlers_spec();
            let other = requests[second].method_handlers_spec();
            (one.0 is Some && other.0 is Some) || (one.1 is Some && other.1 is Some)
        }),
    ensures
        json_rpc::server_of::<H, Q, N, R>(requests) is Err,
    decreases requests.len(),
{
    let before = requests.drop_last();
    if second < requests.len() - 1 {
        law_server_refuses_a_second_handler::<H, Q, N, R>(before, first, second);
    } else if json_rpc::server_of::<H, Q, N, R>(before) is Ok {
        law_server_serves_its_requests::<H, Q, N, R>(before, first);
    }
}

/// An error object is an error predefined by the protocol if and only if its code is in the range
/// that the protocol reserves; any other is handed on as it is.
pub proof fn law_reserved_codes_are_predefined_errors(error: ErrorObject)
    ensures
        (ResponseError::of(error) is Predefined) == (-32768 <= error.code <= -32000),
        !(-32768 <= error.code <= -32000) ==> ResponseError::of(error)
            == ResponseError::Application(error),
{
}

/// The errors with which a server answers are sorted by the client that they reach as what they
/// are: an unknown method as one, wrong parameters as such, and a wrong state as an error of the
/// application.
pub proof fn law_answers_are_understood(error: ErrorObject, cause: Seq<char>)
    ensures
        OutcomeView::Error(error@) == OutcomeView::unknown_request() ==> ResponseError::of(error)
            == ResponseError::Predefined(PredefinedError::MethodNotFound(error.data)),
        OutcomeView::Error(error@) == OutcomeView::invalid_params(cause) ==> ResponseError::of(error)
            == ResponseError::Predefined(PredefinedError::InvalidParams(error.data)),
        OutcomeView::Error(error@) == OutcomeView::invalid_state() ==> ResponseError::of(error)
            == ResponseError::Application(error),
{
}

/// Parameters hold what the JSON value holds that they are made of: nothing for `null`, the elements
/// of an array, the fields of an object, and any other value as the one element of an array.
pub proof fn law_params_hold_what_the_value_holds(
    values: Seq<Json>,
    fields: Map<Seq<char>, Json>,
    value: Json,
)
    ensures
        ParamsView::of(Json::Null) == ParamsView::Absent,
        ParamsView::of(Json::Array(values)) == ParamsView::Array(values),
        ParamsView::of(Json::Object(fields)) == ParamsView::Object(fields),
        value is Bool || value is Number || value is String ==> ParamsView::of(value)
            == ParamsView::Array(seq![value]),
        ParamsView::Absent.value() == Json::Null,
        ParamsView::Array(values).value() == Json::Array(values),
        ParamsView::Object(fields).value() == Json::Object(fields),
{
}

/// A request holds the method, the parameters and the number of its id that it is made of.
pub proof fn law_request_holds_what_it_is_made_of(method: Seq<char>, value: Json, id: u64)
    ensures
        ({
            let request = RequestView::of(method, value, Some(id));
            &&& request.method == method
            &&& request.params == ParamsView::of(value)
            &&& request.id == Some(IdView::Num(JsonNumber::Integer(id as int)))
        }),
        ({
            let notification = RequestView::of(method, value, None);
            &&& notification.method == method
            &&& notification.params == ParamsView::of(value)
            &&& notification.id is None
        }),
        IdView::of(id) == IdView::Num(JsonNumber::Integer(id as int)),
{
}

/// What the objects of an exchange show is what they hold, part by part.
pub proof fn law_objects_show_what_they_hold(
    params: Params,
    id: Id,
    error: ErrorObject,
    outcome: Outcome,
    request: RequestObject,
    response: ResponseObject,
)
    ensures
        match params {
            Params::Absent => params@ == ParamsView::Absent,
            Params::Array(values) => {
                &&& params@ matches ParamsView::Array(held)
                &&& held.len() == values@.len()
                &&& forall|i: int|
                    0 <= i < held.len() ==> #[trigger] held[i] == json::json_of(values@[i])
            },
            Params::Object(fields) => params@ == ParamsView::Object(json::fields_of(fields)),
        },
        match id {
            Id::Null => id@ == IdView::Null,
            Id::Num(number) => id@ == IdView::Num(json::number_of(number)),
            Id::Str(string) => id@ == IdView::Str(string@),
        },
        error@.code == error.code,
        error@.message == error.message@,
        match error.data {
            Some(data) => error@.data == Some(json::json_of(data)),
            None => error@.data is None,
        },
        match outcome {
            Outcome::Result(value) => outcome@ == OutcomeView::Result(json::json_of(value)),
            Outcome::Error(error) => outcome@ == OutcomeView::Error(error@),
        },
        request@.method == request.method@,
        request@.params == request.params@,
        match request.id {
            Some(id) => request@.id == Some(id@),
            None => request@.id is None,
        },
        response@.outcome == response.outcome@,
        response@.id == response.id@,
{
}

/// The errors with which a server answers have these codes, messages and data.
pub proof fn law_answers_say_what_is_wrong(cause: Seq<char>)
    ensures
        OutcomeView::unknown_request() matches OutcomeView::Error(error) && error.code == -32601
            && error.message == "Method not found"@ && error.data is None,
        OutcomeView::invalid_state() matches OutcomeView::Error(error) && error.code == -127
            && error.message == "Invalid state"@ && error.data is None,
        OutcomeView::invalid_params(cause) matches OutcomeView::Error(error) && error.code == -32602
            && error.message == "Invalid method parameter(s)"@ && error.data == Some(
            Json::String(cause),
        ),
{
}

/// Every code of an error has its own meaning: five of them alone, a range for those of the server,
/// and the rest of what is reserved; the data, or the whole error, is handed on.
pub proof fn law_every_error_code_is_sorted(error: ErrorObject)
    ensures
        error.code < -32768 || -32000 < error.code ==> ResponseError::of(error)
            == ResponseError::Application(error),
        error.code == -32700 ==> ResponseError::of(error) == ResponseError::Predefined(
            PredefinedError::Parse(error.data),
        ),
        error.code == -32600 ==> ResponseError::of(error) == ResponseError::Predefined(
            PredefinedError::InvalidRequest(error.data),
        ),
        error.code == -32601 ==> ResponseError::of(error) == ResponseError::Predefined(
            PredefinedError::MethodNotFound(error.data),
        ),
        error.code == -32602 ==> ResponseError::of(error) == ResponseError::Predefined(
            PredefinedError::InvalidParams(error.data),
        ),
        error.code == -32603 ==> ResponseError::of(error) == ResponseError::Predefined(
            PredefinedError::Internal(error.data),
        ),
        -32099 <= error.code <= -32000 ==> ResponseError::of(error) == ResponseError::Predefined(
            PredefinedError::Server(error),
        ),
        -32768 <= error.code < -32099 && error.code != -32700 && !(-32603 <= error.code <= -32600)
            ==> ResponseError::of(error) == ResponseError::Predefined(
            PredefinedError::Reserved(error),
        ),
{
}

/// Counting on from the next number of the sequence, and from the largest on to 0, the first number
/// that awaits no response becomes the id; the sequence goes on behind it.
///
/// `tried` are the numbers that are tried, of which all but the last await a response.
pub proof fn law_request_takes_the_first_free_number<H>(
    client: ClientView<H>,
    handlers: H,
    tried: Seq<u64>,
)
    requires
        0 < tried.len() <= 0x1_0000_0000_0000_0000,
        tried[0] == client.next_id,
        forall|i: int, j: int|
            0 <= i && j == i + 1 && j < tried.len() ==> #[trigger] tried[j] == if #[trigger] tried[i]
                == u64::MAX {
                0
            } else {
                tried[i] + 1
            },
        forall|i: int|
            0 <= i < tried.len() - 1 ==> client.awaiting.contains_key(#[trigger] tried[i]),
        !client.awaiting.contains_key(tried.last()),
    ensures
        ({
            let id = tried.last();
            let (after, taken) = client.requested(Some(handlers));
            &&& taken == Some(id)
            &&& after.awaiting == client.awaiting.insert(id, handlers)
            &&& after.next_id == if id == u64::MAX {
                0
            } else {
                id + 1
            }
        }),
{
    let taken = client.awaiting.dom();
    let last = (tried.len() - 1) as nat;
    lemma_tried_numbers(client.next_id, tried, last as int);
    lemma_free_distance_is(taken, client.next_id, tried, 0);
}

/// The number one step further is the next one.
proof fn lemma_next_number(start: u64, distance: nat)
    ensures
        json_rpc::id_after(start, distance + 1) == if json_rpc::id_after(start, distance)
            == u64::MAX {
            0
        } else {
            json_rpc::id_after(start, distance) + 1
        },
{
}

/// The numbers that are tried follow each other from the first on.
proof fn lemma_tried_numbers(start: u64, tried: Seq<u64>, end: int)
    requires
        0 <= end < tried.len(),
        tried[0] == start,
        forall|i: int, j: int|
            0 <= i && j == i + 1 && j < tried.len() ==> #[trigger] tried[j] == if #[trigger] tried[i]
                == u64::MAX {
                0
            } else {
                tried[i] + 1
            },
    ensures
        forall|i: int| 0 <= i <= end ==> #[trigger] tried[i] == json_rpc::id_after(start, i as nat),
    decreases end,
{
    if end > 0 {
        lemma_tried_numbers(start, tried, end - 1);
        lemma_next_number(start, (end - 1) as nat);
        let (before, here) = (tried[end - 1], tried[end]);
        assert(before == json_rpc::id_after(start, (end - 1) as nat));
        assert(here == json_rpc::id_after(start, end as nat));
    }
}

/// The distance to the first free number is that of the last one that is tried.
proof fn lemma_free_distance_is(taken: Set<u64>, start: u64, tried: Seq<u64>, distance: nat)
    requires
        distance < tried.len() <= 0x1_0000_0000_0000_0000,
        forall|i: int|
            0 <= i < tried.len() ==> #[trigger] tried[i] == json_rpc::id_after(start, i as nat),
        forall|i: int| 0 <= i < tried.len() - 1 ==> taken.contains(#[trigger] tried[i]),
        !taken.contains(tried.last()),
    ensures
        json_rpc::free_distance(taken, start, distance) == tried.len() - 1,
    decreases tried.len() - distance,
{
    assert(tried[distance as int] == json_rpc::id_after(start, distance));
    if distance < tried.len() - 1 {
        lemma_free_distance_is(taken, start, tried, distance + 1);
    }
}

/// A response is handled by the handlers of the request whose number its id is, on all that it
/// holds: a result by the handler of results, an error of the application by that of errors, while a
/// predefined error is handed on and changes nothing. Either way no other response is awaited for
/// that request, and the other requests are as before.
pub proof fn law_response_is_handled_by_its_handlers<S: View, O: View, H: HandleResponse<S, O>>(
    client: ClientView<H>,
    state: S::V,
    response: ResponseObject,
    id: u64,
)
    requires
        response.id@ == IdView::Num(JsonNumber::Integer(id as int)),
        client.awaiting.contains_key(id),
    ensures
        ({
            let (after, then, answer) = client.responded::<S, O>(state, response);
            &&& after.next_id == client.next_id
            &&& after.awaiting == client.awaiting.remove(id)
            &&& match response.outcome {
                Outcome::Result(value) => {
                    let (expected, output) = client.awaiting[id].on_result(
                        state,
                        json::json_of(value),
                    );
                    &&& then == expected
                    &&& match output {
                        Some(Ok(output)) => answer == Answer::Output(Some(output)),
                        Some(Err(text)) => answer == Answer::<O::V>::Serialize(text),
                        None => answer == Answer::<O::V>::Output(None),
                    }
                },
                Outcome::Error(error) => if -32768 <= error.code <= -32000 {
                    &&& then == state
                    &&& answer matches Answer::Predefined(predefined)
                    &&& ResponseError::of(error) == ResponseError::Predefined(predefined)
                } else {
                    let (expected, output) = client.awaiting[id].on_error(state, error@);
                    then == expected && answer == Answer::Output(output)
                },
            }
        }),
{
}

/// A request goes to the handler of its method with all of its parameters, and a notification to the
/// one of its notifications; the outcome is that of the handler.
pub proof fn law_request_is_handled_by_its_handler<
    S: View,
    Q: HandleRequest<S>,
    N: HandleNotification<S>,
>(server: ServerView<Q, N>, state: S::V, request: RequestView)
    ensures
        ({
            let (after, response) = server.processed::<S>(state, request);
            &&& request.id is Some && server.requests.contains_key(request.method) ==> {
                let (expected, outcome) = server.requests[request.method].on_request(
                    state,
                    request.params,
                );
                &&& after == expected
                &&& response matches Some(response)
                &&& response.outcome == outcome
                &&& Some(response.id) == request.id
            }
            &&& request.id is None && server.notifications.contains_key(request.method) ==> {
                &&& after == server.notifications[request.method].on_notification(
                    state,
                    request.params,
                )
                &&& response is None
            }
            &&& request.id is None && !server.notifications.contains_key(request.method) ==> {
                after == state && response is None
            }
        }),
        server.handles(request) <==> {
            ||| request.id is Some && server.requests.contains_key(request.method)
            ||| request.id is None && server.notifications.contains_key(request.method)
        },
{
}

/// A server is made of requests one after the other: each adds its handlers, unless its method has
/// one already, which is the error, and which no later request changes.
pub proof fn law_server_is_made_request_by_request<H, Q, N, R: Request<H, Q, N>>(
    requests: Seq<R>,
    request: R,
)
    ensures
        json_rpc::server_of::<H, Q, N, R>(Seq::empty()) matches Ok(server) && server.requests
            =~= Map::empty() && server.notifications =~= Map::empty(),
        match json_rpc::server_of::<H, Q, N, R>(requests) {
            Ok(server) => {
                let method = request.method_spec();
                let (handler, notification_handler) = request.method_handlers_spec();
                let made = json_rpc::server_of::<H, Q, N, R>(requests.push(request));
                if handler is Some && server.requests.contains_key(method) {
                    made == Err::<ServerView<Q, N>, (Seq<char>, bool)>((method, true))
                } else if notification_handler is Some && server.notifications.contains_key(method) {
                    made == Err::<ServerView<Q, N>, (Seq<char>, bool)>((method, false))
                } else {
                    &&& made matches Ok(more)
                    &&& more.requests == match handler {
                        Some(handler) => server.requests.insert(method, handler),
                        None => server.requests,
                    }
                    &&& more.notifications == match notification_handler {
                        Some(handler) => server.notifications.insert(method, handler),
                        None => server.notifications,
                    }
                }
            },
            Err(error) => json_rpc::server_of::<H, Q, N, R>(requests.push(request)) == Err::<
                ServerView<Q, N>,
                (Seq<char>, bool),
            >(error),
        },
{
    assert(requests.push(request).drop_last() =~= requests);
}

/// Handlers are in conflict with those of a server where both are for the same method, requests
/// before notifications; adding handlers leaves those of the other methods.
pub proof fn law_handlers_are_kept_by_method<Q, N>(
    server: ServerView<Q, N>,
    method: Seq<char>,
    handlers: (Option<Q>, Option<N>),
)
    ensures
        server.conflict(method, handlers) == Some(true) <==> handlers.0 is Some
            && server.requests.contains_key(method),
        server.conflict(method, handlers) == Some(false) <==> !(handlers.0 is Some
            && server.requests.contains_key(method)) && handlers.1 is Some
            && server.notifications.contains_key(method),
        server.with(method, handlers).requests == match handlers.0 {
            Some(handler) => server.requests.insert(method, handler),
            None => server.requests,
        },
        server.with(method, handlers).notifications == match handlers.1 {
            Some(handler) => server.notifications.insert(method, handler),
            None => server.notifications,
        },
{
}

/// What processing gave is shown as it is.
pub proof fn law_outputs_are_shown_as_they_are<O: View>(
    output: O,
    predefined: PredefinedError,
    error: serde_json::Error,
)
    ensures
        json_rpc::optional_view(Some(output)) == Some(output@),
        json_rpc::optional_view(None::<O>) is None,
        json_rpc::optional_result_view(Some(Ok::<O, serde_json::Error>(output))) == Some(
            Ok::<O::V, Seq<char>>(output@),
        ),
        json_rpc::optional_result_view(Some(Err::<O, serde_json::Error>(error))) == Some(
            Err::<O::V, Seq<char>>(json::error_text(error)),
        ),
        json_rpc::optional_result_view(None::<Result<O, serde_json::Error>>) is None,
        json_rpc::answer_view(Ok::<Option<O>, ProcessResponseError>(Some(output)))
            == Answer::Output(Some(output@)),
        json_rpc::answer_view(Ok::<Option<O>, ProcessResponseError>(None)) == Answer::<
            O::V,
        >::Output(None),
        json_rpc::answer_view(
            Err::<Option<O>, ProcessResponseError>(ProcessResponseError::Predefined(predefined)),
        ) == Answer::<O::V>::Predefined(predefined),
        json_rpc::answer_view(
            Err::<Option<O>, ProcessResponseError>(ProcessResponseError::Serialize(error)),
        ) == Answer::<O::V>::Serialize(json::error_text(error)),
{
}

/// What was deserialized, or what the error says, is shown as it is.
pub proof fn law_parsed_values_are_shown_as_they_are<T>(value: T, error: serde_json::Error)
    ensures
        json::parsed(Ok::<T, serde_json::Error>(value)) == Ok::<T, Seq<char>>(value),
        json::parsed(Err::<T, serde_json::Error>(error)) == Err::<T, Seq<char>>(
            json::error_text(error),
        ),
{
}

/// The text of a request has its id, its method and its parameters, that of a notification its
/// method and its parameters; parameters and ids are written as they are.
pub proof fn law_texts_of_requests(
    request: RequestView,
    values: Seq<Json>,
    fields: Map<Seq<char>, Json>,
    number: int,
    text: Seq<char>,
)
    ensures
        match request.id {
            Some(id) => request.text() == "Request["@ + id.text() + "]: '"@ + request.method
                + "' w/ "@ + request.params.text(),
            None => request.text() == "Notification: '"@ + request.method + "' w/ "@
                + request.params.text(),
        },
        ParamsView::Absent.text() == "None"@,
        ParamsView::Array(values).text() == json::values_debug_text(values),
        ParamsView::Object(fields).text() == json::fields_debug_text(fields),
        IdView::Null.text() == "NULL"@,
        IdView::Num(JsonNumber::Integer(number)).text() == text::signed_decimal(number),
        IdView::Num(JsonNumber::Float(text)).text() == text,
        IdView::Str(text).text() == text,
{
}

/// The text of a response has its id and its outcome, which is the value or the code and the message
/// of the error.
pub proof fn law_texts_of_responses(
    response: ResponseView,
    value: Json,
    error: ErrorView,
    kind: Kind,
)
    ensures
        response.text() == "Response["@ + response.id.text() + "]: "@ + response.outcome.text(),
        OutcomeView::Result(value).text() == "Success "@ + json::json_text(value),
        OutcomeView::Error(error).text() == "Error["@ + text::signed_decimal(error.code as int)
            + "]: "@ + error.message,
        error.text() == "Error["@ + text::signed_decimal(error.code as int) + "]: "@ + error.message,
        match kind {
            Kind::Request(request) => kind.text() == request@.text(),
            Kind::Response(response) => kind.text() == response@.text(),
        },
{
}

/// The texts of the errors of an exchange.
pub proof fn law_texts_of_errors(
    predefined: PredefinedError,
    error: ResponseError,
    processing: ProcessResponseError,
    insertion: InsertRequestError,
)
    ensures
        predefined.text() == match predefined {
            PredefinedError::Parse(_) => "An error occurred while parsing the JSON text"@,
            PredefinedError::InvalidRequest(_) => "JSON is not a valid Request object"@,
            PredefinedError::MethodNotFound(_) => "The method does not exist/is not available"@,
            PredefinedError::InvalidParams(_) => "Invalid method parameter(s)"@,
            PredefinedError::Internal(_) => "Internal JSON-RPC error"@,
            PredefinedError::Server(_) => "Implementation-defined server error"@,
            PredefinedError::Reserved(_) => ""@,
        },
        match error {
            ResponseError::Predefined(held) => error.text() == held.text(),
            ResponseError::Application(held) => error.text() == held@.text(),
        },
        match processing {
            ProcessResponseError::Predefined(held) => processing.text() == held.text(),
            ProcessResponseError::Serialize(held) => processing.text() == json::error_text(held),
        },
        insertion.was_request ==> insertion.text() == "request"@ + " handler for `"@
            + insertion.method@ + "` already existed"@,
        !insertion.was_request ==> insertion.text() == "notification"@ + " handler for `"@
            + insertion.method@ + "` already existed"@,
{
}

} // verus!
