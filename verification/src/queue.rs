//! The handler queue: handlers wait in the order in which they were
//! registered, and each request uses up the one at the head.

use crate::handler::{Handler, HandlerView};
use crate::message::{failure_response, Request, RequestView, Response, ResponseView};
use queues::IsQueue;
use queues::Queue;
use vstd::prelude::*;

verus! {

/// The `Queue` of the crate `queues`. What a queue holds is known through
/// `queue_items`.
#[verifier::external_type_specification]
#[verifier::external_body]
#[verifier::reject_recursive_types(T)]
pub struct ExQueue<T: Clone>(Queue<T>);

/// The handlers that a queue holds, the oldest first.
pub uninterp spec fn queue_items(queue: Queue<Handler>) -> Seq<Handler>;

/// `Queue::new`: the queue it makes is empty.
#[verifier::external_body]
fn queue_new() -> (queue: Queue<Handler>)
    ensures
        queue_items(queue) == Seq::<Handler>::empty(),
{
    Queue::new()
}

/// `Queue::add`: the handler goes behind those that the queue holds. The
/// call cannot fail, so what it returns is dropped.
#[verifier::external_body]
fn queue_add(queue: &mut Queue<Handler>, handler: Handler)
    ensures
        queue_items(*final(queue)) == queue_items(*old(queue)).push(handler),
{
    let _ = queue.add(handler);
}

/// `Queue::remove`: the oldest handler leaves the queue and is returned. An
/// empty queue stays empty and gives an error, returned here as `None`.
#[verifier::external_body]
fn queue_remove(queue: &mut Queue<Handler>) -> (head: Option<Handler>)
    ensures
        queue_items(*old(queue)).len() == 0 ==> head.is_none() && queue_items(*final(queue))
            == queue_items(*old(queue)),
        queue_items(*old(queue)).len() > 0 ==> head == Some(queue_items(*old(queue))[0])
            && queue_items(*final(queue)) == queue_items(*old(queue)).drop_first(),
{
    queue.remove().ok()
}

/// `Queue::size`: how many handlers the queue holds.
#[verifier::external_body]
fn queue_size(queue: &Queue<Handler>) -> (size: usize)
    ensures
        size == queue_items(*queue).len(),
{
    queue.size()
}

/// The handler that the next request meets: the head of the queue, or the
/// fallback if the queue is empty.
pub open spec fn next_handler(waiting: Seq<HandlerView>) -> HandlerView {
    if waiting.len() == 0 {
        HandlerView::Fallback
    } else {
        waiting[0]
    }
}

/// The queue after a request has met its handler: the head is gone, whether
/// or not the request matched it. An empty queue stays empty.
pub open spec fn after_next(waiting: Seq<HandlerView>) -> Seq<HandlerView> {
    if waiting.len() == 0 {
        waiting
    } else {
        waiting.drop_first()
    }
}

/// The handler that meets the request at place `place` of a run that starts
/// with `waiting`: the handler at the same place, or the fallback once the
/// handlers have run out.
pub open spec fn handler_for(waiting: Seq<HandlerView>, place: int) -> HandlerView {
    if 0 <= place < waiting.len() {
        waiting[place]
    } else {
        HandlerView::Fallback
    }
}

/// The responses to `requests`, served in this order from `waiting`.
pub open spec fn responses(waiting: Seq<HandlerView>, requests: Seq<RequestView>) -> Seq<
    ResponseView,
> {
    Seq::new(requests.len(), |place: int| handler_for(waiting, place).respond(requests[place]))
}

/// The queue after `served` requests.
pub open spec fn after_serving(waiting: Seq<HandlerView>, served: nat) -> Seq<HandlerView> {
    if served >= waiting.len() {
        Seq::empty()
    } else {
        waiting.skip(served as int)
    }
}

/// What each of the handlers is.
pub open spec fn handler_views(handlers: Seq<Handler>) -> Seq<HandlerView> {
    handlers.map_values(|handler: Handler| handler@)
}

/// What each of the requests is.
pub open spec fn request_views(requests: Seq<Request>) -> Seq<RequestView> {
    requests.map_values(|request: Request| request@)
}

/// What each of the responses is.
pub open spec fn response_views(responses: Seq<Response>) -> Seq<ResponseView> {
    responses.map_values(|response: Response| response@)
}

/// The handlers that wait for requests, in the order of their registration.
pub struct HandlerQueue {
    queue: Queue<Handler>,
}

impl View for HandlerQueue {
    type V = Seq<HandlerView>;

    closed spec fn view(&self) -> Seq<HandlerView> {
        handler_views(queue_items(self.queue))
    }
}

impl HandlerQueue {
    /// An empty queue.
    pub fn new() -> (queue: HandlerQueue)
        ensures
            queue@ == Seq::<HandlerView>::empty(),
    {
        HandlerQueue { queue: queue_new() }
    }

    /// How many handlers wait.
    pub fn len(&self) -> (waiting: usize)
        ensures
            waiting == self@.len(),
    {
        queue_size(&self.queue)
    }

    /// Whether no handler waits.
    pub fn is_empty(&self) -> (empty: bool)
        ensures
            empty == (self@.len() == 0),
    {
        queue_size(&self.queue) == 0
    }

    /// Appends `handler` to the tail.
    pub fn register(&mut self, handler: Handler)
        ensures
            final(self)@ == old(self)@.push(handler@),
    {
        queue_add(&mut self.queue, handler);
    }

    /// Removes the head handler and returns it. From an empty queue nothing
    /// is removed and the fallback is returned.
    pub fn next_or_default(&mut self) -> (handler: Handler)
        ensures
            handler@ == next_handler(old(self)@),
            final(self)@ == after_next(old(self)@),
    {
        match queue_remove(&mut self.queue) {
            Some(handler) => handler,
            None => Handler::Fallback,
        }
    }

    /// Serves one request: the head handler is used up and answers it. With
    /// no handler waiting the answer is the failure response.
    pub fn dispatch(&mut self, request: &Request) -> (response: Response)
        ensures
            response@ == next_handler(old(self)@).respond(request@),
            final(self)@ == after_next(old(self)@),
    {
        let handler = self.next_or_default();
        handler.evaluate(request)
    }
}

/// Serves `requests` in their order from `handlers`, one handler for each
/// request, and returns the responses in the same order.
pub fn run_service(handlers: &mut HandlerQueue, requests: &Vec<Request>) -> (served: Vec<Response>)
    ensures
        response_views(served@) == responses(old(handlers)@, request_views(requests@)),
        final(handlers)@ == after_serving(old(handlers)@, requests@.len()),
{
    let mut served: Vec<Response> = Vec::new();
    let mut i: usize = 0;
    while i < requests.len()
        invariant
            i <= requests@.len(),
            response_views(served@) =~= responses(
                old(handlers)@,
                request_views(requests@).take(i as int),
            ),
            handlers@ == after_serving(old(handlers)@, i as nat),
        decreases requests@.len() - i,
    {
        let ghost before = response_views(served@);
        let response = handlers.dispatch(&requests[i]);
        served.push(response);
        i = i + 1;
        proof {
            assert(response_views(served@) =~= before.push(response@));
        }
    }
    served
}

/// Handlers answer in the order of their registration: where as many
/// requests arrive as handlers wait, and each request matches the handler
/// of its place, each request receives the configured response of that
/// handler, and no handler is left.
pub proof fn lemma_served_in_order(waiting: Seq<HandlerView>, requests: Seq<RequestView>)
    requires
        waiting.len() == requests.len(),
        forall|i: int| 0 <= i < waiting.len() ==> (#[trigger] waiting[i]).accepts(requests[i]),
    ensures
        responses(waiting, requests).len() == requests.len(),
        forall|i: int|
            0 <= i < waiting.len() ==> {
                &&& waiting[i] is Expect
                &&& #[trigger] responses(waiting, requests)[i]
                    == waiting[i]->Expect_0.configured_response()
            },
        after_serving(waiting, requests.len()) == Seq::<HandlerView>::empty(),
{
}

/// A request that arrives while no handler waits receives the failure
/// response, status 500 with an empty body, and the queue stays empty.
pub proof fn lemma_empty_queue_fails(request: RequestView)
    ensures
        next_handler(Seq::empty()).respond(request) == failure_response(),
        failure_response().status == 500,
        failure_response().body == Seq::<u8>::empty(),
        after_next(Seq::empty()) == Seq::<HandlerView>::empty(),
{
}

/// A request that does not match the head handler uses it up all the same,
/// and receives the failure response.
pub proof fn lemma_mismatch_consumes(waiting: Seq<HandlerView>, request: RequestView)
    requires
        waiting.len() > 0,
        !waiting[0].accepts(request),
    ensures
        next_handler(waiting).respond(request) == failure_response(),
        after_next(waiting) == waiting.drop_first(),
        after_next(waiting).len() == waiting.len() - 1,
{
}

/// A handler answers no more than one request: the request at place
/// `place` meets the handler registered at that place and no other, and
/// after it the handlers registered behind that place are the first to wait.
pub proof fn lemma_one_request_per_handler(waiting: Seq<HandlerView>, place: nat)
    requires
        place < waiting.len(),
    ensures
        next_handler(after_serving(waiting, place)) == waiting[place as int],
        after_serving(waiting, place + 1).len() == waiting.len() - place - 1,
        forall|k: int|
            0 <= k < waiting.len() - place - 1 ==> #[trigger] after_serving(waiting, place + 1)[k]
                == waiting[place + 1 + k],
{
}

} // verus!
