//! Results of asynchronous calls: a receiving end on which the response
//! arrives, and the context it belongs to.
use vstd::prelude::*;

use std::sync::mpsc::{Receiver, RecvTimeoutError};
use std::time::Duration;

verus! {

#[verifier::external_type_specification]
#[verifier::external_body]
#[verifier::reject_recursive_types(T)]
pub struct ExReceiver<T>(std::sync::mpsc::Receiver<T>);

/// A response to an asynchronous call, read from the bytes the native
/// library delivers.
pub trait CallResponse: Sized {
    /// The number of the callback that delivers the response.
    const ID: u32;

    /// Reads the response from the delivered bytes.
    fn parse(bytes: &[u8]) -> Self;
}

/// Inserting one more element at the front or at the back of a tuple.
pub trait TupleInsert<T> {
    /// The tuple with the element in front.
    type FrontInsert;

    /// The tuple with the element at the back.
    type BackInsert;

    /// The tuple with `insert` before its elements.
    fn front_insert(self, insert: T) -> Self::FrontInsert;

    /// The tuple with `insert` after its elements.
    fn back_insert(self, insert: T) -> Self::BackInsert;
}

/// The pending result of an asynchronous call.
#[must_use]
#[verifier::reject_recursive_types(M)]
pub struct CallResult<M: CallResponse, Ctx> {
    receiver: Receiver<M>,
    context: Ctx,
}

/// A pending call result together with values handed on to its handler.
#[must_use]
#[verifier::reject_recursive_types(M)]
pub struct CallResultAsync<M: CallResponse, Ctx, T: Clone> {
    vars: T,
    inner: CallResult<M, Ctx>,
}

/// Why waiting for a call result gave no response.
#[derive(Debug, Clone, Copy, PartialEq, Eq, Structural)]
pub enum CallResultError {
    /// No response arrived in time.
    Timeout,
    /// The sending side is gone and no response is left.
    Terminated,
}

/// What a bounded wait on a receiving end brought.
pub enum ReceiveOutcome<M> {
    /// A response arrived.
    Received(M),
    /// The time ran out first.
    TimedOut,
    /// Every sender is gone and nothing is left to receive.
    Disconnected,
}

/// Waits on `receiver` for at most `timeout`, through
/// `std::sync::mpsc::Receiver::recv_timeout`, and tells its three outcomes
/// apart. Nothing is claimed of which outcome comes: that depends on other
/// threads and on the time.
#[verifier::external_body]
fn receive_within<M>(receiver: &Receiver<M>, timeout: Duration) -> ReceiveOutcome<M> {
    match receiver.recv_timeout(timeout) {
        Ok(response) => ReceiveOutcome::Received(response),
        Err(RecvTimeoutError::Timeout) => ReceiveOutcome::TimedOut,
        Err(RecvTimeoutError::Disconnected) => ReceiveOutcome::Disconnected,
    }
}

/// The result of a wait with the given outcome.
pub open spec fn spec_wait_result<M>(outcome: ReceiveOutcome<M>) -> Result<M, CallResultError> {
    match outcome {
        ReceiveOutcome::Received(response) => Ok(response),
        ReceiveOutcome::TimedOut => Err(CallResultError::Timeout),
        ReceiveOutcome::Disconnected => Err(CallResultError::Terminated),
    }
}

/// The result of a wait with the given outcome: the response, or a time
/// out, or the end of the sending side.
pub fn wait_result<M>(outcome: ReceiveOutcome<M>) -> (r: Result<M, CallResultError>)
    ensures
        r == spec_wait_result(outcome),
{
    match outcome {
        ReceiveOutcome::Received(response) => Ok(response),
        ReceiveOutcome::TimedOut => Err(CallResultError::Timeout),
        ReceiveOutcome::Disconnected => Err(CallResultError::Terminated),
    }
}

impl<M: CallResponse, Ctx> CallResult<M, Ctx> {
    /// The receiving end the response arrives on.
    pub closed spec fn spec_receiver(&self) -> Receiver<M> {
        self.receiver
    }

    /// The context the call belongs to.
    pub closed spec fn spec_context(&self) -> Ctx {
        self.context
    }

    /// A pending result that waits on `receiver`, in `context`.
    pub fn new(receiver: Receiver<M>, context: Ctx) -> (r: Self)
        ensures
            r.spec_receiver() == receiver,
            r.spec_context() == context,
    {
        CallResult { receiver, context }
    }

    /// Hands `var` on to the handler of this result.
    pub fn add<J: Clone>(self, var: J) -> (r: CallResultAsync<M, Ctx, (J,)>)
        ensures
            r.spec_inner() == self,
            r.spec_vars() == (var,),
    {
        CallResultAsync { inner: self, vars: (var,) }
    }

    /// Waits at most `timeout` for the response: `Ok` with the response,
    /// `Err(Timeout)` when none came in time, `Err(Terminated)` when the
    /// sending side is gone.
    pub fn wait(self, timeout: Duration) -> (r: Result<M, CallResultError>)
        ensures
            exists|outcome: ReceiveOutcome<M>| r == spec_wait_result(outcome),
    {
        let outcome: ReceiveOutcome<M> = receive_within(&self.receiver, timeout);
        let r = wait_result(outcome);
        assert(r == spec_wait_result(outcome));
        r
    }

    /// The receiving end and the context, apart.
    pub fn into_parts(self) -> (parts: (Receiver<M>, Ctx))
        ensures
            parts == (self.spec_receiver(), self.spec_context()),
    {
        (self.receiver, self.context)
    }
}

impl<M: CallResponse, Ctx, T: Clone> CallResultAsync<M, Ctx, T> {
    /// The values handed on to the handler.
    pub closed spec fn spec_vars(&self) -> T {
        self.vars
    }

    /// The pending result.
    pub closed spec fn spec_inner(&self) -> CallResult<M, Ctx> {
        self.inner
    }
}

impl<InsertType> TupleInsert<InsertType> for () {
    type FrontInsert = (InsertType,);

    type BackInsert = (InsertType,);

    fn front_insert(self, insert: InsertType) -> (r: (InsertType,))
        ensures
            r == (insert,),
    {
        (insert,)
    }

    fn back_insert(self, insert: InsertType) -> (r: (InsertType,))
        ensures
            r == (insert,),
    {
        (insert,)
    }
}

impl<InsertType, A> TupleInsert<InsertType> for (A,) {
    type FrontInsert = (InsertType, A);

    type BackInsert = (A, InsertType);

    fn front_insert(self, insert: InsertType) -> (r: (InsertType, A))
        ensures
            r == (insert, self.0),
    {
        let (a,) = self;
        (insert, a)
    }

    fn back_insert(self, insert: InsertType) -> (r: (A, InsertType))
        ensures
            r == (self.0, insert),
    {
        let (a,) = self;
        (a, insert)
    }
}

impl<InsertType, A, B> TupleInsert<InsertType> for (A, B) {
    type FrontInsert = (InsertType, A, B);

    type BackInsert = (A, B, InsertType);

    fn front_insert(self, insert: InsertType) -> (r: (InsertType, A, B))
        ensures
            r == (insert, self.0, self.1),
    {
        let (a, b) = self;
        (insert, a, b)
    }

    fn back_insert(self, insert: InsertType) -> (r: (A, B, InsertType))
        ensures
            r == (self.0, self.1, insert),
    {
        let (a, b) = self;
        (a, b, insert)
    }
}

impl<InsertType, A, B, C> TupleInsert<InsertType> for (A, B, C) {
    type FrontInsert = (InsertType, A, B, C);

    type BackInsert = (A, B, C, InsertType);

    fn front_insert(self, insert: InsertType) -> (r: (InsertType, A, B, C))
        ensures
            r == (insert, self.0, self.1, self.2),
    {
        let (a, b, c) = self;
        (insert, a, b, c)
    }

    fn back_insert(self, insert: InsertType) -> (r: (A, B, C, InsertType))
        ensures
            r == (self.0, self.1, self.2, insert),
    {
        let (a, b, c) = self;
        (a, b, c, insert)
    }
}

impl<InsertType, A, B, C, D> TupleInsert<InsertType> for (A, B, C, D) {
    type FrontInsert = (InsertType, A, B, C, D);

    type BackInsert = (A, B, C, D, InsertType);

    fn front_insert(self, insert: InsertType) -> (r: (InsertType, A, B, C, D))
        ensures
            r == (insert, self.0, self.1, self.2, self.3),
    {
        let (a, b, c, d) = self;
        (insert, a, b, c, d)
    }

    fn back_insert(self, insert: InsertType) -> (r: (A, B, C, D, InsertType))
        ensures
            r == (self.0, self.1, self.2, self.3, insert),
    {
        let (a, b, c, d) = self;
        (a, b, c, d, insert)
    }
}

impl<InsertType, A, B, C, D, E> TupleInsert<InsertType> for (A, B, C, D, E) {
    type FrontInsert = (InsertType, A, B, C, D, E);

    type BackInsert = (A, B, C, D, E, InsertType);

    fn front_insert(self, insert: InsertType) -> (r: (InsertType, A, B, C, D, E))
        ensures
            r == (insert, self.0, self.1, self.2, self.3, self.4),
    {
        let (a, b, c, d, e) = self;
        (insert, a, b, c, d, e)
    }

    fn back_insert(self, insert: InsertType) -> (r: (A, B, C, D, E, InsertType))
        ensures
            r == (self.0, self.1, self.2, self.3, self.4, insert),
    {
        let (a, b, c, d, e) = self;
        (a, b, c, d, e, insert)
    }
}

impl<InsertType, A, B, C, D, E, F> TupleInsert<InsertType> for (A, B, C, D, E, F) {
    type FrontInsert = (InsertType, A, B, C, D, E, F);

    type BackInsert = (A, B, C, D, E, F, InsertType);

    fn front_insert(self, insert: InsertType) -> (r: (InsertType, A, B, C, D, E, F))
        ensures
            r == (insert, self.0, self.1, self.2, self.3, self.4, self.5),
    {
        let (a, b, c, d, e, f) = self;
        (insert, a, b, c, d, e, f)
    }

    fn back_insert(self, insert: InsertType) -> (r: (A, B, C, D, E, F, InsertType))
        ensures
            r == (self.0, self.1, self.2, self.3, self.4, self.5, insert),
    {
        let (a, b, c, d, e, f) = self;
        (a, b, c, d, e, f, insert)
    }
}

impl<InsertType, A, B, C, D, E, F, G> TupleInsert<InsertType> for (A, B, C, D, E, F, G) {
    type FrontInsert = (InsertType, A, B, C, D, E, F, G);

    type BackInsert = (A, B, C, D, E, F, G, InsertType);

    fn front_insert(self, insert: InsertType) -> (r: (InsertType, A, B, C, D, E, F, G))
        ensures
            r == (insert, self.0, self.1, self.2, self.3, self.4, self.5, self.6),
    {
        let (a, b, c, d, e, f, g) = self;
        (insert, a, b, c, d, e, f, g)
    }

    fn back_insert(self, insert: InsertType) -> (r: (A, B, C, D, E, F, G, InsertType))
        ensures
            r == (self.0, self.1, self.2, self.3, self.4, self.5, self.6, insert),
    {
        let (a, b, c, d, e, f, g) = self;
        (a, b, c, d, e, f, g, insert)
    }
}

impl<InsertType, A, B, C, D, E, F, G, H> TupleInsert<InsertType> for (A, B, C, D, E, F, G, H) {
    type FrontInsert = (InsertType, A, B, C, D, E, F, G, H);

    type BackInsert = (A, B, C, D, E, F, G, H, InsertType);

    fn front_insert(self, insert: InsertType) -> (r: (InsertType, A, B, C, D, E, F, G, H))
        ensures
            r == (insert, self.0, self.1, self.2, self.3, self.4, self.5, self.6, self.7),
    {
        let (a, b, c, d, e, f, g, h) = self;
        (insert, a, b, c, d, e, f, g, h)
    }

    fn back_insert(self, insert: InsertType) -> (r: (A, B, C, D, E, F, G, H, InsertType))
        ensures
            r == (self.0, self.1, self.2, self.3, self.4, self.5, self.6, self.7, insert),
    {
        let (a, b, c, d, e, f, g, h) = self;
        (a, b, c, d, e, f, g, h, insert)
    }
}

impl<InsertType, A, B, C, D, E, F, G, H, I> TupleInsert<InsertType> for (A, B, C, D, E, F, G, H, I) {
    type FrontInsert = (InsertType, A, B, C, D, E, F, G, H, I);

    type BackInsert = (A, B, C, D, E, F, G, H, I, InsertType);

    fn front_insert(self, insert: InsertType) -> (r: (InsertType, A, B, C, D, E, F, G, H, I))
        ensures
            r == (insert, self.0, self.1, self.2, self.3, self.4, self.5, self.6, self.7, self.8),
    {
        let (a, b, c, d, e, f, g, h, i) = self;
        (insert, a, b, c, d, e, f, g, h, i)
    }

    fn back_insert(self, insert: InsertType) -> (r: (A, B, C, D, E, F, G, H, I, InsertType))
        ensures
            r == (self.0, self.1, self.2, self.3, self.4, self.5, self.6, self.7, self.8, insert),
    {
        let (a, b, c, d, e, f, g, h, i) = self;
        (a, b, c, d, e, f, g, h, i, insert)
    }
}

impl<InsertType, A, B, C, D, E, F, G, H, I, J> TupleInsert<InsertType> for (A, B, C, D, E, F, G, H, I, J) {
    type FrontInsert = (InsertType, A, B, C, D, E, F, G, H, I, J);

    type BackInsert = (A, B, C, D, E, F, G, H, I, J, InsertType);

    fn front_insert(self, insert: InsertType) -> (r: (InsertType, A, B, C, D, E, F, G, H, I, J))
        ensures
            r == (insert, self.0, self.1, self.2, self.3, self.4, self.5, self.6, self.7, self.8, self.9),
    {
        let (a, b, c, d, e, f, g, h, i, j) = self;
        (insert, a, b, c, d, e, f, g, h, i, j)
    }

    fn back_insert(self, insert: InsertType) -> (r: (A, B, C, D, E, F, G, H, I, J, InsertType))
        ensures
            r == (self.0, self.1, self.2, self.3, self.4, self.5, self.6, self.7, self.8, self.9, insert),
    {
        let (a, b, c, d, e, f, g, h, i, j) = self;
        (a, b, c, d, e, f, g, h, i, j, insert)
    }
}

impl<InsertType, A, B, C, D, E, F, G, H, I, J, K> TupleInsert<InsertType> for (A, B, C, D, E, F, G, H, I, J, K) {
    type FrontInsert = (InsertType, A, B, C, D, E, F, G, H, I, J, K);

    type BackInsert = (A, B, C, D, E, F, G, H, I, J, K, InsertType);

    fn front_insert(self, insert: InsertType) -> (r: (InsertType, A, B, C, D, E, F, G, H, I, J, K))
        ensures
            r == (insert, self.0, self.1, self.2, self.3, self.4, self.5, self.6, self.7, self.8, self.9, self.10),
    {
        let (a, b, c, d, e, f, g, h, i, j, k) = self;
        (insert, a, b, c, d, e, f, g, h, i, j, k)
    }

    fn back_insert(self, insert: InsertType) -> (r: (A, B, C, D, E, F, G, H, I, J, K, InsertType))
        ensures
            r == (self.0, self.1, self.2, self.3, self.4, self.5, self.6, self.7, self.8, self.9, self.10, insert),
    {
        let (a, b, c, d, e, f, g, h, i, j, k) = self;
        (a, b, c, d, e, f, g, h, i, j, k, insert)
    }
}

impl<InsertType, A, B, C, D, E, F, G, H, I, J, K, L> TupleInsert<InsertType> for (A, B, C, D, E, F, G, H, I, J, K, L) {
    type FrontInsert = (InsertType, A, B, C, D, E, F, G, H, I, J, K, L);

    type BackInsert = (A, B, C, D, E, F, G, H, I, J, K, L, InsertType);

    fn front_insert(self, insert: InsertType) -> (r: (InsertType, A, B, C, D, E, F, G, H, I, J, K, L))
        ensures
            r == (insert, self.0, self.1, self.2, self.3, self.4, self.5, self.6, self.7, self.8, self.9, self.10, self.11),
    {
        let (a, b, c, d, e, f, g, h, i, j, k, l) = self;
        (insert, a, b, c, d, e, f, g, h, i, j, k, l)
    }

    fn back_insert(self, insert: InsertType) -> (r: (A, B, C, D, E, F, G, H, I, J, K, L, InsertType))
        ensures
            r == (self.0, self.1, self.2, self.3, self.4, self.5, self.6, self.7, self.8, self.9, self.10, self.11, insert),
    {
        let (a, b, c, d, e, f, g, h, i, j, k, l) = self;
        (a, b, c, d, e, f, g, h, i, j, k, l, insert)
    }
}

impl<InsertType, A, B, C, D, E, F, G, H, I, J, K, L, M> TupleInsert<InsertType> for (A, B, C, D, E, F, G, H, I, J, K, L, M) {
    type FrontInsert = (InsertType, A, B, C, D, E, F, G, H, I, J, K, L, M);

    type BackInsert = (A, B, C, D, E, F, G, H, I, J, K, L, M, InsertType);

    fn front_insert(self, insert: InsertType) -> (r: (InsertType, A, B, C, D, E, F, G, H, I, J, K, L, M))
        ensures
            r == (insert, self.0, self.1, self.2, self.3, self.4, self.5, self.6, self.7, self.8, self.9, self.10, self.11, self.12),
    {
        let (a, b, c, d, e, f, g, h, i, j, k, l, m) = self;
        (insert, a, b, c, d, e, f, g, h, i, j, k, l, m)
    }

    fn back_insert(self, insert: InsertType) -> (r: (A, B, C, D, E, F, G, H, I, J, K, L, M, InsertType))
        ensures
            r == (self.0, self.1, self.2, self.3, self.4, self.5, self.6, self.7, self.8, self.9, self.10, self.11, self.12, insert),
    {
        let (a, b, c, d, e, f, g, h, i, j, k, l, m) = self;
        (a, b, c, d, e, f, g, h, i, j, k, l, m, insert)
    }
}

impl<InsertType, A, B, C, D, E, F, G, H, I, J, K, L, M, N> TupleInsert<InsertType> for (A, B, C, D, E, F, G, H, I, J, K, L, M, N) {
    type FrontInsert = (InsertType, A, B, C, D, E, F, G, H, I, J, K, L, M, N);

    type BackInsert = (A, B, C, D, E, F, G, H, I, J, K, L, M, N, InsertType);

    fn front_insert(self, insert: InsertType) -> (r: (InsertType, A, B, C, D, E, F, G, H, I, J, K, L, M, N))
        ensures
            r == (insert, self.0, self.1, self.2, self.3, self.4, self.5, self.6, self.7, self.8, self.9, self.10, self.11, self.12, self.13),
    {
        let (a, b, c, d, e, f, g, h, i, j, k, l, m, n) = self;
        (insert, a, b, c, d, e, f, g, h, i, j, k, l, m, n)
    }

    fn back_insert(self, insert: InsertType) -> (r: (A, B, C, D, E, F, G, H, I, J, K, L, M, N, InsertType))
        ensures
            r == (self.0, self.1, self.2, self.3, self.4, self.5, self.6, self.7, self.8, self.9, self.10, self.11, self.12, self.13, insert),
    {
        let (a, b, c, d, e, f, g, h, i, j, k, l, m, n) = self;
        (a, b, c, d, e, f, g, h, i, j, k, l, m, n, insert)
    }
}

impl<InsertType, A, B, C, D, E, F, G, H, I, J, K, L, M, N, O> TupleInsert<InsertType> for (A, B, C, D, E, F, G, H, I, J, K, L, M, N, O) {
    type FrontInsert = (InsertType, A, B, C, D, E, F, G, H, I, J, K, L, M, N, O);

    type BackInsert = (A, B, C, D, E, F, G, H, I, J, K, L, M, N, O, InsertType);

    fn front_insert(self, insert: InsertType) -> (r: (InsertType, A, B, C, D, E, F, G, H, I, J, K, L, M, N, O))
        ensures
            r == (insert, self.0, self.1, self.2, self.3, self.4, self.5, self.6, self.7, self.8, self.9, self.10, self.11, self.12, self.13, self.14),
    {
        let (a, b, c, d, e, f, g, h, i, j, k, l, m, n, o) = self;
        (insert, a, b, c, d, e, f, g, h, i, j, k, l, m, n, o)
    }

    fn back_insert(self, insert: InsertType) -> (r: (A, B, C, D, E, F, G, H, I, J, K, L, M, N, O, InsertType))
        ensures
            r == (self.0, self.1, self.2, self.3, self.4, self.5, self.6, self.7, self.8, self.9, self.10, self.11, self.12, self.13, self.14, insert),
    {
        let (a, b, c, d, e, f, g, h, i, j, k, l, m, n, o) = self;
        (a, b, c, d, e, f, g, h, i, j, k, l, m, n, o, insert)
    }
}

impl<InsertType, A, B, C, D, E, F, G, H, I, J, K, L, M, N, O, P> TupleInsert<InsertType> for (A, B, C, D, E, F, G, H, I, J, K, L, M, N, O, P) {
    type FrontInsert = (InsertType, A, B, C, D, E, F, G, H, I, J, K, L, M, N, O, P);

    type BackInsert = (A, B, C, D, E, F, G, H, I, J, K, L, M, N, O, P, InsertType);

    fn front_insert(self, insert: InsertType) -> (r: (InsertType, A, B, C, D, E, F, G, H, I, J, K, L, M, N, O, P))
        ensures
            r == (insert, self.0, self.1, self.2, self.3, self.4, self.5, self.6, self.7, self.8, self.9, self.10, self.11, self.12, self.13, self.14, self.15),
    {
        let (a, b, c, d, e, f, g, h, i, j, k, l, m, n, o, p) = self;
        (insert, a, b, c, d, e, f, g, h, i, j, k, l, m, n, o, p)
    }

    fn back_insert(self, insert: InsertType) -> (r: (A, B, C, D, E, F, G, H, I, J, K, L, M, N, O, P, InsertType))
        ensures
            r == (self.0, self.1, self.2, self.3, self.4, self.5, self.6, self.7, self.8, self.9, self.10, self.11, self.12, self.13, self.14, self.15, insert),
    {
        let (a, b, c, d, e, f, g, h, i, j, k, l, m, n, o, p) = self;
        (a, b, c, d, e, f, g, h, i, j, k, l, m, n, o, p, insert)
    }
}

} // verus!
