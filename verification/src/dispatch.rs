//! Sequential dispatch of one batch of call requests.
//!
//! The batch is processed strictly in order: the next request is resolved
//! against the registry, a request naming no registered tool is answered on
//! the spot with the fixed not-found message, and for a registered tool the
//! host is told to invoke the handler and hand the answer back.  Either way
//! the batch moves on: one request can never cut the batch short, and the
//! i-th result always answers the i-th request.

use crate::keyed;
use crate::tools::ToolCall;
use crate::tools::ToolCallResult;
use crate::tools::Tools;
use crate::tools::ToolsResults;
use vstd::prelude::*;
use vstd::string::StringExecFns;

verus! {

/// `r` answers the call with identifier `id` that named no registered tool.
pub open spec fn spec_not_found(id: Seq<char>, r: ToolCallResult) -> bool {
    &&& r.tool_call_id@ == id
    &&& r.content@ == "Tool not found"@
}

/// What the host is to do next with a dispatch in progress.
pub enum DispatchAction {
    /// Invoke the handler registered under `name` with this call identifier
    /// and encoded argument payload, and hand the handler's answer back
    /// through [`CallDispatch::provide_result`].
    Invoke {
        /// The identifier of the request being served.
        id: String,
        /// The name of the registered tool it asks for.
        name: String,
        /// The encoded argument payload to decode for the handler.
        arguments: String,
    },
    /// The current request named no registered tool; its result was
    /// recorded in place and the batch moved on.
    Resolved,
    /// Every request of the batch is answered.
    Done,
}

/// One batch of call requests and the results gathered so far, in request
/// order; request number `processed` is the next to be served.
pub struct CallDispatch {
    /// The batch, in the order the results keep.
    pub calls: Vec<ToolCall>,
    /// One result per processed request, in request order.
    pub results: ToolsResults,
}

impl CallDispatch {
    /// How many requests are answered so far.
    pub open spec fn processed(self) -> int {
        self.results.0@.len() as int
    }

    /// Every request of the batch is answered.
    pub open spec fn done(self) -> bool {
        self.processed() == self.calls@.len()
    }

    /// The dispatch invariant against the registry it is resolved with:
    /// results never outnumber requests, and every processed request that
    /// named no registered tool is answered by the fixed not-found result
    /// standing at the request's own position.
    pub open spec fn inv(self, tools: Tools) -> bool {
        &&& self.processed() <= self.calls@.len()
        &&& forall|i: int|
            0 <= i < self.processed() && !keyed::has_key(
                tools.0@,
                (#[trigger] self.calls@[i]).function.name@,
            ) ==> spec_not_found(self.calls@[i].id@, self.results.0@[i])
    }

    /// Start dispatching a batch: nothing is answered yet.
    pub fn new(calls: Vec<ToolCall>) -> (r: Self)
        ensures
            r.calls@ == calls@,
            r.processed() == 0,
            forall|tools: Tools| r.inv(tools),
    {
        CallDispatch { calls, results: ToolsResults::new() }
    }

    /// Resolve the next request against `tools`.  A request naming no
    /// registered tool is answered in place — its result carries the
    /// request's identifier and the fixed message — and the batch moves on;
    /// a request naming a registered tool is handed back as an
    /// [`DispatchAction::Invoke`] carrying that request's identifier, name
    /// and arguments, to be answered through
    /// [`CallDispatch::provide_result`].
    pub fn step(&mut self, tools: &Tools) -> (a: DispatchAction)
        requires
            tools.wf(),
            old(self).inv(*tools),
        ensures
            final(self).inv(*tools),
            final(self).calls == old(self).calls,
            old(self).done() ==> a is Done && *final(self) == *old(self),
            !old(self).done() ==> ({
                let call = old(self).calls@[old(self).processed()];
                if keyed::has_key(tools.0@, call.function.name@) {
                    &&& (a matches DispatchAction::Invoke { id, name, arguments } && id@
                        == call.id@ && name@ == call.function.name@ && arguments@
                        == call.function.arguments@)
                    &&& *final(self) == *old(self)
                } else {
                    &&& a is Resolved
                    &&& final(self).results.0@.len() == old(self).results.0@.len() + 1
                    &&& final(self).results.0@.drop_last() == old(self).results.0@
                    &&& spec_not_found(call.id@, final(self).results.0@.last())
                }
            }),
    {
        if self.results.0.len() == self.calls.len() {
            return DispatchAction::Done;
        }
        let idx = self.results.0.len();
        let id = self.calls[idx].id.clone();
        let name = self.calls[idx].function.name.clone();
        match tools.get_tool(&name) {
            Some(_) => {
                let arguments = self.calls[idx].function.arguments.clone();
                DispatchAction::Invoke { id, name, arguments }
            },
            None => {
                let r = ToolCallResult {
                    tool_call_id: id,
                    content: String::from_str("Tool not found"),
                };
                self.results.add_result(r);
                proof {
                    assert(self.results.0@.drop_last() =~= old(self).results.0@);
                }
                DispatchAction::Resolved
            },
        }
    }

    /// Record the handler's answer to the request currently being served —
    /// the one the last [`DispatchAction::Invoke`] named — and move on.
    pub fn provide_result(&mut self, tools: &Tools, result: ToolCallResult)
        requires
            old(self).inv(*tools),
            !old(self).done(),
            keyed::has_key(
                tools.0@,
                old(self).calls@[old(self).processed()].function.name@,
            ),
        ensures
            final(self).inv(*tools),
            final(self).calls == old(self).calls,
            final(self).results.0@ == old(self).results.0@.push(result),
    {
        self.results.add_result(result);
    }

    /// Hand the gathered results out, one per request and in request order
    /// once the batch is done.
    pub fn into_results(self) -> (r: ToolsResults)
        ensures
            r == self.results,
    {
        self.results
    }
}

/// Law: a finished batch holds exactly one result per request, in request
/// order, however long any handler took; and every request that named no
/// registered tool is answered at its own position by a result carrying the
/// request's identifier and the fixed not-found message — it aborted
/// nothing around it.
pub proof fn lemma_batch_complete(d: CallDispatch, tools: Tools)
    requires
        d.inv(tools),
        d.done(),
    ensures
        d.results.0@.len() == d.calls@.len(),
        forall|i: int|
            0 <= i < d.calls@.len() && !keyed::has_key(
                tools.0@,
                (#[trigger] d.calls@[i]).function.name@,
            ) ==> spec_not_found(d.calls@[i].id@, d.results.0@[i]),
{
}

} // verus!
