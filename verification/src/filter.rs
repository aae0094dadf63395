//! Server-side filters: creation, single-shot polling, backlog fetch, and
//! explicit release.
//!
//! A filter is a node-held cursor over new blocks, pending transactions or
//! logs. The node assigns it an opaque id; the client polls that id for the
//! items accumulated since the previous poll. Nothing tears a filter down on
//! the node by itself, so the handle exposes an explicit release request that
//! every owner must issue on each exit path.

use vstd::prelude::*;

use crate::error::Error;
use crate::rpc::{method_name, spec_method_name, Dialect, Param, RpcCall, RpcOp, RpcOutcome};
use crate::types::LogFilter;

verus! {

/// What a filter watches, and therefore the shape its poll results decode
/// into: block hashes, transaction hashes, or structured log records.
#[derive(Debug, Clone, Copy, PartialEq, Eq, Structural)]
pub enum FilterKind {
    NewBlocks,
    NewPendingTransactions,
    NewLogs,
}

/// The operation that registers a filter of the given kind.
pub open spec fn create_op(kind: FilterKind) -> RpcOp {
    match kind {
        FilterKind::NewBlocks => RpcOp::NewBlockFilter,
        FilterKind::NewPendingTransactions => RpcOp::NewPendingTransactionFilter,
        FilterKind::NewLogs => RpcOp::NewLogFilter,
    }
}

/// The request that registers a block or pending-transaction filter. A log
/// filter additionally carries its criteria; see [`new_logs_filter_request`].
pub fn new_filter_request(dialect: Dialect, kind: FilterKind) -> (r: RpcCall)
    requires
        !(kind is NewLogs),
    ensures
        r.method@ == spec_method_name(dialect, create_op(kind)),
        r.params@ =~= Seq::<Param>::empty(),
{
    let op = match kind {
        FilterKind::NewBlocks => RpcOp::NewBlockFilter,
        FilterKind::NewPendingTransactions => RpcOp::NewPendingTransactionFilter,
        FilterKind::NewLogs => RpcOp::NewLogFilter,
    };
    RpcCall { method: method_name(dialect, op), params: Vec::new() }
}

/// The request that registers a log filter with the given criteria.
pub fn new_logs_filter_request(dialect: Dialect, criteria: LogFilter) -> (r: RpcCall)
    ensures
        r.method@ == spec_method_name(dialect, RpcOp::NewLogFilter),
        r.params@ =~= seq![Param::Logs(criteria)],
{
    let mut params: Vec<Param> = Vec::new();
    params.push(Param::Logs(criteria));
    RpcCall { method: method_name(dialect, RpcOp::NewLogFilter), params }
}

/// A handle to one registered server-side filter. It holds no poll cursor of
/// its own — the node keeps that, keyed on the id — so concurrent polls are
/// safe, merely independently rate-limited.
#[derive(Debug, Clone, PartialEq, Eq)]
pub struct BaseFilter {
    /// The node-assigned id, valid only as long as the node retains it.
    pub id: String,
    pub kind: FilterKind,
    pub dialect: Dialect,
}

impl BaseFilter {
    /// The request that polls this filter for the items accumulated since
    /// the previous poll. An empty batch in the reply is success, never an
    /// error.
    pub fn poll(&self) -> (r: RpcCall)
        ensures
            r.method@ == spec_method_name(self.dialect, RpcOp::PollFilter),
            r.params@ =~= seq![Param::FilterId(self.id)],
    {
        let mut params: Vec<Param> = Vec::new();
        params.push(Param::FilterId(self.id.clone()));
        RpcCall { method: method_name(self.dialect, RpcOp::PollFilter), params }
    }

    /// The request that fetches the full backlog of logs matching the
    /// filter's original criteria, independent of the poll cursor. Only a
    /// log filter has such a backlog.
    pub fn logs(&self) -> (r: RpcCall)
        requires
            self.kind is NewLogs,
        ensures
            r.method@ == spec_method_name(self.dialect, RpcOp::FilterLogs),
            r.params@ =~= seq![Param::FilterId(self.id)],
    {
        let mut params: Vec<Param> = Vec::new();
        params.push(Param::FilterId(self.id.clone()));
        RpcCall { method: method_name(self.dialect, RpcOp::FilterLogs), params }
    }

    /// The request that uninstalls the filter on the node. The owner must
    /// issue it on every exit path — success, error and cancellation — of any
    /// operation that created the filter, else the filter leaks until the
    /// node's own expiry reclaims it.
    pub fn release(&self) -> (r: RpcCall)
        ensures
            r.method@ == spec_method_name(self.dialect, RpcOp::UninstallFilter),
            r.params@ =~= seq![Param::FilterId(self.id)],
    {
        let mut params: Vec<Param> = Vec::new();
        params.push(Param::FilterId(self.id.clone()));
        RpcCall { method: method_name(self.dialect, RpcOp::UninstallFilter), params }
    }
}

/// Interprets the reply to a filter-creation request: a parsed id yields the
/// handle, a failed call a transport error, an unparsable id a decode error.
pub fn filter_created(dialect: Dialect, kind: FilterKind, outcome: RpcOutcome<String>) -> (r:
    Result<BaseFilter, Error>)
    ensures
        outcome matches RpcOutcome::Value(id) ==> r == Ok::<BaseFilter, Error>(
            BaseFilter { id, kind, dialect },
        ),
        outcome matches RpcOutcome::TransportFailed(m) ==> r == Err::<BaseFilter, Error>(
            Error::Transport(m),
        ),
        outcome matches RpcOutcome::DecodeFailed(m) ==> r == Err::<BaseFilter, Error>(
            Error::Decode(m),
        ),
{
    match outcome {
        RpcOutcome::Value(id) => Ok(BaseFilter { id, kind, dialect }),
        RpcOutcome::TransportFailed(m) => Err(Error::Transport(m)),
        RpcOutcome::DecodeFailed(m) => Err(Error::Decode(m)),
    }
}

/// Interprets the reply to one poll. The node reports the batch as an
/// optional array: an absent or empty array means "no new items", which is
/// success. A failed round trip is an error and is never passed off as an
/// empty batch; item order within a batch is the node's and is kept.
pub fn poll_items<I>(outcome: RpcOutcome<Option<Vec<I>>>) -> (r: Result<Vec<I>, Error>)
    ensures
        outcome matches RpcOutcome::Value(Some(items)) ==> r == Ok::<Vec<I>, Error>(items),
        outcome matches RpcOutcome::Value(None) ==> (r matches Ok(items) && items@
            =~= Seq::<I>::empty()),
        outcome matches RpcOutcome::TransportFailed(m) ==> r == Err::<Vec<I>, Error>(
            Error::Transport(m),
        ),
        outcome matches RpcOutcome::DecodeFailed(m) ==> r == Err::<Vec<I>, Error>(Error::Decode(m)),
{
    match outcome {
        RpcOutcome::Value(Some(items)) => Ok(items),
        RpcOutcome::Value(None) => Ok(Vec::new()),
        RpcOutcome::TransportFailed(m) => Err(Error::Transport(m)),
        RpcOutcome::DecodeFailed(m) => Err(Error::Decode(m)),
    }
}

/// The chain-specific filter namespace: registers filters under the
/// chain-specific dialect.
#[derive(Debug, Clone, PartialEq, Eq)]
pub struct HmyFilter {}

impl HmyFilter {
    pub fn new() -> (r: HmyFilter) {
        HmyFilter {}
    }

    /// Installs a new logs filter.
    pub fn create_logs_filter(&self, filter: LogFilter) -> (r: RpcCall)
        ensures
            r.method@ == "hmy_newFilter"@,
            r.params@ =~= seq![Param::Logs(filter)],
    {
        new_logs_filter_request(Dialect::Hmy, filter)
    }

    /// Installs a new block filter.
    pub fn create_blocks_filter(&self) -> (r: RpcCall)
        ensures
            r.method@ == "hmy_newBlockFilter"@,
            r.params@ =~= Seq::<Param>::empty(),
    {
        new_filter_request(Dialect::Hmy, FilterKind::NewBlocks)
    }

    /// Installs a new pending transactions filter.
    pub fn create_pending_transactions_filter(&self) -> (r: RpcCall)
        ensures
            r.method@ == "hmy_newPendingTransactionFilter"@,
            r.params@ =~= Seq::<Param>::empty(),
    {
        new_filter_request(Dialect::Hmy, FilterKind::NewPendingTransactions)
    }
}

} // verus!
