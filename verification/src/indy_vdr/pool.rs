//! The pool session: a connection handle that can be replaced or dropped,
//! the transaction set and node weights it was opened with, and the decisions
//! that surround every call on the handle.
//!
//! The session does not talk to the network. Whoever drives it performs the
//! calls on the live handle and tells the session what became of each of
//! them: whether the handle accepted the call, whether its callback fired,
//! and with what. The session decides, from its own state and from that
//! answer, what the caller gets back and what becomes of the handle.

use crate::indy_vdr::bridge::CallbackBridge;
use crate::indy_vdr::error::{ErrorCode, ErrorTag, ErrorView, VdrError};
use crate::indy_vdr::requests::{Request, RequestResult};
use crate::indy_vdr::transactions::{join_lines, join_records, texts, PoolTransactions};
use crate::indy_vdr::weights::NodeWeights;
use vstd::prelude::*;

verus! {

/// What became of a call on the connection handle: the handle refused it, or
/// accepted it with a bridge that its callback may or may not have fired.
pub type Call<T> = Result<CallbackBridge<T>, VdrError>;

/// What a connection handle answers to a refresh: the transactions that it
/// learned of beyond those it was built from, if any, or a failure.
pub type RefreshResult = Result<Option<PoolTransactions>, VdrError>;

/// What a connection handle answers to a request.
pub type RequestReply = Result<RequestResult<String>, VdrError>;

/// The table that `weights` holds, where there is one.
pub open spec fn weights_view(weights: Option<NodeWeights>) -> Option<Map<Seq<char>, u32>> {
    match weights {
        Some(table) => Some(table@),
        None => None,
    }
}

/// A copy of `weights` that holds the same table.
pub fn clone_weights(weights: &Option<NodeWeights>) -> (copy: Option<NodeWeights>)
    ensures
        weights_view(copy) == weights_view(*weights),
{
    match weights {
        Some(table) => Some(table.clone()),
        None => None,
    }
}

/// The transaction set that a refreshed handle is built from: the set the
/// session was opened with, followed by what the refresh brought.
pub open spec fn merged(init_txns: Seq<Seq<char>>, new_txns: Option<PoolTransactions>) -> Seq<
    Seq<char>,
> {
    match new_txns {
        Some(more) => init_txns + more@,
        None => init_txns,
    }
}

/// What a caller sees of a reply: the text, or the error's kind and message.
pub open spec fn reply_view(reply: Result<String, ErrorCode>) -> Result<Seq<char>, ErrorView> {
    match reply {
        Ok(text) => Ok(text@),
        Err(code) => Err(code@),
    }
}

/// What the waiting side of a call gets: the value that the callback fired
/// with, the translated refusal of the handle, or the channel error where the
/// callback never fired.
pub open spec fn call_outcome<T>(call: Call<T>) -> Result<T, ErrorView> {
    match call {
        Err(refusal) => Err(refusal.translated()),
        Ok(bridge) => match bridge.delivered() {
            Some(value) => Ok(value),
            None => Err(ErrorView::channel_closed()),
        },
    }
}

/// What a status query on a live handle gives for `call`.
pub open spec fn status_outcome(call: Call<Result<String, VdrError>>) -> Result<
    Seq<char>,
    ErrorView,
> {
    match call_outcome(call) {
        Ok(Ok(status)) => Ok(status@),
        Ok(Err(failure)) => Err(failure.translated()),
        Err(error) => Err(error),
    }
}

/// What a transaction listing on a live handle gives for `call`.
pub open spec fn transactions_outcome(call: Call<Result<Vec<String>, VdrError>>) -> Result<
    Seq<char>,
    ErrorView,
> {
    match call_outcome(call) {
        Ok(Ok(records)) => Ok(join_lines(texts(records@))),
        Ok(Err(failure)) => Err(failure.translated()),
        Err(error) => Err(error),
    }
}

/// What a request sent through a live handle gives for `call`.
pub open spec fn request_outcome(call: Call<RequestReply>) -> Result<Seq<char>, ErrorView> {
    match call_outcome(call) {
        Ok(Ok(RequestResult::Reply(body))) => Ok(body@),
        Ok(Ok(RequestResult::Failed(failure))) => Err(failure.translated()),
        Ok(Err(failure)) => Err(failure.translated()),
        Err(error) => Err(error),
    }
}

/// Collects the outcome of a call: what the callback delivered, or why
/// nothing was delivered.
pub fn await_call<T>(call: Call<T>) -> (outcome: Result<T, ErrorCode>)
    ensures
        match call_outcome(call) {
            Ok(value) => outcome == Ok::<T, ErrorCode>(value),
            Err(error) => outcome is Err && outcome->Err_0@ == error,
        },
{
    match call {
        Err(refusal) => Err(ErrorCode::from(refusal)),
        Ok(bridge) => bridge.wait(),
    }
}

/// Turns the pair that a callback hands over into the caller's result: the
/// reply where the pair is marked `Success`, else the error. `Success` itself
/// is never handed to the caller.
pub fn reply_outcome(errcode: ErrorCode, reply: String) -> (result: Result<String, ErrorCode>)
    ensures
        errcode is Success ==> result == Ok::<String, ErrorCode>(reply),
        errcode !is Success ==> result == Err::<String, ErrorCode>(errcode),
        result is Err ==> result->Err_0 !is Success,
{
    match errcode {
        ErrorCode::Success {  } => Ok(reply),
        other => Err(other),
    }
}

/// What the callback of a request hands over: `Success` and the reply body,
/// or the translated failure and an empty text. A request that the nodes
/// answered with a failure counts as failed, like one that never got through.
pub fn handle_request_result(result: RequestReply) -> (pair: (ErrorCode, String))
    ensures
        match result {
            Ok(RequestResult::Reply(body)) => pair.0 is Success && pair.1 == body,
            Ok(RequestResult::Failed(failure)) => pair.0@ == failure.translated() && pair.0
                !is Success && pair.1@ == Seq::<char>::empty(),
            Err(failure) => pair.0@ == failure.translated() && pair.0 !is Success && pair.1@
                == Seq::<char>::empty(),
        },
{
    match result {
        Ok(reply) => match reply {
            RequestResult::Reply(body) => (ErrorCode::Success {  }, body),
            RequestResult::Failed(err) => {
                let code = ErrorCode::from(err);
                (code, String::new())
            },
        },
        Err(err) => {
            let code = ErrorCode::from(err);
            (code, String::new())
        },
    }
}

/// What the callback of a status query hands over: `Success` and the status
/// text, or the translated failure and an empty text.
pub fn handle_status_result(result: Result<String, VdrError>) -> (pair: (ErrorCode, String))
    ensures
        match result {
            Ok(status) => pair.0 is Success && pair.1 == status,
            Err(failure) => pair.0@ == failure.translated() && pair.0 !is Success && pair.1@
                == Seq::<char>::empty(),
        },
{
    match result {
        Ok(status) => (ErrorCode::Success {  }, status),
        Err(err) => {
            let code = ErrorCode::from(err);
            (code, String::new())
        },
    }
}

/// What the callback of a transaction listing hands over: `Success` and the
/// records joined by line feeds, or the translated failure and an empty text.
pub fn handle_transactions_result(result: Result<Vec<String>, VdrError>) -> (pair: (
    ErrorCode,
    String,
))
    ensures
        match result {
            Ok(records) => pair.0 is Success && pair.1@ == join_lines(texts(records@)),
            Err(failure) => pair.0@ == failure.translated() && pair.0 !is Success && pair.1@
                == Seq::<char>::empty(),
        },
{
    match result {
        Ok(txns) => (ErrorCode::Success {  }, join_records(&txns)),
        Err(err) => {
            let code = ErrorCode::from(err);
            (code, String::new())
        },
    }
}

/// Where the transactions of a new session come from.
#[derive(Debug, PartialEq)]
pub enum TransactionsSource {
    /// The payload itself.
    Inline(String),
    /// The path of a file that holds the payload.
    Path(String),
}

/// The error with which opening fails before anything is read, if it does:
/// exactly one source must be given.
pub open spec fn source_failure(
    transactions_path: Option<String>,
    transactions: Option<String>,
) -> Option<ErrorView> {
    if transactions is Some && transactions_path is Some {
        Some(ErrorView::ambiguous_source())
    } else if transactions is None && transactions_path is None {
        Some(ErrorView::missing_source())
    } else {
        None
    }
}

/// Picks the source of a new session's transactions. Exactly one of the two
/// must be given: with neither, and with both, the call fails with an `Input`
/// error.
pub fn transactions_source(
    transactions_path: Option<String>,
    transactions: Option<String>,
) -> (result: Result<TransactionsSource, ErrorCode>)
    ensures
        match source_failure(transactions_path, transactions) {
            Some(error) => result is Err && result->Err_0@ == error,
            None => result == Ok::<TransactionsSource, ErrorCode>(
                match transactions {
                    Some(payload) => TransactionsSource::Inline(payload),
                    None => TransactionsSource::Path(transactions_path->0),
                },
            ),
        },
        result is Err ==> result->Err_0 is Input,
{
    match transactions {
        Some(payload) => match transactions_path {
            Some(_) => Err(ErrorCode::ambiguous_source()),
            None => Ok(TransactionsSource::Inline(payload)),
        },
        None => match transactions_path {
            Some(path) => Ok(TransactionsSource::Path(path)),
            None => Err(ErrorCode::missing_source()),
        },
    }
}

/// What a connection handle is to be built from.
#[derive(Debug, PartialEq)]
pub struct PoolBuilder {
    pub transactions: PoolTransactions,
    pub node_weights: Option<NodeWeights>,
    pub refreshed: bool,
}

impl PoolBuilder {
    /// A first build from `transactions`, with uniform weights.
    pub fn new(transactions: PoolTransactions) -> (builder: PoolBuilder)
        ensures
            builder == (PoolBuilder { transactions, node_weights: None, refreshed: false }),
    {
        PoolBuilder { transactions, node_weights: None, refreshed: false }
    }

    /// The same build with the given weights.
    pub fn node_weights(self, node_weights: Option<NodeWeights>) -> (builder: PoolBuilder)
        ensures
            builder == (PoolBuilder {
                transactions: self.transactions,
                node_weights,
                refreshed: self.refreshed,
            }),
    {
        PoolBuilder { transactions: self.transactions, node_weights, refreshed: self.refreshed }
    }

    /// The same build, marked as the build of a refresh or not.
    pub fn refreshed(self, flag: bool) -> (builder: PoolBuilder)
        ensures
            builder == (PoolBuilder {
                transactions: self.transactions,
                node_weights: self.node_weights,
                refreshed: flag,
            }),
    {
        PoolBuilder {
            transactions: self.transactions,
            node_weights: self.node_weights,
            refreshed: flag,
        }
    }

    /// Closes the build with what the connection layer made of it: the new
    /// handle together with the record of what it was built from, or the
    /// translated failure.
    pub fn into_runner<H>(self, built: Result<H, VdrError>) -> (result: Result<
        PoolRunner<H>,
        ErrorCode,
    >)
        ensures
            match built {
                Ok(handle) => result is Ok && result->Ok_0.built_from(
                    handle,
                    self.transactions@,
                    weights_view(self.node_weights),
                    self.refreshed,
                ),
                Err(failure) => result is Err && result->Err_0@ == failure.translated(),
            },
    {
        match built {
            Ok(handle) => Ok(
                PoolRunner {
                    handle,
                    transactions: self.transactions,
                    node_weights: self.node_weights,
                    refreshed: self.refreshed,
                },
            ),
            Err(err) => Err(ErrorCode::from(err)),
        }
    }
}

/// A connection handle: the live object of the connection layer, which this
/// crate never looks into, with the record of what it was built from.
#[derive(Debug, PartialEq)]
pub struct PoolRunner<H> {
    handle: H,
    transactions: PoolTransactions,
    node_weights: Option<NodeWeights>,
    refreshed: bool,
}

impl<H> PoolRunner<H> {
    /// The live object of the connection layer.
    pub closed spec fn spec_handle(&self) -> H {
        self.handle
    }

    /// The transactions that the handle was built from.
    pub closed spec fn spec_transactions(&self) -> Seq<Seq<char>> {
        self.transactions@
    }

    /// The node weights that the handle was built with.
    pub closed spec fn spec_node_weights(&self) -> Option<Map<Seq<char>, u32>> {
        weights_view(self.node_weights)
    }

    /// Whether the handle is the build of a refresh.
    pub closed spec fn spec_refreshed(&self) -> bool {
        self.refreshed
    }

    /// Whether this is the handle `handle`, built from `transactions` and
    /// `node_weights`, as a first build or as that of a refresh.
    pub open spec fn built_from(
        &self,
        handle: H,
        transactions: Seq<Seq<char>>,
        node_weights: Option<Map<Seq<char>, u32>>,
        refreshed: bool,
    ) -> bool {
        &&& self.spec_handle() == handle
        &&& self.spec_transactions() == transactions
        &&& self.spec_node_weights() == node_weights
        &&& self.spec_refreshed() == refreshed
    }

    /// The live object of the connection layer.
    pub fn handle(&self) -> (handle: &H)
        ensures
            *handle == self.spec_handle(),
    {
        &self.handle
    }

    /// The transactions that the handle was built from.
    pub fn transactions(&self) -> (transactions: &PoolTransactions)
        ensures
            transactions@ == self.spec_transactions(),
    {
        &self.transactions
    }

    /// The node weights that the handle was built with.
    pub fn node_weights(&self) -> (node_weights: &Option<NodeWeights>)
        ensures
            weights_view(*node_weights) == self.spec_node_weights(),
    {
        &self.node_weights
    }

    /// Whether the handle is the build of a refresh.
    pub fn is_refreshed(&self) -> (refreshed: bool)
        ensures
            refreshed == self.spec_refreshed(),
    {
        self.refreshed
    }
}

/// The build of a refreshed handle: the set the session was opened with,
/// with what the refresh brought appended to a copy of it, the session's
/// node weights, and the mark of a refresh.
pub fn refresh_builder(
    init_txns: PoolTransactions,
    new_txns: Option<PoolTransactions>,
    node_weights: Option<NodeWeights>,
) -> (builder: PoolBuilder)
    ensures
        builder.transactions@ == merged(init_txns@, new_txns),
        builder.node_weights == node_weights,
        builder.refreshed,
{
    let txns = match new_txns {
        Some(new_txns) => {
            let mut txn = init_txns.clone();
            txn.extend(&new_txns);
            txn
        },
        None => init_txns,
    };
    PoolBuilder::new(txns).node_weights(node_weights).refreshed(true)
}

/// Merges what a refresh brought onto the set the session was opened with
/// and closes the build of the new handle with what the connection layer
/// made of it. Always a handle or an error: a refresh that brought nothing
/// still rebuilds.
pub fn handle_pool_refresh<H>(
    init_txns: PoolTransactions,
    new_txns: Option<PoolTransactions>,
    node_weights: Option<NodeWeights>,
    built: Result<H, VdrError>,
) -> (result: Result<Option<PoolRunner<H>>, ErrorCode>)
    ensures
        match built {
            Ok(handle) => result is Ok && result->Ok_0 is Some && result->Ok_0->0.built_from(
                handle,
                merged(init_txns@, new_txns),
                weights_view(node_weights),
                true,
            ),
            Err(failure) => result is Err && result->Err_0@ == failure.translated(),
        },
{
    let builder = refresh_builder(init_txns, new_txns, node_weights);
    match builder.into_runner(built) {
        Ok(runner) => Ok(Some(runner)),
        Err(code) => Err(code),
    }
}

/// The error with which opening a session fails, if it does: a bad choice of
/// source, then a source that could not be read, then a handle that could
/// not be built.
pub open spec fn open_failure<H>(
    transactions_path: Option<String>,
    transactions: Option<String>,
    loaded: Result<PoolTransactions, VdrError>,
    built: Result<H, VdrError>,
) -> Option<ErrorView> {
    match source_failure(transactions_path, transactions) {
        Some(error) => Some(error),
        None => match loaded {
            Err(failure) => Some(failure.translated()),
            Ok(_) => match built {
                Err(failure) => Some(failure.translated()),
                Ok(_) => None,
            },
        },
    }
}

/// Opens a session. Exactly one of `transactions_path` and `transactions`
/// must be given; `loaded` is what reading the transactions from the chosen
/// source gave, and `built` what the connection layer made of building a
/// handle from them and from `node_weights`.
///
/// The session keeps the transactions and the weights it was opened with,
/// and its handle is live.
pub fn open_pool<H>(
    transactions_path: Option<String>,
    transactions: Option<String>,
    node_weights: Option<NodeWeights>,
    loaded: Result<PoolTransactions, VdrError>,
    built: Result<H, VdrError>,
) -> (result: Result<Pool<H>, ErrorCode>)
    ensures
        match open_failure(transactions_path, transactions, loaded, built) {
            Some(error) => result is Err && result->Err_0@ == error,
            None => result is Ok && result->Ok_0.opened_with(
                built->Ok_0,
                loaded->Ok_0@,
                weights_view(node_weights),
            ),
        },
        result is Err ==> result->Err_0 !is Success,
{
    match transactions_source(transactions_path, transactions) {
        Err(code) => Err(code),
        Ok(_) => match loaded {
            Err(err) => Err(ErrorCode::from(err)),
            Ok(txns) => {
                let builder = PoolBuilder::new(txns.clone()).node_weights(
                    clone_weights(&node_weights),
                );
                match builder.into_runner(built) {
                    Err(code) => Err(code),
                    Ok(runner) => Ok(Pool::new(Some(runner), txns, node_weights)),
                }
            },
        },
    }
}

/// The session: at most one live connection handle, and the transactions
/// and node weights that the session was opened with, from which every
/// refreshed handle is rebuilt.
#[derive(Debug, PartialEq)]
pub struct Pool<H> {
    pool: Option<PoolRunner<H>>,
    init_txns: PoolTransactions,
    node_weights: Option<NodeWeights>,
}

impl<H> Pool<H> {
    /// The live connection handle, if the session has one.
    pub closed spec fn live(&self) -> Option<PoolRunner<H>> {
        self.pool
    }

    /// What the session keeps from its opening to its end: the transactions
    /// and the node weights it was opened with.
    pub closed spec fn retained(&self) -> (PoolTransactions, Option<NodeWeights>) {
        (self.init_txns, self.node_weights)
    }

    /// The transactions that the session was opened with.
    pub open spec fn spec_init_txns(&self) -> Seq<Seq<char>> {
        self.retained().0@
    }

    /// The node weights that the session was opened with.
    pub open spec fn spec_node_weights(&self) -> Option<Map<Seq<char>, u32>> {
        weights_view(self.retained().1)
    }

    /// Whether the session has a live connection handle.
    pub open spec fn spec_is_active(&self) -> bool {
        self.live() is Some
    }

    /// Whether this is a session as `open_pool` leaves it: opened with
    /// `transactions` and `node_weights`, its live handle `handle` a first
    /// build from exactly those.
    pub open spec fn opened_with(
        &self,
        handle: H,
        transactions: Seq<Seq<char>>,
        node_weights: Option<Map<Seq<char>, u32>>,
    ) -> bool {
        &&& self.live() is Some
        &&& self.live()->0.built_from(handle, transactions, node_weights, false)
        &&& self.spec_init_txns() == transactions
        &&& self.spec_node_weights() == node_weights
    }

    /// Whether this is `before` as `close` leaves it: without a handle, and
    /// otherwise the same.
    pub open spec fn closed_from(&self, before: Pool<H>) -> bool {
        &&& self.live() is None
        &&& self.retained() == before.retained()
    }

    /// What a status query on this session gives for `call`.
    pub open spec fn status_reply(&self, call: Call<Result<String, VdrError>>) -> Result<
        Seq<char>,
        ErrorView,
    > {
        if self.is_active() {
            status_outcome(call)
        } else {
            Err(ErrorView::closed_pool())
        }
    }

    /// What a transaction listing on this session gives for `call`.
    pub open spec fn transactions_reply(
        &self,
        call: Call<Result<Vec<String>, VdrError>>,
    ) -> Result<Seq<char>, ErrorView> {
        if self.is_active() {
            transactions_outcome(call)
        } else {
            Err(ErrorView::closed_pool())
        }
    }

    /// What submitting a request through this session gives for `call`,
    /// where `pending` says whether the request still held its payload.
    pub open spec fn request_reply(&self, pending: bool, call: Call<RequestReply>) -> Result<
        Seq<char>,
        ErrorView,
    > {
        if !pending {
            Err(ErrorView::consumed_request())
        } else if !self.is_active() {
            Err(ErrorView::closed_pool())
        } else {
            request_outcome(call)
        }
    }

    /// What the refresh brought, where it got as far as an answer.
    pub open spec fn refresh_update(call: Call<RefreshResult>) -> Option<PoolTransactions> {
        match call_outcome(call) {
            Ok(Ok(update)) => update,
            _ => None,
        }
    }

    /// The error with which a refresh of this session fails, if it does: no
    /// live handle, a call that gave no answer, a failure reported by the
    /// handle, and only then a handle that could not be rebuilt.
    pub open spec fn refresh_failure(
        &self,
        call: Call<RefreshResult>,
        built: Result<H, VdrError>,
    ) -> Option<ErrorView> {
        if !self.is_active() {
            Some(ErrorView::closed_pool())
        } else {
            match call_outcome(call) {
                Err(error) => Some(error),
                Ok(Err(failure)) => Some(failure.translated()),
                Ok(Ok(_)) => match built {
                    Err(failure) => Some(failure.translated()),
                    Ok(_) => None,
                },
            }
        }
    }

    /// Whether this is `before` as `refresh` leaves it for `call` and
    /// `built`: untouched where the refresh fails; else with `built` as its
    /// live handle, rebuilt from the set that `before` was opened with
    /// followed by what the refresh brought, and otherwise the same.
    pub open spec fn refreshed_from(
        &self,
        before: Pool<H>,
        call: Call<RefreshResult>,
        built: Result<H, VdrError>,
    ) -> bool {
        if before.refresh_failure(call, built) is Some {
            *self == before
        } else {
            &&& self.live() is Some
            &&& self.live()->0.built_from(
                built->Ok_0,
                merged(before.spec_init_txns(), Self::refresh_update(call)),
                before.spec_node_weights(),
                true,
            )
            &&& self.retained() == before.retained()
        }
    }

    /// A session with the given handle, or none, that was opened with
    /// `init_txns` and `node_weights`.
    pub fn new(
        pool: Option<PoolRunner<H>>,
        init_txns: PoolTransactions,
        node_weights: Option<NodeWeights>,
    ) -> (session: Pool<H>)
        ensures
            session.live() == pool,
            session.retained() == (init_txns, node_weights),
    {
        Pool { pool, init_txns, node_weights }
    }

    /// Whether the session has a live connection handle.
    #[verifier::when_used_as_spec(spec_is_active)]
    pub fn is_active(&self) -> (active: bool)
        ensures
            active == self.spec_is_active(),
    {
        self.pool.is_some()
    }

    /// The transactions that the session was opened with.
    pub fn init_txns(&self) -> (init_txns: &PoolTransactions)
        ensures
            init_txns@ == self.spec_init_txns(),
    {
        &self.init_txns
    }

    /// The node weights that the session was opened with.
    pub fn node_weights(&self) -> (node_weights: &Option<NodeWeights>)
        ensures
            weights_view(*node_weights) == self.spec_node_weights(),
    {
        &self.node_weights
    }

    /// The live connection handle, or the error of a session that has none.
    pub fn runner(&self) -> (result: Result<&PoolRunner<H>, ErrorCode>)
        ensures
            match self.live() {
                Some(runner) => result is Ok && *result->Ok_0 == runner,
                None => result is Err && result->Err_0@ == ErrorView::closed_pool(),
            },
    {
        match &self.pool {
            Some(runner) => Ok(runner),
            None => Err(ErrorCode::closed_pool()),
        }
    }

    /// Makes `runner` the live handle, dropping the one before it. Without a
    /// new handle the session stays as it is.
    pub fn install(&mut self, runner: Option<PoolRunner<H>>)
        ensures
            final(self).live() == (if runner is Some {
                runner
            } else {
                old(self).live()
            }),
            final(self).retained() == old(self).retained(),
            runner is None ==> *final(self) == *old(self),
    {
        if let Some(runner) = runner {
            self.pool = Some(runner);
        }
    }

    /// Refreshes the session. `call` is what became of the refresh call on
    /// the live handle, and `built` what the connection layer made of
    /// building a new handle from the merged transactions; `built` counts
    /// only where the refresh got that far.
    ///
    /// On success the new handle is live: it is rebuilt from the set the
    /// session was opened with, followed by what the refresh brought, also
    /// where it brought nothing. On failure the session is untouched and the
    /// error is the caller's to handle.
    pub fn refresh(&mut self, call: Call<RefreshResult>, built: Result<H, VdrError>) -> (result:
        Result<(), ErrorCode>)
        ensures
            final(self).refreshed_from(*old(self), call, built),
            match old(self).refresh_failure(call, built) {
                Some(error) => result is Err && result->Err_0@ == error,
                None => result is Ok,
            },
            result is Err ==> result->Err_0 !is Success,
    {
        let init_txns = self.init_txns.clone();
        let node_weights = clone_weights(&self.node_weights);
        if let Err(code) = self.runner() {
            return Err(code);
        }
        let answer = match await_call(call) {
            Ok(answer) => answer,
            Err(code) => {
                return Err(code);
            },
        };
        let rebuilt = match answer {
            Ok(new_txns) => handle_pool_refresh(init_txns, new_txns, node_weights, built),
            Err(err) => Err(ErrorCode::from(err)),
        };
        match rebuilt {
            Ok(runner) => {
                self.install(runner);
                Ok(())
            },
            Err(code) => Err(code),
        }
    }

    /// Asks the session for the status of the pool. `call` is what became of
    /// the status call on the live handle; the status arrives as text.
    pub fn get_status(&self, call: Call<Result<String, VdrError>>) -> (result: Result<
        String,
        ErrorCode,
    >)
        ensures
            reply_view(result) == self.status_reply(call),
            result is Err ==> result->Err_0 !is Success,
    {
        if let Err(code) = self.runner() {
            return Err(code);
        }
        match await_call(call) {
            Ok(answer) => {
                let (errcode, reply) = handle_status_result(answer);
                reply_outcome(errcode, reply)
            },
            Err(code) => Err(code),
        }
    }

    /// Asks the session for the transactions of the pool, as one text with a
    /// line feed between each two records. `call` is what became of the
    /// listing call on the live handle.
    pub fn get_transactions(&self, call: Call<Result<Vec<String>, VdrError>>) -> (result: Result<
        String,
        ErrorCode,
    >)
        ensures
            reply_view(result) == self.transactions_reply(call),
            result is Err ==> result->Err_0 !is Success,
    {
        if let Err(code) = self.runner() {
            return Err(code);
        }
        match await_call(call) {
            Ok(answer) => {
                let (errcode, reply) = handle_transactions_result(answer);
                reply_outcome(errcode, reply)
            },
            Err(code) => Err(code),
        }
    }

    /// Submits `request` to the named nodes, or to all of them, each node's
    /// reply collected within `timeout` where one is given. The request is
    /// stamped with these delivery parameters and then consumed; `call` is
    /// what became of sending it through the live handle.
    ///
    /// A request that was consumed before is refused, whatever the state of
    /// the session.
    pub fn submit_action<R>(
        &self,
        request: &mut Request<R>,
        node_aliases: Option<Vec<String>>,
        timeout: Option<i64>,
        call: Call<RequestReply>,
    ) -> (result: Result<String, ErrorCode>)
        ensures
            final(request).pending() is None,
            reply_view(result) == self.request_reply(old(request).pending() is Some, call),
            result is Err ==> result->Err_0 !is Success,
    {
        if let Err(code) = request.take_for_action(node_aliases, timeout) {
            return Err(code);
        }
        if let Err(code) = self.runner() {
            return Err(code);
        }
        match await_call(call) {
            Ok(answer) => {
                let (errcode, reply) = handle_request_result(answer);
                reply_outcome(errcode, reply)
            },
            Err(code) => Err(code),
        }
    }

    /// Submits `request` for an answer that enough nodes agree on. The
    /// request is consumed; `call` is what became of sending it through the
    /// live handle.
    ///
    /// A request that was consumed before is refused, whatever the state of
    /// the session.
    pub fn submit_request<R>(&self, request: &mut Request<R>, call: Call<RequestReply>) -> (result:
        Result<String, ErrorCode>)
        ensures
            final(request).pending() is None,
            reply_view(result) == self.request_reply(old(request).pending() is Some, call),
            result is Err ==> result->Err_0 !is Success,
    {
        if let Err(code) = request.take() {
            return Err(code);
        }
        if let Err(code) = self.runner() {
            return Err(code);
        }
        match await_call(call) {
            Ok(answer) => {
                let (errcode, reply) = handle_request_result(answer);
                reply_outcome(errcode, reply)
            },
            Err(code) => Err(code),
        }
    }

    /// Closes the session: the live handle is dropped. Closing a session
    /// that has no handle changes nothing; either way the call succeeds.
    pub fn close(&mut self) -> (result: Result<(), ErrorCode>)
        ensures
            result is Ok,
            final(self).closed_from(*old(self)),
            !old(self).is_active() ==> *final(self) == *old(self),
    {
        if self.pool.is_some() {
            self.pool = None;
        }
        Ok(())
    }
}

/// Whether `call` answers a listing with exactly the transactions that the
/// live handle of `session` was built from.
pub open spec fn lists_live_transactions<H>(
    session: Pool<H>,
    call: Call<Result<Vec<String>, VdrError>>,
) -> bool {
    &&& session.live() is Some
    &&& call_outcome(call) is Ok
    &&& call_outcome(call)->Ok_0 is Ok
    &&& texts(call_outcome(call)->Ok_0->Ok_0@) == session.live()->0.spec_transactions()
}

/// A session that was just opened lists exactly the transactions it was
/// opened with, in their order, whenever its handle lists what it was built
/// from.
pub proof fn law_open_then_list<H>(
    session: Pool<H>,
    handle: H,
    transactions: Seq<Seq<char>>,
    node_weights: Option<Map<Seq<char>, u32>>,
    listing: Call<Result<Vec<String>, VdrError>>,
)
    requires
        session.opened_with(handle, transactions, node_weights),
        lists_live_transactions(session, listing),
    ensures
        session.transactions_reply(listing) == Ok::<Seq<char>, ErrorView>(
            join_lines(transactions),
        ),
{
}

/// Opening without any source of transactions fails with an `Input` error,
/// and so does opening with both, whatever else is given.
pub proof fn law_open_needs_one_source<H>(
    transactions_path: Option<String>,
    transactions: Option<String>,
    loaded: Result<PoolTransactions, VdrError>,
    built: Result<H, VdrError>,
)
    requires
        (transactions is Some) == (transactions_path is Some),
    ensures
        open_failure(transactions_path, transactions, loaded, built) is Some,
        open_failure(transactions_path, transactions, loaded, built)->0.tag == ErrorTag::Input,
        transactions is None ==> open_failure(transactions_path, transactions, loaded, built)
            == Some(ErrorView::missing_source()),
        transactions is Some ==> open_failure(transactions_path, transactions, loaded, built)
            == Some(ErrorView::ambiguous_source()),
{
}

/// Once a session is closed, every status query, transaction listing,
/// request and refresh on it fails with the error of a closed session,
/// whatever the connection layer would have answered.
pub proof fn law_closed_session_refuses<H>(
    before: Pool<H>,
    after: Pool<H>,
    status: Call<Result<String, VdrError>>,
    listing: Call<Result<Vec<String>, VdrError>>,
    sending: Call<RequestReply>,
    refreshing: Call<RefreshResult>,
    built: Result<H, VdrError>,
)
    requires
        after.closed_from(before),
    ensures
        after.status_reply(status) == Err::<Seq<char>, ErrorView>(ErrorView::closed_pool()),
        after.transactions_reply(listing) == Err::<Seq<char>, ErrorView>(
            ErrorView::closed_pool(),
        ),
        after.request_reply(true, sending) == Err::<Seq<char>, ErrorView>(
            ErrorView::closed_pool(),
        ),
        after.refresh_failure(refreshing, built) == Some(ErrorView::closed_pool()),
{
}

/// Closing twice is closing once: the second close finds nothing to drop
/// and leaves the session exactly as the first left it.
pub proof fn law_close_is_idempotent<H>(before: Pool<H>, once: Pool<H>, twice: Pool<H>)
    requires
        once.closed_from(before),
        twice.closed_from(once),
    ensures
        twice == once,
        twice.closed_from(before),
{
}

/// After a refresh that succeeded, the session lists the transactions it was
/// opened with, followed by exactly those that the refresh brought, in their
/// order, whenever its handle lists what it was built from. Nothing is
/// dropped, repeated or moved.
pub proof fn law_refresh_appends<H>(
    before: Pool<H>,
    after: Pool<H>,
    refreshing: Call<RefreshResult>,
    built: Result<H, VdrError>,
    listing: Call<Result<Vec<String>, VdrError>>,
)
    requires
        after.refreshed_from(before, refreshing, built),
        before.refresh_failure(refreshing, built) is None,
        lists_live_transactions(after, listing),
    ensures
        after.transactions_reply(listing) == Ok::<Seq<char>, ErrorView>(
            join_lines(
                before.spec_init_txns() + (match Pool::<H>::refresh_update(refreshing) {
                    Some(more) => more@,
                    None => Seq::<Seq<char>>::empty(),
                }),
            ),
        ),
        after.spec_init_txns() == before.spec_init_txns(),
{
    assert(before.spec_init_txns() + Seq::<Seq<char>>::empty() =~= before.spec_init_txns());
}

/// A refresh that failed changed nothing: the session is the one it was, so
/// every later listing, status query and request is answered as it would
/// have been before.
pub proof fn law_failed_refresh_changes_nothing<H>(
    before: Pool<H>,
    after: Pool<H>,
    refreshing: Call<RefreshResult>,
    built: Result<H, VdrError>,
    status: Call<Result<String, VdrError>>,
    listing: Call<Result<Vec<String>, VdrError>>,
    sending: Call<RequestReply>,
    pending: bool,
)
    requires
        after.refreshed_from(before, refreshing, built),
        before.refresh_failure(refreshing, built) is Some,
    ensures
        after == before,
        after.status_reply(status) == before.status_reply(status),
        after.transactions_reply(listing) == before.transactions_reply(listing),
        after.request_reply(pending, sending) == before.request_reply(pending, sending),
{
}

/// A request is submitted at most once. While it holds its payload, its
/// submission is answered by the session and the connection layer; once a
/// submission has left it consumed, every later one is refused, whatever the
/// session's state and whatever the connection layer would have answered.
pub proof fn law_request_is_submitted_once<H, R>(
    session: Pool<H>,
    later: Pool<H>,
    fresh: Request<R>,
    consumed: Request<R>,
    first: Call<RequestReply>,
    second: Call<RequestReply>,
)
    requires
        fresh.pending() is Some,
        consumed.pending() is None,
    ensures
        session.request_reply(fresh.pending() is Some, first) == (if session.is_active() {
            request_outcome(first)
        } else {
            Err::<Seq<char>, ErrorView>(ErrorView::closed_pool())
        }),
        later.request_reply(consumed.pending() is Some, second) == Err::<Seq<char>, ErrorView>(
            ErrorView::consumed_request(),
        ),
{
}

/// A call that ran into its timeout is reported as `PoolTimeout`, with the
/// connection layer's message.
pub proof fn law_timeout_is_reported<H>(
    session: Pool<H>,
    sending: Call<RequestReply>,
    failure: VdrError,
)
    requires
        session.is_active(),
        failure.kind is PoolTimeout,
        call_outcome(sending) == Ok::<RequestReply, ErrorView>(Err(failure)),
    ensures
        session.request_reply(true, sending) == Err::<Seq<char>, ErrorView>(
            ErrorView { tag: ErrorTag::PoolTimeout, message: failure.message@ },
        ),
{
}

/// `Success` is never reported: whatever a session answers to a status
/// query, a listing, a request or a refresh, an error among the answers has
/// another kind.
pub proof fn law_success_is_never_reported<H>(
    session: Pool<H>,
    status: Call<Result<String, VdrError>>,
    listing: Call<Result<Vec<String>, VdrError>>,
    sending: Call<RequestReply>,
    pending: bool,
    refreshing: Call<RefreshResult>,
    built: Result<H, VdrError>,
)
    ensures
        session.status_reply(status) is Err ==> session.status_reply(status)->Err_0.tag
            != ErrorTag::Success,
        session.transactions_reply(listing) is Err ==> session.transactions_reply(
            listing,
        )->Err_0.tag != ErrorTag::Success,
        session.request_reply(pending, sending) is Err ==> session.request_reply(
            pending,
            sending,
        )->Err_0.tag != ErrorTag::Success,
        session.refresh_failure(refreshing, built) is Some ==> session.refresh_failure(
            refreshing,
            built,
        )->0.tag != ErrorTag::Success,
{
}

} // verus!
