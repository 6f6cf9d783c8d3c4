use pool_session::indy_vdr::bridge::CallbackBridge;
use pool_session::indy_vdr::error::{ErrorCode, VdrError, VdrErrorKind};
use pool_session::indy_vdr::pool::{
    await_call, handle_pool_refresh, handle_request_result, handle_status_result,
    handle_transactions_result, open_pool, refresh_builder, reply_outcome, transactions_source,
    Call, Pool, PoolBuilder, TransactionsSource,
};
use pool_session::indy_vdr::requests::{Request, RequestResult};
use pool_session::indy_vdr::transactions::PoolTransactions;
use pool_session::indy_vdr::weights::NodeWeights;

const CLOSED: &str = "Pool is closed: no active connection";
const CONSUMED: &str = "Invalid state: request has already been submitted";
const CHANNEL: &str = "Channel error: channel closed";

fn strings(items: &[&str]) -> Vec<String> {
    items.iter().map(|s| s.to_string()).collect()
}

fn txns(items: &[&str]) -> PoolTransactions {
    PoolTransactions::new(strings(items))
}

fn failure(kind: VdrErrorKind, message: &str) -> VdrError {
    VdrError { kind, message: message.to_string() }
}

fn fired<T>(value: T) -> Call<T> {
    let mut bridge = CallbackBridge::new();
    bridge.fire(value);
    Ok(bridge)
}

fn dropped<T>() -> Call<T> {
    Ok(CallbackBridge::new())
}

fn genesis() -> Vec<&'static str> {
    vec!["{\"txn\":1}", "{\"txn\":2}", "{\"txn\":3}"]
}

fn open(handle: u32) -> Pool<u32> {
    open_pool(None, Some(genesis().join("\n")), None, Ok(txns(&genesis())), Ok(handle)).unwrap()
}

fn listing_of(pool: &Pool<u32>) -> Call<Result<Vec<String>, VdrError>> {
    fired(Ok(pool.runner().unwrap().transactions().encode_json()))
}

fn closed_error() -> ErrorCode {
    ErrorCode::Input { error_message: CLOSED.to_string() }
}

#[test]
fn open_then_list_returns_the_payload_records_in_order() {
    let pool = open(1);
    assert!(pool.is_active());
    let listing = listing_of(&pool);
    assert_eq!(
        pool.get_transactions(listing),
        Ok("{\"txn\":1}\n{\"txn\":2}\n{\"txn\":3}".to_string())
    );
}

#[test]
fn open_keeps_what_it_was_opened_with() {
    let mut weights = NodeWeights::new();
    weights.insert("Node1".to_string(), 2.0f32.to_bits());
    let pool = open_pool(
        Some("genesis.txn".to_string()),
        None,
        Some(weights),
        Ok(txns(&["a", "b"])),
        Ok(9u32),
    )
    .unwrap();
    assert_eq!(pool.init_txns().encode_json(), strings(&["a", "b"]));
    let kept = pool.node_weights().as_ref().unwrap();
    assert_eq!(kept.get(&"Node1".to_string()), Some(2.0f32.to_bits()));
    let runner = pool.runner().unwrap();
    assert_eq!(*runner.handle(), 9);
    assert_eq!(runner.transactions().encode_json(), strings(&["a", "b"]));
    assert!(!runner.is_refreshed());
    let built_with = runner.node_weights().as_ref().unwrap();
    assert_eq!(built_with.get(&"Node1".to_string()), Some(2.0f32.to_bits()));
    assert_eq!(built_with.len(), 1);
}

#[test]
fn open_without_a_source_is_an_input_error() {
    let result = open_pool::<u32>(None, None, None, Ok(txns(&["a"])), Ok(1));
    assert_eq!(
        result,
        Err(ErrorCode::Input {
            error_message:
                "Invalid pool create parameters: must provide transactions or transactions_path"
                    .to_string()
        })
    );
}

#[test]
fn open_with_both_sources_is_an_input_error() {
    let result = open_pool::<u32>(
        Some("genesis.txn".to_string()),
        Some("{}".to_string()),
        None,
        Ok(txns(&["a"])),
        Ok(1),
    );
    assert_eq!(
        result,
        Err(ErrorCode::Input {
            error_message: "Invalid pool create parameters: must provide only one of transactions and transactions_path".to_string()
        })
    );
}

#[test]
fn open_reports_a_source_that_cannot_be_read() {
    let result = open_pool::<u32>(
        Some("missing.txn".to_string()),
        None,
        None,
        Err(failure(VdrErrorKind::FileSystem, "File system error: not found")),
        Ok(1),
    );
    assert_eq!(
        result,
        Err(ErrorCode::FileSystem { error_message: "File system error: not found".to_string() })
    );
}

#[test]
fn open_reports_a_handle_that_cannot_be_built() {
    let result = open_pool::<u32>(
        None,
        Some("{}".to_string()),
        None,
        Ok(txns(&["a"])),
        Err(failure(VdrErrorKind::Config, "Config error: bad timeout")),
    );
    assert_eq!(
        result,
        Err(ErrorCode::Config { error_message: "Config error: bad timeout".to_string() })
    );
}

#[test]
fn source_is_the_one_that_was_given() {
    assert_eq!(
        transactions_source(None, Some("payload".to_string())),
        Ok(TransactionsSource::Inline("payload".to_string()))
    );
    assert_eq!(
        transactions_source(Some("path".to_string()), None),
        Ok(TransactionsSource::Path("path".to_string()))
    );
    assert!(transactions_source(None, None).is_err());
    assert!(transactions_source(Some("p".to_string()), Some("t".to_string())).is_err());
}

#[test]
fn closed_session_refuses_every_call() {
    let mut pool = open(1);
    assert_eq!(pool.close(), Ok(()));
    assert!(!pool.is_active());
    assert_eq!(pool.get_status(fired(Ok("{}".to_string()))), Err(closed_error()));
    assert_eq!(pool.get_transactions(fired(Ok(strings(&["a"])))), Err(closed_error()));
    let mut request = Request::new("req");
    assert_eq!(
        pool.submit_request(&mut request, fired(Ok(RequestResult::Reply("r".to_string())))),
        Err(closed_error())
    );
    let mut action = Request::new("act");
    assert_eq!(
        pool.submit_action(&mut action, None, None, fired(Ok(RequestResult::Reply("r".to_string())))),
        Err(closed_error())
    );
    assert_eq!(pool.refresh(fired(Ok(None)), Ok(2)), Err(closed_error()));
    assert!(!pool.is_active());
    assert!(pool.runner().is_err());
}

#[test]
fn close_twice_succeeds_both_times() {
    let mut pool = open(1);
    assert_eq!(pool.close(), Ok(()));
    let once = format!("{:?}", pool);
    assert_eq!(pool.close(), Ok(()));
    assert_eq!(format!("{:?}", pool), once);
    assert!(!pool.is_active());
    assert_eq!(pool.init_txns().encode_json(), strings(&genesis()));
}

#[test]
fn refresh_appends_the_new_transactions() {
    let mut pool = open(1);
    let result = pool.refresh(fired(Ok(Some(txns(&["{\"txn\":4}", "{\"txn\":5}"])))), Ok(2));
    assert_eq!(result, Ok(()));
    let runner = pool.runner().unwrap();
    assert_eq!(*runner.handle(), 2);
    assert!(runner.is_refreshed());
    let listing = listing_of(&pool);
    assert_eq!(
        pool.get_transactions(listing),
        Ok("{\"txn\":1}\n{\"txn\":2}\n{\"txn\":3}\n{\"txn\":4}\n{\"txn\":5}".to_string())
    );
    assert_eq!(pool.init_txns().encode_json(), strings(&genesis()));
}

#[test]
fn refresh_is_reconciled_against_the_opening_set() {
    let mut pool = open(1);
    assert_eq!(pool.refresh(fired(Ok(Some(txns(&["x"])))), Ok(2)), Ok(()));
    assert_eq!(pool.refresh(fired(Ok(Some(txns(&["y"])))), Ok(3)), Ok(()));
    let runner = pool.runner().unwrap();
    assert_eq!(*runner.handle(), 3);
    assert_eq!(
        runner.transactions().encode_json(),
        strings(&["{\"txn\":1}", "{\"txn\":2}", "{\"txn\":3}", "y"])
    );
}

#[test]
fn refresh_without_news_still_rebuilds() {
    let mut pool = open(1);
    assert_eq!(pool.refresh(fired(Ok(None)), Ok(2)), Ok(()));
    let runner = pool.runner().unwrap();
    assert_eq!(*runner.handle(), 2);
    assert!(runner.is_refreshed());
    assert_eq!(runner.transactions().encode_json(), strings(&genesis()));
    assert_eq!(pool.refresh(fired(Ok(Some(txns(&[])))), Ok(3)), Ok(()));
    assert_eq!(pool.runner().unwrap().transactions().encode_json(), strings(&genesis()));
}

#[test]
fn failed_refresh_changes_nothing() {
    let mut pool = open(1);
    let before = format!("{:?}", pool);
    assert_eq!(
        pool.refresh(fired(Err(failure(VdrErrorKind::Connection, "Connection error: down"))), Ok(2)),
        Err(ErrorCode::Connection { error_message: "Connection error: down".to_string() })
    );
    assert_eq!(format!("{:?}", pool), before);
    assert_eq!(
        pool.refresh(Err(failure(VdrErrorKind::Resource, "Resource error: busy")), Ok(2)),
        Err(ErrorCode::Resource { error_message: "Resource error: busy".to_string() })
    );
    assert_eq!(format!("{:?}", pool), before);
    assert_eq!(
        pool.refresh(dropped(), Ok(2)),
        Err(ErrorCode::Unexpected { error_message: CHANNEL.to_string() })
    );
    assert_eq!(format!("{:?}", pool), before);
    assert_eq!(
        pool.refresh(
            fired(Ok(Some(txns(&["new"])))),
            Err(failure(VdrErrorKind::Config, "Config error: no nodes"))
        ),
        Err(ErrorCode::Config { error_message: "Config error: no nodes".to_string() })
    );
    assert_eq!(format!("{:?}", pool), before);
    let listing = listing_of(&pool);
    assert_eq!(
        pool.get_transactions(listing),
        Ok("{\"txn\":1}\n{\"txn\":2}\n{\"txn\":3}".to_string())
    );
    let mut request = Request::new("req");
    assert_eq!(
        pool.submit_request(&mut request, fired(Ok(RequestResult::Reply("ok".to_string())))),
        Ok("ok".to_string())
    );
}

#[test]
fn request_is_submitted_once() {
    let pool = open(1);
    let mut request = Request::new("req");
    assert_eq!(
        pool.submit_request(&mut request, fired(Ok(RequestResult::Reply("{\"op\":\"REPLY\"}".to_string())))),
        Ok("{\"op\":\"REPLY\"}".to_string())
    );
    assert!(request.is_consumed());
    assert_eq!(
        pool.submit_request(&mut request, fired(Ok(RequestResult::Reply("again".to_string())))),
        Err(ErrorCode::Input { error_message: CONSUMED.to_string() })
    );
    assert_eq!(
        pool.submit_action(&mut request, None, Some(5), fired(Ok(RequestResult::Reply("again".to_string())))),
        Err(ErrorCode::Input { error_message: CONSUMED.to_string() })
    );
}

#[test]
fn consumed_request_is_refused_before_the_session_is_looked_at() {
    let mut pool = open(1);
    let mut request = Request::new("req");
    assert!(request.take().is_ok());
    pool.close().unwrap();
    assert_eq!(
        pool.submit_request(&mut request, dropped()),
        Err(ErrorCode::Input { error_message: CONSUMED.to_string() })
    );
}

#[test]
fn request_on_a_closed_session_is_consumed_all_the_same() {
    let mut pool = open(1);
    pool.close().unwrap();
    let mut request = Request::new("req");
    assert_eq!(pool.submit_request(&mut request, dropped()), Err(closed_error()));
    assert!(request.is_consumed());
}

#[test]
fn submit_action_timeout_is_reported() {
    let pool = open(1);
    let mut request = Request::new("req");
    let result = pool.submit_action(
        &mut request,
        Some(strings(&["Node1", "Node2"])),
        Some(1),
        fired(Err(failure(VdrErrorKind::PoolTimeout, "Pool timeout"))),
    );
    assert_eq!(result, Err(ErrorCode::PoolTimeout { error_message: "Pool timeout".to_string() }));
    assert!(request.is_consumed());
}

#[test]
fn submit_action_returns_the_reply() {
    let pool = open(1);
    let mut request = Request::new("req");
    let result = pool.submit_action(
        &mut request,
        None,
        None,
        fired(Ok(RequestResult::Reply("{\"Node1\":\"ok\"}".to_string()))),
    );
    assert_eq!(result, Ok("{\"Node1\":\"ok\"}".to_string()));
}

#[test]
fn request_failures_are_translated() {
    let pool = open(1);
    let mut first = Request::new("a");
    assert_eq!(
        pool.submit_request(
            &mut first,
            fired(Ok(RequestResult::Failed(failure(VdrErrorKind::PoolNoConsensus, "No consensus"))))
        ),
        Err(ErrorCode::PoolNoConsensus { error_message: "No consensus".to_string() })
    );
    let mut second = Request::new("b");
    assert_eq!(
        pool.submit_request(
            &mut second,
            fired(Ok(RequestResult::Failed(failure(
                VdrErrorKind::PoolRequestFailed("{\"Node1\":\"nack\"}".to_string()),
                "Request failed"
            ))))
        ),
        Err(ErrorCode::PoolRequestFailed { error_message: "Request failed".to_string() })
    );
    let mut third = Request::new("c");
    assert_eq!(
        pool.submit_request(&mut third, Err(failure(VdrErrorKind::Unavailable, "Unavailable"))),
        Err(ErrorCode::Unavailable { error_message: "Unavailable".to_string() })
    );
    let mut fourth = Request::new("d");
    assert_eq!(
        pool.submit_request(&mut fourth, dropped()),
        Err(ErrorCode::Unexpected { error_message: CHANNEL.to_string() })
    );
}

#[test]
fn status_is_handed_on_as_it_came() {
    let pool = open(1);
    assert_eq!(
        pool.get_status(fired(Ok("{\"mt_root\":\"abc\",\"mt_size\":3}".to_string()))),
        Ok("{\"mt_root\":\"abc\",\"mt_size\":3}".to_string())
    );
    assert_eq!(pool.get_status(fired(Ok(String::new()))), Ok(String::new()));
    assert_eq!(
        pool.get_status(fired(Err(failure(VdrErrorKind::Incompatible, "Incompatible")))),
        Err(ErrorCode::Incompatible { error_message: "Incompatible".to_string() })
    );
    assert_eq!(
        pool.get_status(Err(failure(VdrErrorKind::Resolver, "Resolver error"))),
        Err(ErrorCode::Resolver { error_message: "Resolver error".to_string() })
    );
    assert_eq!(
        pool.get_status(dropped()),
        Err(ErrorCode::Unexpected { error_message: CHANNEL.to_string() })
    );
}

#[test]
fn listing_joins_with_line_feeds_only_between_records() {
    let pool = open(1);
    assert_eq!(pool.get_transactions(fired(Ok(strings(&[])))), Ok(String::new()));
    assert_eq!(pool.get_transactions(fired(Ok(strings(&["only"])))), Ok("only".to_string()));
    assert_eq!(pool.get_transactions(fired(Ok(strings(&["a", "", "c"])))), Ok("a\n\nc".to_string()));
    assert_eq!(
        pool.get_transactions(fired(Err(failure(VdrErrorKind::Unexpected, "Unexpected")))),
        Err(ErrorCode::Unexpected { error_message: "Unexpected".to_string() })
    );
}

#[test]
fn callback_pairs_mark_success_and_failure() {
    assert_eq!(
        handle_request_result(Ok(RequestResult::Reply("body".to_string()))),
        (ErrorCode::Success {}, "body".to_string())
    );
    assert_eq!(
        handle_request_result(Ok(RequestResult::Failed(failure(VdrErrorKind::PoolTimeout, "t")))),
        (ErrorCode::PoolTimeout { error_message: "t".to_string() }, String::new())
    );
    assert_eq!(
        handle_request_result(Err(failure(VdrErrorKind::Input, "i"))),
        (ErrorCode::Input { error_message: "i".to_string() }, String::new())
    );
    assert_eq!(
        handle_status_result(Ok("status".to_string())),
        (ErrorCode::Success {}, "status".to_string())
    );
    assert_eq!(
        handle_status_result(Err(failure(VdrErrorKind::Connection, "c"))),
        (ErrorCode::Connection { error_message: "c".to_string() }, String::new())
    );
    assert_eq!(
        handle_transactions_result(Ok(strings(&["a", "b"]))),
        (ErrorCode::Success {}, "a\nb".to_string())
    );
    assert_eq!(
        handle_transactions_result(Err(failure(VdrErrorKind::Resource, "r"))),
        (ErrorCode::Resource { error_message: "r".to_string() }, String::new())
    );
}

#[test]
fn success_is_never_handed_to_the_caller() {
    assert_eq!(reply_outcome(ErrorCode::Success {}, "reply".to_string()), Ok("reply".to_string()));
    assert_eq!(
        reply_outcome(ErrorCode::Input { error_message: "m".to_string() }, "ignored".to_string()),
        Err(ErrorCode::Input { error_message: "m".to_string() })
    );
}

#[test]
fn await_call_tells_refusal_from_silence() {
    assert_eq!(await_call(fired(7u8)), Ok(7));
    assert_eq!(
        await_call::<u8>(dropped()),
        Err(ErrorCode::Unexpected { error_message: CHANNEL.to_string() })
    );
    assert_eq!(
        await_call::<u8>(Err(failure(VdrErrorKind::Connection, "refused"))),
        Err(ErrorCode::Connection { error_message: "refused".to_string() })
    );
}

#[test]
fn refresh_builder_merges_onto_a_copy() {
    let mut weights = NodeWeights::new();
    weights.insert("Node1".to_string(), 1.5f32.to_bits());
    let builder = refresh_builder(txns(&["a", "b"]), Some(txns(&["c"])), Some(weights));
    assert_eq!(builder.transactions.encode_json(), strings(&["a", "b", "c"]));
    assert!(builder.refreshed);
    assert_eq!(
        builder.node_weights.as_ref().unwrap().get(&"Node1".to_string()),
        Some(1.5f32.to_bits())
    );
    let builder = refresh_builder(txns(&["a", "b"]), None, None);
    assert_eq!(builder.transactions.encode_json(), strings(&["a", "b"]));
    assert!(builder.refreshed);
    assert!(builder.node_weights.is_none());
}

#[test]
fn builder_records_what_the_handle_is_built_from() {
    let builder = PoolBuilder::new(txns(&["a"]));
    assert!(!builder.refreshed);
    assert!(builder.node_weights.is_none());
    let builder = builder.node_weights(Some(NodeWeights::new())).refreshed(true);
    assert!(builder.refreshed);
    assert!(builder.node_weights.is_some());
    let runner = builder.into_runner(Ok("handle")).unwrap();
    assert_eq!(*runner.handle(), "handle");
    assert!(runner.is_refreshed());
    assert_eq!(runner.transactions().encode_json(), strings(&["a"]));
    let failed = PoolBuilder::new(txns(&["a"]))
        .into_runner::<u8>(Err(failure(VdrErrorKind::Config, "Config error")));
    assert_eq!(failed, Err(ErrorCode::Config { error_message: "Config error".to_string() }));
}

#[test]
fn pool_refresh_always_gives_a_handle_or_an_error() {
    let rebuilt = handle_pool_refresh(txns(&["a"]), Some(txns(&["b"])), None, Ok(4u8)).unwrap();
    let runner = rebuilt.unwrap();
    assert_eq!(*runner.handle(), 4);
    assert_eq!(runner.transactions().encode_json(), strings(&["a", "b"]));
    assert!(runner.is_refreshed());
    assert_eq!(
        handle_pool_refresh::<u8>(
            txns(&["a"]),
            None,
            None,
            Err(failure(VdrErrorKind::Unexpected, "Unexpected"))
        ),
        Err(ErrorCode::Unexpected { error_message: "Unexpected".to_string() })
    );
}

#[test]
fn install_replaces_only_with_a_handle() {
    let mut pool = open(1);
    pool.install(None);
    assert_eq!(*pool.runner().unwrap().handle(), 1);
    let runner = PoolBuilder::new(txns(&["z"])).refreshed(true).into_runner(Ok(8u32)).unwrap();
    pool.install(Some(runner));
    assert_eq!(*pool.runner().unwrap().handle(), 8);
    pool.close().unwrap();
    let runner = PoolBuilder::new(txns(&["z"])).into_runner(Ok(9u32)).unwrap();
    pool.install(Some(runner));
    assert!(pool.is_active());
}

#[test]
fn session_without_a_handle_can_be_made() {
    let pool: Pool<u32> = Pool::new(None, txns(&["a"]), None);
    assert!(!pool.is_active());
    assert_eq!(pool.runner().err(), Some(closed_error()));
    assert_eq!(pool.init_txns().len(), 1);
}
