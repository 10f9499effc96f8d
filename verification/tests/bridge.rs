use query_engine::{
    ApiError, ChannelError, Datasource, QueryEngine, RecvOutcome, Reply, UrlValue,
    ValidatedConfiguration,
};

fn builder_engine() -> QueryEngine {
    let config = ValidatedConfiguration {
        datasources: vec![Datasource {
            name: "db".to_string(),
            url: UrlValue::Literal("file:dev.db".to_string()),
        }],
    };
    QueryEngine::new(
        vec![],
        "datasource db {}".to_string(),
        "info".to_string(),
        false,
        vec![],
        false,
        Ok(config),
    )
    .unwrap()
}

#[test]
fn blocking_connect_times_out_and_engine_stays_in_builder_state() {
    // A connect task that never completes within the window: the sender
    // side stays alive but nothing is ever sent.
    let (tx, rx) = crossbeam_channel::bounded::<Reply>(1);
    let r = query_engine::wait_for_reply(&rx, 0);
    match r {
        Err(ApiError::CrossbeamError(ChannelError::Timeout)) => {}
        _ => panic!("expected the timeout failure"),
    }
    drop(tx);
    let engine = builder_engine();
    assert!(!engine.connected());
}

#[test]
fn dropped_task_reports_the_disconnection() {
    let (tx, rx) = crossbeam_channel::bounded::<Reply>(1);
    drop(tx);
    let r = query_engine::wait_for_reply(&rx, 1);
    assert!(matches!(
        r,
        Err(ApiError::CrossbeamError(ChannelError::Disconnected))
    ));
    let (tx, rx) = crossbeam_channel::bounded::<Reply>(1);
    drop(tx);
    let r = query_engine::wait_for_reply_indefinitely(&rx);
    assert!(matches!(
        r,
        Err(ApiError::CrossbeamError(ChannelError::Disconnected))
    ));
}

#[test]
fn delivered_reply_passes_through_unchanged() {
    let (tx, rx) = crossbeam_channel::bounded::<Reply>(1);
    tx.send(Ok("{\"data\":{}}".to_string())).unwrap();
    let r = query_engine::wait_for_reply(&rx, 1);
    assert_eq!(r.unwrap(), "{\"data\":{}}");

    let (tx, rx) = crossbeam_channel::bounded::<Reply>(1);
    tx.send(Err(ApiError::NotConnected)).unwrap();
    let r = query_engine::wait_for_reply_indefinitely(&rx);
    assert!(matches!(r, Err(ApiError::NotConnected)));
}

#[test]
fn settle_reply_classifies_each_outcome() {
    let r = query_engine::settle_reply(RecvOutcome::Received(Ok("x".to_string())));
    assert_eq!(r.unwrap(), "x");
    let r = query_engine::settle_reply(RecvOutcome::TimedOut);
    assert!(matches!(
        r,
        Err(ApiError::CrossbeamError(ChannelError::Timeout))
    ));
    let r = query_engine::settle_reply(RecvOutcome::Disconnected);
    assert!(matches!(
        r,
        Err(ApiError::CrossbeamError(ChannelError::Disconnected))
    ));
}
