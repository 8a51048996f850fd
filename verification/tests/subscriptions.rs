use steam_bridge::callback_util::make_result_callback;
use steam_bridge::errors::BridgeError;
use steam_bridge::errors::Operation;
use steam_bridge::errors::SteamErrorCode;
use steam_bridge::errors::SteamFailure;
use steam_bridge::ugc::subscribe_item::WorkshopSubscribeItemTask;
use steam_bridge::ugc::unsubscribe_to_item::UnsubscribeToItemTask;

#[test]
fn subscribe_failure_busy_is_surfaced() {
    let task = WorkshopSubscribeItemTask { item_id: 42 };
    let (rx, callback) = make_result_callback::<()>();
    let busy = SteamFailure { code: SteamErrorCode::Busy, text: "method busy".to_string() };
    callback(Err(busy.clone()));
    let failure = task.subscribe_item(rx).unwrap_err();
    assert_eq!(failure, BridgeError::Sdk { operation: Operation::Subscribe, failure: busy });
    assert!(failure.message().contains("Busy"));
    assert!(failure.message().contains("method busy"));
    assert_eq!(failure.message(), "Steamworks: Failed to subscribe to item: Busy: method busy");
}

#[test]
fn subscribe_success_has_no_payload() {
    let task = WorkshopSubscribeItemTask { item_id: 42 };
    let (rx, callback) = make_result_callback::<()>();
    callback(Ok(()));
    assert_eq!(task.subscribe_item(rx), Ok(Some(())));
    assert_eq!(task.outcome(Ok(())), Ok(Some(())));
}

#[test]
fn unsubscribe_outcomes() {
    let task = UnsubscribeToItemTask { item_id: 42 };
    let (rx, callback) = make_result_callback::<()>();
    callback(Ok(()));
    assert_eq!(task.unsubscribe_item(rx), Ok(Some(())));

    let (rx, callback) = make_result_callback::<()>();
    let denied = SteamFailure {
        code: SteamErrorCode::Other("AccessDenied".to_string()),
        text: "access denied".to_string(),
    };
    callback(Err(denied.clone()));
    let failure = task.unsubscribe_item(rx).unwrap_err();
    assert_eq!(failure, BridgeError::Sdk { operation: Operation::Unsubscribe, failure: denied });
    assert_eq!(
        failure.message(),
        "Steamworks: Failed to subscribe to item: AccessDenied: access denied"
    );

    assert_eq!(task.outcome(Ok(())), Ok(Some(())));
}
