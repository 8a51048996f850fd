use steam_bridge::callback_util::make_result_callback;
use steam_bridge::errors::BridgeError;
use steam_bridge::errors::SteamErrorCode;
use steam_bridge::errors::SteamFailure;
use steam_bridge::ugc::query::create_query_handle;
use steam_bridge::ugc::query::fetch_details;
use steam_bridge::ugc::query::make_details_callback;
use steam_bridge::ugc::query::query_result_to_details;
use steam_bridge::ugc::query::record_to_details;
use steam_bridge::ugc::query::QueryRecord;
use steam_bridge::ugc::query_item::first_details;
use steam_bridge::ugc::query_item::WorkshopQueryItemTask;
use steam_bridge::ugc::query_user::QueryUserTask;
use steam_bridge::ugc::types::WorkshopItemDetails;
use steam_bridge::ugc::types::WorkshopItemVisibility;
use steam_bridge::ugc::types::WorkshopUGCType;
use steam_bridge::ugc::types::WorkshopUserListOrder;
use steam_bridge::ugc::types::WorkshopUserListType;

fn record(id: u64, title: &str) -> QueryRecord {
    QueryRecord {
        published_file_id: id,
        title: title.to_string(),
        description: format!("about {}", title),
        owner: 76561198000000000 + id,
        time_created: 1_600_000_000,
        time_updated: 1_600_000_100,
        time_added_to_user_list: 1_600_000_200,
        visibility: WorkshopItemVisibility::Public,
        banned: false,
        accepted_for_use: true,
        tags: Vec::new(),
        tags_truncated: false,
        file_size: 4096,
        url: format!("https://example.invalid/{}", id),
        num_upvotes: 12,
        num_downvotes: 3,
        score_bits: 0x3F4C_CCCD,
        num_children: 0,
    }
}

fn user_task() -> QueryUserTask {
    QueryUserTask {
        app_id: 480,
        account: 7,
        list_type: WorkshopUserListType::Subscribed,
        item_type: WorkshopUGCType::Items,
        sort_order: WorkshopUserListOrder::CreationOrderDesc,
        page: 1,
    }
}

#[test]
fn record_fields_are_copied_verbatim() {
    let mut source = record(5, "Five");
    source.visibility = WorkshopItemVisibility::Private;
    source.tags = vec!["maps".to_string(), "coop".to_string()];
    source.tags_truncated = true;
    source.banned = true;
    let details = record_to_details(source.clone());
    assert_eq!(
        details,
        WorkshopItemDetails {
            item_id: 5,
            title: "Five".to_string(),
            description: "about Five".to_string(),
            owner_id: 76561198000000005,
            time_created: 1_600_000_000,
            time_updated: 1_600_000_100,
            time_added_to_user_list: 1_600_000_200,
            visibility: 2,
            banned: true,
            accepted_for_use: true,
            tags_truncated: true,
            tags: vec!["maps".to_string(), "coop".to_string()],
            file_size: 4096,
            url: "https://example.invalid/5".to_string(),
            num_upvotes: 12,
            num_downvotes: 3,
            score_bits: 0x3F4C_CCCD,
            num_children: 0,
        }
    );
}

#[test]
fn visibility_travels_as_its_code() {
    for (visibility, code) in [
        (WorkshopItemVisibility::Public, 0u32),
        (WorkshopItemVisibility::FriendsOnly, 1),
        (WorkshopItemVisibility::Private, 2),
        (WorkshopItemVisibility::Unlisted, 3),
    ] {
        let mut source = record(1, "x");
        source.visibility = visibility;
        assert_eq!(record_to_details(source).visibility, code);
        assert_eq!(visibility.code(), code);
        assert_eq!(WorkshopItemVisibility::from_code(code), Some(visibility));
    }
    assert_eq!(WorkshopItemVisibility::from_code(4), None);
}

#[test]
fn unpopulated_position_is_skipped_and_order_kept() {
    let cursor = vec![Some(record(10, "first")), None, Some(record(30, "third"))];
    let details = query_result_to_details(cursor);
    assert_eq!(details.len(), 2);
    assert_eq!(details[0].item_id, 10);
    assert_eq!(details[0].title, "first");
    assert_eq!(details[1].item_id, 30);
    assert_eq!(details[1].title, "third");
}

#[test]
fn decoded_length_is_the_number_of_populated_positions() {
    let cursor = vec![None, Some(record(1, "a")), None, None, Some(record(2, "b")), Some(record(3, "c")), None];
    let positions = cursor.len();
    let populated = cursor.iter().filter(|slot| slot.is_some()).count();
    let details = query_result_to_details(cursor);
    assert_eq!(details.len(), populated);
    assert_eq!(details.len(), 3);
    assert!(details.len() <= positions);
    let ids: Vec<u64> = details.iter().map(|d| d.item_id).collect();
    assert_eq!(ids, vec![1, 2, 3]);
}

#[test]
fn empty_and_all_empty_cursors_decode_to_nothing() {
    assert_eq!(query_result_to_details(Vec::new()), Vec::new());
    assert_eq!(query_result_to_details(vec![None, None, None]), Vec::new());
}

#[test]
fn item_query_returns_the_single_record() {
    let task = WorkshopQueryItemTask { item_id: 123456789 };
    let (rx, callback) = make_details_callback();
    callback(Ok(vec![Some(record(task.item_id, "Test Map"))]));
    let result = task.compute(rx);
    let details = result.expect("the query succeeded").expect("one record came back");
    assert_eq!(details.item_id, 123456789);
    assert_eq!(details.title, "Test Map");
    assert_eq!(details.visibility, 0);
    assert_eq!(details.tags, Vec::<String>::new());
}

#[test]
fn item_query_with_empty_cursor_gives_no_result() {
    let task = WorkshopQueryItemTask { item_id: 9 };
    let (rx, callback) = make_details_callback();
    callback(Ok(Vec::new()));
    assert_eq!(task.compute(rx), Ok(None));

    let (rx, callback) = make_details_callback();
    callback(Ok(vec![None]));
    assert_eq!(task.compute(rx), Ok(None));

    assert_eq!(task.outcome(Ok(Vec::new())), Ok(None));
}

#[test]
fn item_query_takes_the_first_of_several() {
    let task = WorkshopQueryItemTask { item_id: 1 };
    let details = query_result_to_details(vec![None, Some(record(1, "one")), Some(record(2, "two"))]);
    let first = task.outcome(Ok(details)).unwrap().unwrap();
    assert_eq!(first.item_id, 1);
    assert_eq!(first_details(Vec::new()), None);
}

#[test]
fn item_query_failure_is_classified() {
    let task = WorkshopQueryItemTask { item_id: 1 };
    let (rx, callback) = make_details_callback();
    let invalid = SteamFailure {
        code: SteamErrorCode::InvalidParameter,
        text: "a parameter is invalid".to_string(),
    };
    callback(Err(invalid.clone()));
    let failure = task.compute(rx).unwrap_err();
    assert_eq!(
        failure,
        BridgeError::Sdk { operation: steam_bridge::errors::Operation::Query, failure: invalid }
    );
    assert_eq!(
        failure.message(),
        "Steamworks: Invalid parameter (InvalidParameter: a parameter is invalid)"
    );

    let busy = SteamFailure { code: SteamErrorCode::Busy, text: "method busy".to_string() };
    let failure = task.outcome(Err(busy)).unwrap_err();
    assert!(failure.message().contains("Busy"));
    assert!(failure.message().contains("method busy"));
}

#[test]
fn user_query_returns_the_whole_page() {
    let task = user_task();
    let (rx, callback) = make_details_callback();
    callback(Ok(vec![Some(record(1, "a")), None, Some(record(3, "c"))]));
    let page = task.compute(rx).unwrap().unwrap();
    assert_eq!(page.len(), 2);
    assert_eq!(page[0].item_id, 1);
    assert_eq!(page[1].item_id, 3);
}

#[test]
fn user_query_with_empty_page_gives_an_empty_set() {
    let task = user_task();
    let (rx, callback) = make_details_callback();
    callback(Ok(Vec::new()));
    assert_eq!(task.compute(rx), Ok(Some(Vec::new())));
    assert_eq!(task.outcome(Ok(Vec::new())), Ok(Some(Vec::new())));
}

#[test]
fn fetch_details_hands_the_result_set_through() {
    let (rx, callback) = make_details_callback();
    callback(Ok(vec![Some(record(8, "eight"))]));
    let details = fetch_details(rx).unwrap();
    assert_eq!(details.len(), 1);
    assert_eq!(details[0].item_id, 8);

    let (rx, callback) = make_result_callback::<Vec<WorkshopItemDetails>>();
    let offline = SteamFailure {
        code: SteamErrorCode::NoConnection,
        text: "there isn't a network connection to steam or it failed to connect".to_string(),
    };
    callback(Err(offline.clone()));
    let failure = fetch_details(rx).unwrap_err();
    assert_eq!(
        failure,
        BridgeError::Sdk { operation: steam_bridge::errors::Operation::Query, failure: offline }
    );
    assert_eq!(
        failure.message(),
        "Steamworks: No connection to Steam (NoConnection: there isn't a network connection to steam or it failed to connect)"
    );
}

#[test]
fn refused_query_fails_at_once() {
    assert_eq!(create_query_handle(Ok(17u64)), Ok(17));
    let said = "Could not create workshop query".to_string();
    let refused = create_query_handle::<u64>(Err(said.clone())).unwrap_err();
    assert_eq!(refused, BridgeError::CreateQuery { text: said });
    assert_eq!(refused.message(), "Could not create workshop query");
    let other = create_query_handle::<u64>(Err("no session".to_string())).unwrap_err();
    assert_eq!(other.message(), "no session");
}

#[test]
fn user_query_asks_within_one_application() {
    assert_eq!(user_task().app_ids(), (480, 480));
}
