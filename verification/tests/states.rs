use steam_bridge::ugc::types::item_state_to_string;
use steam_bridge::ugc::types::item_states_from_bits;
use steam_bridge::ugc::types::WorkshopFileType;
use steam_bridge::ugc::types::WorkshopItemStateEnum;
use steam_bridge::ugc::types::WorkshopQueryType;
use steam_bridge::ugc::types::WorkshopUGCType;
use steam_bridge::ugc::types::WorkshopUserListOrder;
use steam_bridge::ugc::types::WorkshopUserListType;

#[test]
fn state_names() {
    assert_eq!(item_state_to_string(WorkshopItemStateEnum::Unset), "None");
    assert_eq!(item_state_to_string(WorkshopItemStateEnum::Subscribed), "Subscribed");
    assert_eq!(item_state_to_string(WorkshopItemStateEnum::LegacyItem), "LegacyItem");
    assert_eq!(item_state_to_string(WorkshopItemStateEnum::Installed), "Installed");
    assert_eq!(item_state_to_string(WorkshopItemStateEnum::NeedsUpdate), "NeedsUpdate");
    assert_eq!(item_state_to_string(WorkshopItemStateEnum::Downloading), "Downloading");
    assert_eq!(item_state_to_string(WorkshopItemStateEnum::DownloadPending), "DownloadPending");
}

#[test]
fn state_bits() {
    assert_eq!(WorkshopItemStateEnum::Unset.bit(), 0);
    assert_eq!(WorkshopItemStateEnum::Subscribed.bit(), 1);
    assert_eq!(WorkshopItemStateEnum::LegacyItem.bit(), 2);
    assert_eq!(WorkshopItemStateEnum::Installed.bit(), 4);
    assert_eq!(WorkshopItemStateEnum::NeedsUpdate.bit(), 8);
    assert_eq!(WorkshopItemStateEnum::Downloading.bit(), 16);
    assert_eq!(WorkshopItemStateEnum::DownloadPending.bit(), 32);
}

#[test]
fn no_flag_gives_unset_alone() {
    assert_eq!(item_states_from_bits(0), vec![WorkshopItemStateEnum::Unset]);
    assert_eq!(item_states_from_bits(64), vec![WorkshopItemStateEnum::Unset]);
    assert_eq!(item_states_from_bits(0xFFFF_FFC0), vec![WorkshopItemStateEnum::Unset]);
}

#[test]
fn flags_come_in_rising_order() {
    assert_eq!(
        item_states_from_bits(5),
        vec![WorkshopItemStateEnum::Subscribed, WorkshopItemStateEnum::Installed]
    );
    assert_eq!(
        item_states_from_bits(63),
        vec![
            WorkshopItemStateEnum::Subscribed,
            WorkshopItemStateEnum::LegacyItem,
            WorkshopItemStateEnum::Installed,
            WorkshopItemStateEnum::NeedsUpdate,
            WorkshopItemStateEnum::Downloading,
            WorkshopItemStateEnum::DownloadPending,
        ]
    );
    assert_eq!(item_states_from_bits(32 | 128), vec![WorkshopItemStateEnum::DownloadPending]);
    for state in [
        WorkshopItemStateEnum::Subscribed,
        WorkshopItemStateEnum::LegacyItem,
        WorkshopItemStateEnum::Installed,
        WorkshopItemStateEnum::NeedsUpdate,
        WorkshopItemStateEnum::Downloading,
        WorkshopItemStateEnum::DownloadPending,
    ] {
        assert_eq!(item_states_from_bits(state.bit()), vec![state]);
    }
}

#[test]
fn enumeration_codes() {
    assert_eq!(WorkshopFileType::Community.code(), 0);
    assert_eq!(WorkshopFileType::Art.code(), 3);
    assert_eq!(WorkshopFileType::GameManagedItem.code(), 15);
    assert_eq!(WorkshopQueryType::RankedByVote.code(), 0);
    assert_eq!(WorkshopQueryType::RankedByTextSearch.code(), 11);
    assert_eq!(WorkshopQueryType::RankedByLifetimePlaytimeSessions.code(), 18);
    assert_eq!(WorkshopUGCType::Items.code(), 0);
    assert_eq!(WorkshopUGCType::AllGuides.code(), 7);
    assert_eq!(WorkshopUGCType::All.code(), 13);
    assert_eq!(WorkshopUserListType::Published.code(), 0);
    assert_eq!(WorkshopUserListType::Subscribed.code(), 6);
    assert_eq!(WorkshopUserListType::Followed.code(), 8);
    assert_eq!(WorkshopUserListOrder::CreationOrderDesc.code(), 0);
    assert_eq!(WorkshopUserListOrder::CreationOrderAsc.code(), 1);
    assert_eq!(WorkshopUserListOrder::ForModeration.code(), 6);
}
