//! Plain data carried across the boundary: workshop records and the
//! enumerations that select what a workshop query asks for.

use vstd::prelude::*;

verus! {

/// One workshop item as a caller sees it.
///
/// Identifiers are whole 64-bit numbers here. `score_bits` is the bit pattern
/// of the single-precision score that the platform reported.
#[derive(Clone, Debug, PartialEq, Eq)]
pub struct WorkshopItemDetails {
    pub item_id: u64,
    pub title: String,
    pub description: String,
    pub owner_id: u64,
    pub time_created: u32,
    pub time_updated: u32,
    pub time_added_to_user_list: u32,
    pub visibility: u32,
    pub banned: bool,
    pub accepted_for_use: bool,
    pub tags_truncated: bool,
    pub tags: Vec<String>,
    pub file_size: u32,
    pub url: String,
    pub num_upvotes: u32,
    pub num_downvotes: u32,
    pub score_bits: u32,
    pub num_children: u32,
}

/// Who may see a workshop item.
#[derive(Clone, Copy, Debug, PartialEq, Eq, Structural)]
pub enum WorkshopItemVisibility {
    Public,
    FriendsOnly,
    Private,
    Unlisted,
}

impl WorkshopItemVisibility {
    /// The integer code under which a visibility travels.
    pub open spec fn spec_code(self) -> u32 {
        match self {
            WorkshopItemVisibility::Public => 0,
            WorkshopItemVisibility::FriendsOnly => 1,
            WorkshopItemVisibility::Private => 2,
            WorkshopItemVisibility::Unlisted => 3,
        }
    }

    /// The integer code under which a visibility travels.
    pub fn code(&self) -> (c: u32)
        ensures
            c == self.spec_code(),
    {
        match self {
            WorkshopItemVisibility::Public => 0,
            WorkshopItemVisibility::FriendsOnly => 1,
            WorkshopItemVisibility::Private => 2,
            WorkshopItemVisibility::Unlisted => 3,
        }
    }

    /// The visibility that travels under `code`, if there is one.
    pub fn from_code(code: u32) -> (v: Option<WorkshopItemVisibility>)
        ensures
            code <= 3 <==> v is Some,
            v matches Some(w) ==> w.spec_code() == code,
    {
        if code == 0 {
            Some(WorkshopItemVisibility::Public)
        } else if code == 1 {
            Some(WorkshopItemVisibility::FriendsOnly)
        } else if code == 2 {
            Some(WorkshopItemVisibility::Private)
        } else if code == 3 {
            Some(WorkshopItemVisibility::Unlisted)
        } else {
            None
        }
    }
}

/// Kind of file behind a workshop item.
#[derive(Clone, Copy, Debug, PartialEq, Eq, Structural)]
pub enum WorkshopFileType {
    Community,
    Microtransaction,
    Collection,
    Art,
    Video,
    Screenshot,
    Game,
    Software,
    Concept,
    WebGuide,
    IntegratedGuide,
    Merch,
    ControllerBinding,
    SteamworksAccessInvite,
    SteamVideo,
    GameManagedItem,
}

/// Ranking of a workshop-wide query.
#[derive(Clone, Copy, Debug, PartialEq, Eq, Structural)]
pub enum WorkshopQueryType {
    RankedByVote,
    RankedByPublicationDate,
    AcceptedForGameRankedByAcceptanceDate,
    RankedByTrend,
    FavoritedByFriendsRankedByPublicationDate,
    CreatedByFriendsRankedByPublicationDate,
    RankedByNumTimesReported,
    CreatedByFollowedUsersRankedByPublicationDate,
    NotYetRated,
    RankedByTotalVotesAsc,
    RankedByVotesUp,
    RankedByTextSearch,
    RankedByTotalUniqueSubscriptions,
    RankedByPlaytimeTrend,
    RankedByTotalPlaytime,
    RankedByAveragePlaytimeTrend,
    RankedByLifetimeAveragePlaytime,
    RankedByPlaytimeSessionsTrend,
    RankedByLifetimePlaytimeSessions,
}

/// Item-type filter of a workshop query.
#[derive(Clone, Copy, Debug, PartialEq, Eq, Structural)]
pub enum WorkshopUGCType {
    Items,
    ItemsMtx,
    ItemsReadyToUse,
    Collections,
    Artwork,
    Videos,
    Screenshots,
    AllGuides,
    WebGuides,
    IntegratedGuides,
    UsableInGame,
    ControllerBindings,
    GameManagedItems,
    All,
}

/// Which of a user's lists a user-list query walks.
#[derive(Clone, Copy, Debug, PartialEq, Eq, Structural)]
pub enum WorkshopUserListType {
    Published,
    VotedOn,
    VotedUp,
    VotedDown,
    WillVoteLater,
    Favorited,
    Subscribed,
    UsedOrPlayed,
    Followed,
}

/// Sort order of a user-list query.
#[derive(Clone, Copy, Debug, PartialEq, Eq, Structural)]
pub enum WorkshopUserListOrder {
    CreationOrderDesc,
    CreationOrderAsc,
    TitleAsc,
    LastUpdatedDesc,
    SubscriptionDateDesc,
    VoteScoreDesc,
    ForModeration,
}

/// One flag of a workshop item's local state; `Unset` stands for "no flag set".
#[derive(Clone, Copy, Debug, PartialEq, Eq, Structural)]
pub enum WorkshopItemStateEnum {
    Unset,
    Subscribed,
    LegacyItem,
    Installed,
    NeedsUpdate,
    Downloading,
    DownloadPending,
}

/// The name of a state flag, as a sequence of characters.
pub open spec fn state_name(state: WorkshopItemStateEnum) -> Seq<char> {
    match state {
        WorkshopItemStateEnum::Unset => "None"@,
        WorkshopItemStateEnum::Subscribed => "Subscribed"@,
        WorkshopItemStateEnum::LegacyItem => "LegacyItem"@,
        WorkshopItemStateEnum::Installed => "Installed"@,
        WorkshopItemStateEnum::NeedsUpdate => "NeedsUpdate"@,
        WorkshopItemStateEnum::Downloading => "Downloading"@,
        WorkshopItemStateEnum::DownloadPending => "DownloadPending"@,
    }
}

/// Names a state flag.
pub fn item_state_to_string(state: WorkshopItemStateEnum) -> (name: &'static str)
    ensures
        name@ == state_name(state),
{
    match state {
        WorkshopItemStateEnum::Unset => "None",
        WorkshopItemStateEnum::Subscribed => "Subscribed",
        WorkshopItemStateEnum::LegacyItem => "LegacyItem",
        WorkshopItemStateEnum::Installed => "Installed",
        WorkshopItemStateEnum::NeedsUpdate => "NeedsUpdate",
        WorkshopItemStateEnum::Downloading => "Downloading",
        WorkshopItemStateEnum::DownloadPending => "DownloadPending",
    }
}

impl WorkshopItemStateEnum {
    /// The bit that stands for a flag in a state word; `Unset` has none.
    pub open spec fn spec_bit(self) -> u32 {
        match self {
            WorkshopItemStateEnum::Unset => 0,
            WorkshopItemStateEnum::Subscribed => 1,
            WorkshopItemStateEnum::LegacyItem => 2,
            WorkshopItemStateEnum::Installed => 4,
            WorkshopItemStateEnum::NeedsUpdate => 8,
            WorkshopItemStateEnum::Downloading => 16,
            WorkshopItemStateEnum::DownloadPending => 32,
        }
    }

    /// The bit that stands for a flag in a state word; `Unset` has none.
    pub fn bit(&self) -> (b: u32)
        ensures
            b == self.spec_bit(),
    {
        match self {
            WorkshopItemStateEnum::Unset => 0,
            WorkshopItemStateEnum::Subscribed => 1,
            WorkshopItemStateEnum::LegacyItem => 2,
            WorkshopItemStateEnum::Installed => 4,
            WorkshopItemStateEnum::NeedsUpdate => 8,
            WorkshopItemStateEnum::Downloading => 16,
            WorkshopItemStateEnum::DownloadPending => 32,
        }
    }
}

impl WorkshopFileType {
    /// The integer code under which a file type travels.
    pub open spec fn spec_code(self) -> u32 {
        match self {
            WorkshopFileType::Community => 0,
            WorkshopFileType::Microtransaction => 1,
            WorkshopFileType::Collection => 2,
            WorkshopFileType::Art => 3,
            WorkshopFileType::Video => 4,
            WorkshopFileType::Screenshot => 5,
            WorkshopFileType::Game => 6,
            WorkshopFileType::Software => 7,
            WorkshopFileType::Concept => 8,
            WorkshopFileType::WebGuide => 9,
            WorkshopFileType::IntegratedGuide => 10,
            WorkshopFileType::Merch => 11,
            WorkshopFileType::ControllerBinding => 12,
            WorkshopFileType::SteamworksAccessInvite => 13,
            WorkshopFileType::SteamVideo => 14,
            WorkshopFileType::GameManagedItem => 15,
        }
    }

    /// The integer code under which a file type travels.
    pub fn code(&self) -> (c: u32)
        ensures
            c == self.spec_code(),
    {
        match self {
            WorkshopFileType::Community => 0,
            WorkshopFileType::Microtransaction => 1,
            WorkshopFileType::Collection => 2,
            WorkshopFileType::Art => 3,
            WorkshopFileType::Video => 4,
            WorkshopFileType::Screenshot => 5,
            WorkshopFileType::Game => 6,
            WorkshopFileType::Software => 7,
            WorkshopFileType::Concept => 8,
            WorkshopFileType::WebGuide => 9,
            WorkshopFileType::IntegratedGuide => 10,
            WorkshopFileType::Merch => 11,
            WorkshopFileType::ControllerBinding => 12,
            WorkshopFileType::SteamworksAccessInvite => 13,
            WorkshopFileType::SteamVideo => 14,
            WorkshopFileType::GameManagedItem => 15,
        }
    }
}

impl WorkshopQueryType {
    /// The integer code under which a ranking travels.
    pub open spec fn spec_code(self) -> u32 {
        match self {
            WorkshopQueryType::RankedByVote => 0,
            WorkshopQueryType::RankedByPublicationDate => 1,
            WorkshopQueryType::AcceptedForGameRankedByAcceptanceDate => 2,
            WorkshopQueryType::RankedByTrend => 3,
            WorkshopQueryType::FavoritedByFriendsRankedByPublicationDate => 4,
            WorkshopQueryType::CreatedByFriendsRankedByPublicationDate => 5,
            WorkshopQueryType::RankedByNumTimesReported => 6,
            WorkshopQueryType::CreatedByFollowedUsersRankedByPublicationDate => 7,
            WorkshopQueryType::NotYetRated => 8,
            WorkshopQueryType::RankedByTotalVotesAsc => 9,
            WorkshopQueryType::RankedByVotesUp => 10,
            WorkshopQueryType::RankedByTextSearch => 11,
            WorkshopQueryType::RankedByTotalUniqueSubscriptions => 12,
            WorkshopQueryType::RankedByPlaytimeTrend => 13,
            WorkshopQueryType::RankedByTotalPlaytime => 14,
            WorkshopQueryType::RankedByAveragePlaytimeTrend => 15,
            WorkshopQueryType::RankedByLifetimeAveragePlaytime => 16,
            WorkshopQueryType::RankedByPlaytimeSessionsTrend => 17,
            WorkshopQueryType::RankedByLifetimePlaytimeSessions => 18,
        }
    }

    /// The integer code under which a ranking travels.
    pub fn code(&self) -> (c: u32)
        ensures
            c == self.spec_code(),
    {
        match self {
            WorkshopQueryType::RankedByVote => 0,
            WorkshopQueryType::RankedByPublicationDate => 1,
            WorkshopQueryType::AcceptedForGameRankedByAcceptanceDate => 2,
            WorkshopQueryType::RankedByTrend => 3,
            WorkshopQueryType::FavoritedByFriendsRankedByPublicationDate => 4,
            WorkshopQueryType::CreatedByFriendsRankedByPublicationDate => 5,
            WorkshopQueryType::RankedByNumTimesReported => 6,
            WorkshopQueryType::CreatedByFollowedUsersRankedByPublicationDate => 7,
            WorkshopQueryType::NotYetRated => 8,
            WorkshopQueryType::RankedByTotalVotesAsc => 9,
            WorkshopQueryType::RankedByVotesUp => 10,
            WorkshopQueryType::RankedByTextSearch => 11,
            WorkshopQueryType::RankedByTotalUniqueSubscriptions => 12,
            WorkshopQueryType::RankedByPlaytimeTrend => 13,
            WorkshopQueryType::RankedByTotalPlaytime => 14,
            WorkshopQueryType::RankedByAveragePlaytimeTrend => 15,
            WorkshopQueryType::RankedByLifetimeAveragePlaytime => 16,
            WorkshopQueryType::RankedByPlaytimeSessionsTrend => 17,
            WorkshopQueryType::RankedByLifetimePlaytimeSessions => 18,
        }
    }
}

impl WorkshopUGCType {
    /// The integer code under which an item-type filter travels.
    pub open spec fn spec_code(self) -> u32 {
        match self {
            WorkshopUGCType::Items => 0,
            WorkshopUGCType::ItemsMtx => 1,
            WorkshopUGCType::ItemsReadyToUse => 2,
            WorkshopUGCType::Collections => 3,
            WorkshopUGCType::Artwork => 4,
            WorkshopUGCType::Videos => 5,
            WorkshopUGCType::Screenshots => 6,
            WorkshopUGCType::AllGuides => 7,
            WorkshopUGCType::WebGuides => 8,
            WorkshopUGCType::IntegratedGuides => 9,
            WorkshopUGCType::UsableInGame => 10,
            WorkshopUGCType::ControllerBindings => 11,
            WorkshopUGCType::GameManagedItems => 12,
            WorkshopUGCType::All => 13,
        }
    }

    /// The integer code under which an item-type filter travels.
    pub fn code(&self) -> (c: u32)
        ensures
            c == self.spec_code(),
    {
        match self {
            WorkshopUGCType::Items => 0,
            WorkshopUGCType::ItemsMtx => 1,
            WorkshopUGCType::ItemsReadyToUse => 2,
            WorkshopUGCType::Collections => 3,
            WorkshopUGCType::Artwork => 4,
            WorkshopUGCType::Videos => 5,
            WorkshopUGCType::Screenshots => 6,
            WorkshopUGCType::AllGuides => 7,
            WorkshopUGCType::WebGuides => 8,
            WorkshopUGCType::IntegratedGuides => 9,
            WorkshopUGCType::UsableInGame => 10,
            WorkshopUGCType::ControllerBindings => 11,
            WorkshopUGCType::GameManagedItems => 12,
            WorkshopUGCType::All => 13,
        }
    }
}

impl WorkshopUserListType {
    /// The integer code under which a list travels.
    pub open spec fn spec_code(self) -> u32 {
        match self {
            WorkshopUserListType::Published => 0,
            WorkshopUserListType::VotedOn => 1,
            WorkshopUserListType::VotedUp => 2,
            WorkshopUserListType::VotedDown => 3,
            WorkshopUserListType::WillVoteLater => 4,
            WorkshopUserListType::Favorited => 5,
            WorkshopUserListType::Subscribed => 6,
            WorkshopUserListType::UsedOrPlayed => 7,
            WorkshopUserListType::Followed => 8,
        }
    }

    /// The integer code under which a list travels.
    pub fn code(&self) -> (c: u32)
        ensures
            c == self.spec_code(),
    {
        match self {
            WorkshopUserListType::Published => 0,
            WorkshopUserListType::VotedOn => 1,
            WorkshopUserListType::VotedUp => 2,
            WorkshopUserListType::VotedDown => 3,
            WorkshopUserListType::WillVoteLater => 4,
            WorkshopUserListType::Favorited => 5,
            WorkshopUserListType::Subscribed => 6,
            WorkshopUserListType::UsedOrPlayed => 7,
            WorkshopUserListType::Followed => 8,
        }
    }
}

impl WorkshopUserListOrder {
    /// The integer code under which a sort order travels.
    pub open spec fn spec_code(self) -> u32 {
        match self {
            WorkshopUserListOrder::CreationOrderDesc => 0,
            WorkshopUserListOrder::CreationOrderAsc => 1,
            WorkshopUserListOrder::TitleAsc => 2,
            WorkshopUserListOrder::LastUpdatedDesc => 3,
            WorkshopUserListOrder::SubscriptionDateDesc => 4,
            WorkshopUserListOrder::VoteScoreDesc => 5,
            WorkshopUserListOrder::ForModeration => 6,
        }
    }

    /// The integer code under which a sort order travels.
    pub fn code(&self) -> (c: u32)
        ensures
            c == self.spec_code(),
    {
        match self {
            WorkshopUserListOrder::CreationOrderDesc => 0,
            WorkshopUserListOrder::CreationOrderAsc => 1,
            WorkshopUserListOrder::TitleAsc => 2,
            WorkshopUserListOrder::LastUpdatedDesc => 3,
            WorkshopUserListOrder::SubscriptionDateDesc => 4,
            WorkshopUserListOrder::VoteScoreDesc => 5,
            WorkshopUserListOrder::ForModeration => 6,
        }
    }
}

/// `[state]` if the bit of `state` is set in `bits`, else nothing.
pub open spec fn flag_if_set(bits: u32, state: WorkshopItemStateEnum) -> Seq<WorkshopItemStateEnum> {
    if bits & state.spec_bit() != 0 {
        seq![state]
    } else {
        seq![]
    }
}

/// The flags set in a state word, in rising order of their bits.
pub open spec fn set_flags(bits: u32) -> Seq<WorkshopItemStateEnum> {
    flag_if_set(bits, WorkshopItemStateEnum::Subscribed)
        + flag_if_set(bits, WorkshopItemStateEnum::LegacyItem)
        + flag_if_set(bits, WorkshopItemStateEnum::Installed)
        + flag_if_set(bits, WorkshopItemStateEnum::NeedsUpdate)
        + flag_if_set(bits, WorkshopItemStateEnum::Downloading)
        + flag_if_set(bits, WorkshopItemStateEnum::DownloadPending)
}

/// What a state word says of an item: its set flags, or `Unset` alone where
/// none of the six is set.
pub open spec fn states_of_bits(bits: u32) -> Seq<WorkshopItemStateEnum> {
    if set_flags(bits).len() == 0 {
        seq![WorkshopItemStateEnum::Unset]
    } else {
        set_flags(bits)
    }
}

/// Spells a state word out as a list of flags.
pub fn item_states_from_bits(bits: u32) -> (states: Vec<WorkshopItemStateEnum>)
    ensures
        states@ == states_of_bits(bits),
{
    let mut states: Vec<WorkshopItemStateEnum> = Vec::new();
    if bits & 1 != 0 {
        states.push(WorkshopItemStateEnum::Subscribed);
    }
    assert(states@ =~= flag_if_set(bits, WorkshopItemStateEnum::Subscribed));
    let ghost s1 = states@;
    if bits & 2 != 0 {
        states.push(WorkshopItemStateEnum::LegacyItem);
    }
    assert(states@ =~= s1 + flag_if_set(bits, WorkshopItemStateEnum::LegacyItem));
    let ghost s2 = states@;
    if bits & 4 != 0 {
        states.push(WorkshopItemStateEnum::Installed);
    }
    assert(states@ =~= s2 + flag_if_set(bits, WorkshopItemStateEnum::Installed));
    let ghost s3 = states@;
    if bits & 8 != 0 {
        states.push(WorkshopItemStateEnum::NeedsUpdate);
    }
    assert(states@ =~= s3 + flag_if_set(bits, WorkshopItemStateEnum::NeedsUpdate));
    let ghost s4 = states@;
    if bits & 16 != 0 {
        states.push(WorkshopItemStateEnum::Downloading);
    }
    assert(states@ =~= s4 + flag_if_set(bits, WorkshopItemStateEnum::Downloading));
    let ghost s5 = states@;
    if bits & 32 != 0 {
        states.push(WorkshopItemStateEnum::DownloadPending);
    }
    assert(states@ =~= s5 + flag_if_set(bits, WorkshopItemStateEnum::DownloadPending));
    assert(states@ =~= set_flags(bits));
    if states.len() == 0 {
        states.push(WorkshopItemStateEnum::Unset);
        assert(states@ =~= seq![WorkshopItemStateEnum::Unset]);
    }
    states
}

/// What an update of a workshop item changes; an absent field is left as it is.
#[derive(Clone, Debug, PartialEq, Eq)]
pub struct WorkshopItemUpdateDetails {
    pub title: Option<String>,
    pub description: Option<String>,
    pub changelog: Option<String>,
    pub preview_path: Option<String>,
    pub content_path: Option<String>,
    pub tags: Option<Vec<String>>,
    pub visibility: Option<u32>,
}

/// What creating a workshop item gave back.
#[derive(Clone, Debug, PartialEq, Eq)]
pub struct WorkshopItemCreationResult {
    pub item_id: u64,
    pub needs_to_accept_agreement: bool,
}

/// Where an installed workshop item lies on disk.
#[derive(Clone, Debug, PartialEq, Eq)]
pub struct WorkshopItemInstallInfo {
    pub folder: String,
    pub size_on_disk: u64,
    pub timestamp: u32,
}

/// Progress of a download, in bytes.
#[derive(Clone, Debug, PartialEq, Eq)]
pub struct DownloadInfo {
    pub current: u64,
    pub total: u64,
}

} // verus!
