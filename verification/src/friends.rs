//! The social graph as a caller sees it: relationships, presence states and
//! the records that describe a friend.

use vstd::prelude::*;

verus! {

/// How another account stands to the current user.
#[derive(Clone, Copy, Debug, PartialEq, Eq, Structural)]
pub enum FriendRelationshipEnum {
    NoRelation,
    Blocked,
    RequestRecipient,
    Friend,
    RequestInitiator,
    Ignored,
    IgnoredFriend,
}

/// The presence state of an account.
#[derive(Clone, Copy, Debug, PartialEq, Eq, Structural)]
pub enum PersonaStateEnum {
    Offline,
    Online,
    Busy,
    Away,
    Snooze,
    LookingToTrade,
    LookingToPlay,
    Invisible,
}

/// One friend of the current user.
#[derive(Clone, Debug, PartialEq, Eq)]
pub struct FriendInfo {
    pub steam_id: u64,
    pub name: String,
    pub state: u32,
    pub relationship: u32,
    pub game_played: Option<String>,
}

/// One key of an account's rich presence, with its value.
#[derive(Clone, Debug, PartialEq, Eq)]
pub struct RichPresenceInfo {
    pub key: String,
    pub value: String,
}

/// The current user.
#[derive(Clone, Debug, PartialEq, Eq)]
pub struct UserInfo {
    pub steam_id: u64,
    pub account_id: u32,
    pub name: String,
    pub state: PersonaStateEnum,
    pub level: u32,
    pub logged_on: bool,
}

/// The relationships that a listing of friends takes in.
#[derive(Clone, Copy, Debug, PartialEq, Eq, Structural)]
pub struct FriendFilter {
    pub blocked: bool,
    pub request_recipient: bool,
    pub friend: bool,
    pub request_initiator: bool,
    pub ignored: bool,
    pub ignored_friend: bool,
}

impl FriendRelationshipEnum {
    /// The integer code of a relationship. The codes of the relationships
    /// that an account can be asked for rise in the order in which they are
    /// asked for.
    pub open spec fn spec_code(self) -> u32 {
        match self {
            FriendRelationshipEnum::NoRelation => 0,
            FriendRelationshipEnum::Blocked => 1,
            FriendRelationshipEnum::RequestRecipient => 2,
            FriendRelationshipEnum::Friend => 3,
            FriendRelationshipEnum::RequestInitiator => 4,
            FriendRelationshipEnum::Ignored => 5,
            FriendRelationshipEnum::IgnoredFriend => 6,
        }
    }

    /// The integer code of a relationship.
    pub fn code(&self) -> (c: u32)
        ensures
            c == self.spec_code(),
    {
        match self {
            FriendRelationshipEnum::NoRelation => 0,
            FriendRelationshipEnum::Blocked => 1,
            FriendRelationshipEnum::RequestRecipient => 2,
            FriendRelationshipEnum::Friend => 3,
            FriendRelationshipEnum::RequestInitiator => 4,
            FriendRelationshipEnum::Ignored => 5,
            FriendRelationshipEnum::IgnoredFriend => 6,
        }
    }
}

impl PersonaStateEnum {
    /// The integer code of a presence state.
    pub open spec fn spec_code(self) -> u32 {
        match self {
            PersonaStateEnum::Offline => 0,
            PersonaStateEnum::Online => 1,
            PersonaStateEnum::Busy => 2,
            PersonaStateEnum::Away => 3,
            PersonaStateEnum::Snooze => 4,
            PersonaStateEnum::LookingToTrade => 5,
            PersonaStateEnum::LookingToPlay => 6,
            PersonaStateEnum::Invisible => 7,
        }
    }
}

impl FriendFilter {
    /// Whether the filter takes in accounts that stand in `relationship`.
    pub open spec fn includes(self, relationship: FriendRelationshipEnum) -> bool {
        match relationship {
            FriendRelationshipEnum::NoRelation => false,
            FriendRelationshipEnum::Blocked => self.blocked,
            FriendRelationshipEnum::RequestRecipient => self.request_recipient,
            FriendRelationshipEnum::Friend => self.friend,
            FriendRelationshipEnum::RequestInitiator => self.request_initiator,
            FriendRelationshipEnum::Ignored => self.ignored,
            FriendRelationshipEnum::IgnoredFriend => self.ignored_friend,
        }
    }

    /// The filter that takes in nothing.
    pub fn empty() -> (filter: FriendFilter)
        ensures
            forall|relationship: FriendRelationshipEnum| !filter.includes(relationship),
    {
        FriendFilter {
            blocked: false,
            request_recipient: false,
            friend: false,
            request_initiator: false,
            ignored: false,
            ignored_friend: false,
        }
    }

    /// This filter, widened by one relationship; `NoRelation` widens nothing.
    pub fn with(self, relationship: FriendRelationshipEnum) -> (filter: FriendFilter)
        ensures
            forall|other: FriendRelationshipEnum|
                filter.includes(other) == (self.includes(other) || (other == relationship && other
                    != FriendRelationshipEnum::NoRelation)),
    {
        let mut filter = self;
        match relationship {
            FriendRelationshipEnum::NoRelation => {},
            FriendRelationshipEnum::Blocked => {
                filter.blocked = true;
            },
            FriendRelationshipEnum::RequestRecipient => {
                filter.request_recipient = true;
            },
            FriendRelationshipEnum::Friend => {
                filter.friend = true;
            },
            FriendRelationshipEnum::RequestInitiator => {
                filter.request_initiator = true;
            },
            FriendRelationshipEnum::Ignored => {
                filter.ignored = true;
            },
            FriendRelationshipEnum::IgnoredFriend => {
                filter.ignored_friend = true;
            },
        }
        filter
    }
}

/// What a listing takes in, given the relationships that a caller named:
/// those relationships, or, where the caller named no list at all, friends
/// alone. An empty list takes in nothing.
pub open spec fn selected(
    flags: Option<Seq<FriendRelationshipEnum>>,
    relationship: FriendRelationshipEnum,
) -> bool {
    match flags {
        Some(list) => relationship != FriendRelationshipEnum::NoRelation && list.contains(
            relationship,
        ),
        None => relationship == FriendRelationshipEnum::Friend,
    }
}

/// The view of an optional list as an optional sequence.
pub open spec fn flags_view(flags: Option<Vec<FriendRelationshipEnum>>) -> Option<
    Seq<FriendRelationshipEnum>,
> {
    match flags {
        Some(list) => Some(list@),
        None => None,
    }
}

/// Builds the filter for a listing from the relationships that a caller
/// named.
pub fn friend_filter(flags: Option<Vec<FriendRelationshipEnum>>) -> (filter: FriendFilter)
    ensures
        forall|relationship: FriendRelationshipEnum|
            filter.includes(relationship) == selected(flags_view(flags), relationship),
{
    match flags {
        Some(list) => {
            let mut filter = FriendFilter::empty();
            let mut i: usize = 0;
            while i < list.len()
                invariant
                    i <= list.len(),
                    forall|relationship: FriendRelationshipEnum|
                        filter.includes(relationship) == (relationship
                            != FriendRelationshipEnum::NoRelation && list@.take(i as int).contains(
                            relationship,
                        )),
                decreases list.len() - i,
            {
                let next = list[i];
                let ghost before = list@.take(i as int);
                let ghost after = list@.take(i + 1);
                assert(after =~= before.push(next));
                assert forall|relationship: FriendRelationshipEnum|
                    after.contains(relationship) == (before.contains(relationship) || relationship
                        == next) by {
                    if before.contains(relationship) {
                        let k = choose|k: int| 0 <= k < before.len() && before[k] == relationship;
                        assert(after[k] == relationship);
                    }
                    if relationship == next {
                        assert(after[i as int] == relationship);
                    }
                }
                filter = filter.with(next);
                i = i + 1;
            }
            assert(list@.take(i as int) =~= list@);
            filter
        },
        None => FriendFilter::empty().with(FriendRelationshipEnum::Friend),
    }
}

/// Finds how an account stands to the current user, by asking `probe` for one
/// relationship after another, in the order of their codes, until it says
/// yes. What comes back is the first relationship for which it did, or
/// `NoRelation` where it said no to all six. No relationship is asked for
/// after the one that was found.
pub fn get_friend_relationship_enum<F>(probe: F) -> (relationship: FriendRelationshipEnum)
    where F: Fn(FriendRelationshipEnum) -> bool
    requires
        forall|asked: FriendRelationshipEnum| call_requires(probe, (asked,)),
    ensures
        relationship != FriendRelationshipEnum::NoRelation ==> call_ensures(
            probe,
            (relationship,),
            true,
        ),
        forall|asked: FriendRelationshipEnum|
            asked != FriendRelationshipEnum::NoRelation && (relationship
                == FriendRelationshipEnum::NoRelation || asked.spec_code()
                < relationship.spec_code()) ==> #[trigger] call_ensures(probe, (asked,), false),
{
    if probe(FriendRelationshipEnum::Blocked) {
        return FriendRelationshipEnum::Blocked;
    }
    if probe(FriendRelationshipEnum::RequestRecipient) {
        return FriendRelationshipEnum::RequestRecipient;
    }
    if probe(FriendRelationshipEnum::Friend) {
        return FriendRelationshipEnum::Friend;
    }
    if probe(FriendRelationshipEnum::RequestInitiator) {
        return FriendRelationshipEnum::RequestInitiator;
    }
    if probe(FriendRelationshipEnum::Ignored) {
        return FriendRelationshipEnum::Ignored;
    }
    if probe(FriendRelationshipEnum::IgnoredFriend) {
        return FriendRelationshipEnum::IgnoredFriend;
    }
    FriendRelationshipEnum::NoRelation
}

/// The integer code of how an account stands to the current user, found as
/// `get_friend_relationship_enum` finds the relationship.
pub fn map_friend_relationship<F>(probe: F) -> (code: u32)
    where F: Fn(FriendRelationshipEnum) -> bool
    requires
        forall|asked: FriendRelationshipEnum| call_requires(probe, (asked,)),
    ensures
        code <= 6,
        forall|found: FriendRelationshipEnum|
            found.spec_code() == code && code != 0 ==> #[trigger] call_ensures(
                probe,
                (found,),
                true,
            ),
        forall|asked: FriendRelationshipEnum|
            asked != FriendRelationshipEnum::NoRelation && (code == 0 || asked.spec_code() < code)
                ==> #[trigger] call_ensures(probe, (asked,), false),
{
    let relationship = get_friend_relationship_enum(probe);
    let code = relationship.code();
    assert forall|found: FriendRelationshipEnum|
        found.spec_code() == code && code != 0 implies #[trigger] call_ensures(
        probe,
        (found,),
        true,
    ) by {
        assert(found == relationship);
    }
    code
}

/// The integer code of a presence state.
pub fn map_persona_state(state: PersonaStateEnum) -> (code: u32)
    ensures
        code == state.spec_code(),
{
    match state {
        PersonaStateEnum::Offline => 0,
        PersonaStateEnum::Online => 1,
        PersonaStateEnum::Busy => 2,
        PersonaStateEnum::Away => 3,
        PersonaStateEnum::Snooze => 4,
        PersonaStateEnum::LookingToTrade => 5,
        PersonaStateEnum::LookingToPlay => 6,
        PersonaStateEnum::Invisible => 7,
    }
}

/// The character that writes a decimal digit.
pub open spec fn digit_char(digit: nat) -> char {
    if digit == 0 {
        '0'
    } else if digit == 1 {
        '1'
    } else if digit == 2 {
        '2'
    } else if digit == 3 {
        '3'
    } else if digit == 4 {
        '4'
    } else if digit == 5 {
        '5'
    } else if digit == 6 {
        '6'
    } else if digit == 7 {
        '7'
    } else if digit == 8 {
        '8'
    } else {
        '9'
    }
}

/// A number written in decimal, without leading zeros.
pub open spec fn decimal(n: nat) -> Seq<char>
    decreases n,
{
    if n < 10 {
        seq![digit_char(n)]
    } else {
        decimal(n / 10).push(digit_char(n % 10))
    }
}

/// The text of one decimal digit.
fn digit_text(digit: u32) -> (text: &'static str)
    requires
        digit < 10,
    ensures
        text@ == seq![digit_char(digit as nat)],
{
    proof {
        reveal_strlit("0");
        reveal_strlit("1");
        reveal_strlit("2");
        reveal_strlit("3");
        reveal_strlit("4");
        reveal_strlit("5");
        reveal_strlit("6");
        reveal_strlit("7");
        reveal_strlit("8");
        reveal_strlit("9");
    }
    let text = if digit == 0 {
        "0"
    } else if digit == 1 {
        "1"
    } else if digit == 2 {
        "2"
    } else if digit == 3 {
        "3"
    } else if digit == 4 {
        "4"
    } else if digit == 5 {
        "5"
    } else if digit == 6 {
        "6"
    } else if digit == 7 {
        "7"
    } else if digit == 8 {
        "8"
    } else {
        "9"
    };
    assert(text@ =~= seq![digit_char(digit as nat)]);
    text
}

/// Writes an application's identifier in decimal.
pub fn app_id_text(app_id: u32) -> (text: String)
    ensures
        text@ == decimal(app_id as nat),
    decreases app_id,
{
    if app_id < 10 {
        digit_text(app_id).to_owned()
    } else {
        let mut text = app_id_text(app_id / 10);
        let last = digit_text(app_id % 10);
        text.append(last);
        assert(text@ =~= decimal((app_id / 10) as nat).push(digit_char((app_id % 10) as nat)));
        text
    }
}

/// The game that an account plays, as text: the decimal identifier of the
/// game's application, or nothing where the account plays none.
pub open spec fn game_text(game_app_id: Option<u32>) -> Option<Seq<char>> {
    match game_app_id {
        Some(app_id) => Some(decimal(app_id as nat)),
        None => None,
    }
}

/// The view of an optional text.
pub open spec fn text_view(text: Option<String>) -> Option<Seq<char>> {
    match text {
        Some(text) => Some(text@),
        None => None,
    }
}

/// Writes the game that an account plays.
pub fn get_friend_game_played(game_app_id: Option<u32>) -> (text: Option<String>)
    ensures
        text_view(text) == game_text(game_app_id),
{
    match game_app_id {
        Some(app_id) => Some(app_id_text(app_id)),
        None => None,
    }
}

/// Describes one friend: identifier and name as they are, the presence state
/// and the relationship as their codes, the game as text. The relationship is
/// found by asking `probe`, as `map_friend_relationship` does.
pub fn friend_info<F>(
    steam_id: u64,
    name: String,
    state: PersonaStateEnum,
    game_app_id: Option<u32>,
    probe: F,
) -> (info: FriendInfo)
    where F: Fn(FriendRelationshipEnum) -> bool
    requires
        forall|asked: FriendRelationshipEnum| call_requires(probe, (asked,)),
    ensures
        info.steam_id == steam_id,
        info.name == name,
        info.state == state.spec_code(),
        text_view(info.game_played) == game_text(game_app_id),
        info.relationship <= 6,
        forall|found: FriendRelationshipEnum|
            found.spec_code() == info.relationship && info.relationship != 0
                ==> #[trigger] call_ensures(probe, (found,), true),
        forall|asked: FriendRelationshipEnum|
            asked != FriendRelationshipEnum::NoRelation && (info.relationship == 0
                || asked.spec_code() < info.relationship) ==> #[trigger] call_ensures(
                probe,
                (asked,),
                false,
            ),
{
    let relationship = map_friend_relationship(probe);
    FriendInfo {
        steam_id,
        name,
        state: map_persona_state(state),
        relationship,
        game_played: get_friend_game_played(game_app_id),
    }
}

} // verus!
