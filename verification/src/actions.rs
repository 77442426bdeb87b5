//! The vocabulary of a run: the remote calls the core can decide on, the
//! pacing sleeps between them, and spec-level helpers to count and
//! inspect planned action sequences.

use vstd::prelude::*;

verus! {

/// The four consumable booster cards.
#[derive(Clone, Debug, PartialEq, Eq)]
pub enum CardKind {
    Double,
    Fast,
    Sign,
    Bean,
}

/// One remote call the core can decide to make.  A variant carries
/// exactly the request data that the decision fixed; the constant
/// transport dressing is the driver's business.
#[derive(Clone, Debug, PartialEq, Eq)]
pub enum Call {
    FarmSnapshot,
    TaskCatalog,
    CardInventory,
    ClockInData,
    FriendList,
    PopReward,
    Water,
    TotalWaterAward,
    FirstWaterAward,
    TreasureBoxAck,
    TreasureBoxConfirm(String),
    BrowseStart(String),
    BrowseClaim(String),
    WaterRain(u64),
    WaterFriend(String),
    WaterFriendAward,
    ClockInSign,
    ClockInFollow(String),
    ClockInFollowClaim(String),
    UseCard(CardKind),
    CollectionReward,
    ThreeMeal,
}

/// One element of a plan: a remote call, or a pacing sleep in seconds.
#[derive(Clone, Debug, PartialEq, Eq)]
pub enum Action {
    Send(Call),
    Sleep(u64),
}

/// The shape of an action with its request data forgotten: what the
/// counting laws quantify over.
#[derive(Clone, Copy, Debug, PartialEq, Eq)]
pub enum ActionTag {
    FarmSnapshot,
    TaskCatalog,
    CardInventory,
    ClockInData,
    FriendList,
    PopReward,
    Water,
    TotalWaterAward,
    FirstWaterAward,
    TreasureBoxAck,
    TreasureBoxConfirm,
    BrowseStart,
    BrowseClaim,
    WaterRain,
    WaterFriend,
    WaterFriendAward,
    ClockInSign,
    ClockInFollow,
    ClockInFollowClaim,
    UseCard,
    CollectionReward,
    ThreeMeal,
    Sleep,
}

/// The tag of an action.
pub open spec fn tag_of(a: Action) -> ActionTag {
    match a {
        Action::Sleep(_) => ActionTag::Sleep,
        Action::Send(c) => match c {
            Call::FarmSnapshot => ActionTag::FarmSnapshot,
            Call::TaskCatalog => ActionTag::TaskCatalog,
            Call::CardInventory => ActionTag::CardInventory,
            Call::ClockInData => ActionTag::ClockInData,
            Call::FriendList => ActionTag::FriendList,
            Call::PopReward => ActionTag::PopReward,
            Call::Water => ActionTag::Water,
            Call::TotalWaterAward => ActionTag::TotalWaterAward,
            Call::FirstWaterAward => ActionTag::FirstWaterAward,
            Call::TreasureBoxAck => ActionTag::TreasureBoxAck,
            Call::TreasureBoxConfirm(_) => ActionTag::TreasureBoxConfirm,
            Call::BrowseStart(_) => ActionTag::BrowseStart,
            Call::BrowseClaim(_) => ActionTag::BrowseClaim,
            Call::WaterRain(_) => ActionTag::WaterRain,
            Call::WaterFriend(_) => ActionTag::WaterFriend,
            Call::WaterFriendAward => ActionTag::WaterFriendAward,
            Call::ClockInSign => ActionTag::ClockInSign,
            Call::ClockInFollow(_) => ActionTag::ClockInFollow,
            Call::ClockInFollowClaim(_) => ActionTag::ClockInFollowClaim,
            Call::UseCard(_) => ActionTag::UseCard,
            Call::CollectionReward => ActionTag::CollectionReward,
            Call::ThreeMeal => ActionTag::ThreeMeal,
        },
    }
}

/// How many actions of a plan carry the given tag.
pub open spec fn count_tag(p: Seq<Action>, t: ActionTag) -> nat
    decreases p.len(),
{
    if p.len() == 0 {
        0
    } else {
        (if tag_of(p[0]) == t {
            1nat
        } else {
            0nat
        }) + count_tag(p.drop_first(), t)
    }
}

/// How many remote calls a plan issues (everything but sleeps).
pub open spec fn count_sends(p: Seq<Action>) -> nat
    decreases p.len(),
{
    if p.len() == 0 {
        0
    } else {
        (if p[0] is Send {
            1nat
        } else {
            0nat
        }) + count_sends(p.drop_first())
    }
}

/// Tag counting distributes over plan concatenation.
pub proof fn lemma_count_tag_add(a: Seq<Action>, b: Seq<Action>, t: ActionTag)
    ensures
        count_tag(a + b, t) == count_tag(a, t) + count_tag(b, t),
    decreases a.len(),
{
    if a.len() == 0 {
        assert(a + b =~= b);
    } else {
        assert((a + b).drop_first() =~= a.drop_first() + b);
        lemma_count_tag_add(a.drop_first(), b, t);
    }
}

/// Send counting distributes over plan concatenation.
pub proof fn lemma_count_sends_add(a: Seq<Action>, b: Seq<Action>)
    ensures
        count_sends(a + b) == count_sends(a) + count_sends(b),
    decreases a.len(),
{
    if a.len() == 0 {
        assert(a + b =~= b);
    } else {
        assert((a + b).drop_first() =~= a.drop_first() + b);
        lemma_count_sends_add(a.drop_first(), b);
    }
}

/// An empty plan issues no calls.
pub proof fn lemma_counts_empty(t: ActionTag)
    ensures
        count_tag(Seq::<Action>::empty(), t) == 0,
        count_sends(Seq::<Action>::empty()) == 0,
{
}

/// A singleton plan counts one or zero, by its action's tag.
pub proof fn lemma_counts_one(x: Action, t: ActionTag)
    ensures
        count_tag(seq![x], t) == (if tag_of(x) == t {
            1nat
        } else {
            0nat
        }),
        count_sends(seq![x]) == (if x is Send {
            1nat
        } else {
            0nat
        }),
{
    let s = seq![x];
    assert(s[0] == x);
    assert(s.drop_first() =~= Seq::<Action>::empty());
    assert(count_tag(Seq::<Action>::empty(), t) == 0);
    assert(count_sends(Seq::<Action>::empty()) == 0);
}

/// A two-action plan counts each of its actions.
pub proof fn lemma_counts_pair(x: Action, y: Action, t: ActionTag)
    ensures
        count_tag(seq![x, y], t) == (if tag_of(x) == t {
            1nat
        } else {
            0nat
        }) + (if tag_of(y) == t {
            1nat
        } else {
            0nat
        }),
        count_sends(seq![x, y]) == (if x is Send {
            1nat
        } else {
            0nat
        }) + (if y is Send {
            1nat
        } else {
            0nat
        }),
{
    let s = seq![x, y];
    assert(s[0] == x);
    assert(s.drop_first() =~= seq![y]);
    lemma_counts_one(y, t);
}

/// A three-action plan counts each of its actions.
pub proof fn lemma_counts_triple(x: Action, y: Action, z: Action, t: ActionTag)
    ensures
        count_tag(seq![x, y, z], t) == (if tag_of(x) == t {
            1nat
        } else {
            0nat
        }) + (if tag_of(y) == t {
            1nat
        } else {
            0nat
        }) + (if tag_of(z) == t {
            1nat
        } else {
            0nat
        }),
        count_sends(seq![x, y, z]) == (if x is Send {
            1nat
        } else {
            0nat
        }) + (if y is Send {
            1nat
        } else {
            0nat
        }) + (if z is Send {
            1nat
        } else {
            0nat
        }),
{
    let s = seq![x, y, z];
    assert(s[0] == x);
    assert(s.drop_first() =~= seq![y, z]);
    lemma_counts_pair(y, z, t);
}

/// The remote action identifier each call goes out under.
pub open spec fn action_id_spec(c: Call) -> Seq<char> {
    match c {
        Call::FarmSnapshot => "initForFarm"@,
        Call::TaskCatalog => "taskInitForFarm"@,
        Call::CardInventory => "myCardInfoForFarm"@,
        Call::ClockInData => "clockInInitForFarm"@,
        Call::FriendList => "friendListInitForFarm"@,
        Call::PopReward => "gotWaterGoalTaskForFarm"@,
        Call::Water => "waterGoodForFarm"@,
        Call::TotalWaterAward => "totalWaterTaskForFarm"@,
        Call::FirstWaterAward => "firstWaterTaskForFarm"@,
        Call::TreasureBoxAck => "ddnc_getTreasureBoxAward"@,
        Call::TreasureBoxConfirm(_) => "ddnc_getTreasureBoxAward"@,
        Call::BrowseStart(_) => "browseAdTaskForFarm"@,
        Call::BrowseClaim(_) => "browseAdTaskForFarm"@,
        Call::WaterRain(_) => "waterRainForFarm"@,
        Call::WaterFriend(_) => "waterFriendForFarm"@,
        Call::WaterFriendAward => "waterFriendGotAwardForFarm"@,
        Call::ClockInSign => "clockInForFarm"@,
        Call::ClockInFollow(_) => "clockInFollowForFarm"@,
        Call::ClockInFollowClaim(_) => "clockInFollowForFarm"@,
        Call::UseCard(_) => "userMyCardForFarm"@,
        Call::CollectionReward => "getFullCollectionReward"@,
        Call::ThreeMeal => "gotThreeMealForFarm"@,
    }
}

/// Executable counterpart of `action_id_spec`.
pub fn action_id(c: &Call) -> (s: &'static str)
    ensures
        s@ == action_id_spec(*c),
{
    match c {
        Call::FarmSnapshot => "initForFarm",
        Call::TaskCatalog => "taskInitForFarm",
        Call::CardInventory => "myCardInfoForFarm",
        Call::ClockInData => "clockInInitForFarm",
        Call::FriendList => "friendListInitForFarm",
        Call::PopReward => "gotWaterGoalTaskForFarm",
        Call::Water => "waterGoodForFarm",
        Call::TotalWaterAward => "totalWaterTaskForFarm",
        Call::FirstWaterAward => "firstWaterTaskForFarm",
        Call::TreasureBoxAck => "ddnc_getTreasureBoxAward",
        Call::TreasureBoxConfirm(_) => "ddnc_getTreasureBoxAward",
        Call::BrowseStart(_) => "browseAdTaskForFarm",
        Call::BrowseClaim(_) => "browseAdTaskForFarm",
        Call::WaterRain(_) => "waterRainForFarm",
        Call::WaterFriend(_) => "waterFriendForFarm",
        Call::WaterFriendAward => "waterFriendGotAwardForFarm",
        Call::ClockInSign => "clockInForFarm",
        Call::ClockInFollow(_) => "clockInFollowForFarm",
        Call::ClockInFollowClaim(_) => "clockInFollowForFarm",
        Call::UseCard(_) => "userMyCardForFarm",
        Call::CollectionReward => "getFullCollectionReward",
        Call::ThreeMeal => "gotThreeMealForFarm",
    }
}

/// The card-type identifier a card consumption goes out under.
pub open spec fn card_type_id_spec(k: CardKind) -> Seq<char> {
    match k {
        CardKind::Double => "doubleCard"@,
        CardKind::Fast => "fastCard"@,
        CardKind::Sign => "signCard"@,
        CardKind::Bean => "beanCard"@,
    }
}

/// Executable counterpart of `card_type_id_spec`.
pub fn card_type_id(k: &CardKind) -> (s: &'static str)
    ensures
        s@ == card_type_id_spec(*k),
{
    match k {
        CardKind::Double => "doubleCard",
        CardKind::Fast => "fastCard",
        CardKind::Sign => "signCard",
        CardKind::Bean => "beanCard",
    }
}

} // verus!
