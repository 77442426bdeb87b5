//! Snapshot structures read back from the remote service, and the
//! decoders that build them out of classified envelopes.
//!
//! Every entity is rebuilt fresh during one run; nothing is kept between
//! runs.  A decoder returns `None` exactly when a required field is
//! absent or out of range — its contract says so over the named payload
//! fields — and the orchestrator treats `None` like the fetch having
//! failed.

use vstd::prelude::*;
use serde_json::Value;
use crate::envelope::{
    Envelope,
    json_get,
    json_as_u64,
    json_as_bool,
    json_as_string,
    json_as_array,
    spec_field,
    spec_u64,
    spec_bool,
    spec_str,
    spec_array,
};

verus! {

/// Aggregate state of the tree: balances, growth stage and prize data.
#[derive(Clone, Debug)]
pub struct FarmInfo {
    pub total_energy: u32,
    pub tree_state: u8,
    pub tree_energy: u32,
    pub tree_total_energy: u32,
    pub share_code: String,
    pub nick_name: String,
    pub name: String,
    pub prize_level: u8,
}

/// Daily sign-in entry of the task catalog (the remote action is retired;
/// only the flag is still read).
#[derive(Clone, Debug)]
pub struct SignInTask {
    pub f: bool,
}

/// First-water entry of the task catalog.
#[derive(Clone, Debug)]
pub struct FirstWaterTask {
    pub f: bool,
}

/// Ten-waters-quota entry of the task catalog.
#[derive(Clone, Debug)]
pub struct TotalWaterTask {
    pub f: bool,
    pub total_water_task_limit: u16,
    pub total_water_task_times: u16,
}

/// Water-two-friends entry of the task catalog.
#[derive(Clone, Debug)]
pub struct WaterFriendTask {
    pub water_friend_max: u8,
    pub water_friend_count_key: u8,
    pub f: bool,
    pub water_friend_got_award: bool,
}

/// One ad-browsing item: identity, daily limit and server-imposed wait.
#[derive(Clone, Debug)]
pub struct BrowseTaskItem {
    pub advert_id: String,
    pub main_title: String,
    pub limit: u8,
    pub had_finished_times: u8,
    pub time: u16,
    pub had_got_times: u8,
}

/// Ad-browsing entry of the task catalog.
#[derive(Clone, Debug)]
pub struct BrowseTask {
    pub f: bool,
    pub user_browse_task_ads: Vec<BrowseTaskItem>,
}

/// Promo-entry task: confirm that the farm was entered via the app's
/// free-fruit route, whose token the catalog supplies.
#[derive(Clone, Debug)]
pub struct TreasureBoxTask {
    pub line: String,
    pub f: bool,
}

/// Water-rain entry of the task catalog, cooldown-gated by `last_time`
/// (milliseconds since the Unix epoch).
#[derive(Clone, Debug)]
pub struct WaterRainTask {
    pub f: bool,
    pub win_times: u8,
    pub last_time: u64,
}

/// One friend: display name, share code to target, and whether watering
/// this friend is currently possible (`friend_state != 0`).
#[derive(Clone, Debug)]
pub struct FriendInfo {
    pub nick_name: String,
    pub share_code: String,
    pub friend_state: u8,
}

/// Three-scheduled-claims entry of the task catalog.
#[derive(Clone, Debug)]
pub struct ThreeMealTask {
    pub f: bool,
}

/// The daily task catalog: one entry per activity, each with its "done"
/// flag and task-specific counters.
#[derive(Clone, Debug)]
pub struct TaskInfo {
    pub sign_init: SignInTask,
    pub first_water_init: FirstWaterTask,
    pub total_water_task_init: TotalWaterTask,
    pub water_friend_task_init: WaterFriendTask,
    pub got_browse_task_ad_init: BrowseTask,
    pub treasure_box_init: TreasureBoxTask,
    pub water_rain_init: WaterRainTask,
    pub got_three_meal_init: ThreeMealTask,
}

/// One follow task of the clock-in subsystem.
#[derive(Clone, Debug)]
pub struct FollowTask {
    pub advert_id: String,
    pub id: String,
    pub name: String,
    pub had_got: bool,
    pub had_follow: bool,
}

/// Clock-in snapshot: today's sign flag plus the follow tasks.
#[derive(Clone, Debug)]
pub struct ClockInTask {
    pub today_signed: bool,
    pub themes: Vec<FollowTask>,
}

/// Counts of the four consumable booster cards.
#[derive(Clone, Debug)]
pub struct CardInfo {
    pub double_card: u16,
    pub fast_card: u16,
    pub sign_card: u16,
    pub bean_card: u16,
}

/// A required numeric field of a payload object.
pub open spec fn req_u64_spec(v: Value, key: Seq<char>) -> Option<u64> {
    match spec_field(v, key) {
        Some(f) => spec_u64(f),
        None => None,
    }
}

/// A required boolean field of a payload object.
pub open spec fn req_bool_spec(v: Value, key: Seq<char>) -> Option<bool> {
    match spec_field(v, key) {
        Some(f) => spec_bool(f),
        None => None,
    }
}

/// A required string field of a payload object.
pub open spec fn req_str_spec(v: Value, key: Seq<char>) -> Option<Seq<char>> {
    match spec_field(v, key) {
        Some(f) => spec_str(f),
        None => None,
    }
}

/// A required numeric field that must also fit the target width.
pub open spec fn req_uint_spec(v: Value, key: Seq<char>, max: u64) -> Option<u64> {
    match req_u64_spec(v, key) {
        Some(n) => if n <= max {
            Some(n)
        } else {
            None
        },
        None => None,
    }
}

fn req_u64(v: &Value, key: &str) -> (r: Option<u64>)
    ensures
        r == req_u64_spec(*v, key@),
{
    match json_get(v, key) {
        Some(f) => json_as_u64(f),
        None => None,
    }
}

fn req_bool(v: &Value, key: &str) -> (r: Option<bool>)
    ensures
        r == req_bool_spec(*v, key@),
{
    match json_get(v, key) {
        Some(f) => json_as_bool(f),
        None => None,
    }
}

fn req_string(v: &Value, key: &str) -> (r: Option<String>)
    ensures
        (r matches Some(s) ==> req_str_spec(*v, key@) == Some(s@)),
        (r is None <==> req_str_spec(*v, key@) is None),
{
    match json_get(v, key) {
        Some(f) => json_as_string(f),
        None => None,
    }
}

fn req_u8(v: &Value, key: &str) -> (r: Option<u8>)
    ensures
        (r matches Some(n) ==> req_uint_spec(*v, key@, u8::MAX as u64) == Some(n as u64)),
        (r is None <==> req_uint_spec(*v, key@, u8::MAX as u64) is None),
{
    match req_u64(v, key) {
        Some(n) => if n <= u8::MAX as u64 {
            Some(n as u8)
        } else {
            None
        },
        None => None,
    }
}

fn req_u16(v: &Value, key: &str) -> (r: Option<u16>)
    ensures
        (r matches Some(n) ==> req_uint_spec(*v, key@, u16::MAX as u64) == Some(n as u64)),
        (r is None <==> req_uint_spec(*v, key@, u16::MAX as u64) is None),
{
    match req_u64(v, key) {
        Some(n) => if n <= u16::MAX as u64 {
            Some(n as u16)
        } else {
            None
        },
        None => None,
    }
}

fn req_u32(v: &Value, key: &str) -> (r: Option<u32>)
    ensures
        (r matches Some(n) ==> req_uint_spec(*v, key@, u32::MAX as u64) == Some(n as u64)),
        (r is None <==> req_uint_spec(*v, key@, u32::MAX as u64) is None),
{
    match req_u64(v, key) {
        Some(n) => if n <= u32::MAX as u64 {
            Some(n as u32)
        } else {
            None
        },
        None => None,
    }
}

/// The `farmUserPro` object of a farm payload.
pub open spec fn farm_payload(body: Option<Value>) -> Option<Value> {
    match body {
        Some(v) => spec_field(v, "farmUserPro"@),
        None => None,
    }
}

/// Whether the farm object carries every required field, in range.
pub open spec fn farm_fields_ok(p: Value) -> bool {
    &&& req_uint_spec(p, "totalEnergy"@, u32::MAX as u64) is Some
    &&& req_uint_spec(p, "treeState"@, u8::MAX as u64) is Some
    &&& req_uint_spec(p, "treeEnergy"@, u32::MAX as u64) is Some
    &&& req_uint_spec(p, "treeTotalEnergy"@, u32::MAX as u64) is Some
    &&& req_str_spec(p, "shareCode"@) is Some
    &&& req_str_spec(p, "nickName"@) is Some
    &&& req_str_spec(p, "name"@) is Some
    &&& req_uint_spec(p, "prizeLevel"@, u8::MAX as u64) is Some
}

/// Whether a farm payload decodes at all.
pub open spec fn farm_decodes(body: Option<Value>) -> bool {
    match farm_payload(body) {
        Some(p) => farm_fields_ok(p),
        None => false,
    }
}

/// The decoded snapshot holds exactly the farm object's fields.
pub open spec fn farm_info_matches(f: FarmInfo, p: Value) -> bool {
    &&& req_uint_spec(p, "totalEnergy"@, u32::MAX as u64) == Some(f.total_energy as u64)
    &&& req_uint_spec(p, "treeState"@, u8::MAX as u64) == Some(f.tree_state as u64)
    &&& req_uint_spec(p, "treeEnergy"@, u32::MAX as u64) == Some(f.tree_energy as u64)
    &&& req_uint_spec(p, "treeTotalEnergy"@, u32::MAX as u64) == Some(f.tree_total_energy as u64)
    &&& req_str_spec(p, "shareCode"@) == Some(f.share_code@)
    &&& req_str_spec(p, "nickName"@) == Some(f.nick_name@)
    &&& req_str_spec(p, "name"@) == Some(f.name@)
    &&& req_uint_spec(p, "prizeLevel"@, u8::MAX as u64) == Some(f.prize_level as u64)
}

/// `farm_info_matches`, reached through the optional payload.
pub open spec fn farm_info_matches_body(f: FarmInfo, body: Option<Value>) -> bool {
    match farm_payload(body) {
        Some(p) => farm_info_matches(f, p),
        None => false,
    }
}

/// Decodes the farm snapshot out of the `farmUserPro` object of a farm
/// envelope: `Some` exactly when every required field is present and in
/// range, and then each field is handed back as the payload holds it.
pub fn decode_farm_info(e: &Envelope) -> (r: Option<FarmInfo>)
    ensures
        (r is Some <==> farm_decodes(e.body)),
        (r matches Some(f) ==> farm_info_matches_body(f, e.body)),
{
    let v = match &e.body {
        Some(v) => v,
        None => { return None; },
    };
    let p = match json_get(v, "farmUserPro") {
        Some(p) => p,
        None => { return None; },
    };
    let total_energy = match req_u32(p, "totalEnergy") {
        Some(x) => x,
        None => { return None; },
    };
    let tree_state = match req_u8(p, "treeState") {
        Some(x) => x,
        None => { return None; },
    };
    let tree_energy = match req_u32(p, "treeEnergy") {
        Some(x) => x,
        None => { return None; },
    };
    let tree_total_energy = match req_u32(p, "treeTotalEnergy") {
        Some(x) => x,
        None => { return None; },
    };
    let share_code = match req_string(p, "shareCode") {
        Some(x) => x,
        None => { return None; },
    };
    let nick_name = match req_string(p, "nickName") {
        Some(x) => x,
        None => { return None; },
    };
    let name = match req_string(p, "name") {
        Some(x) => x,
        None => { return None; },
    };
    let prize_level = match req_u8(p, "prizeLevel") {
        Some(x) => x,
        None => { return None; },
    };
    Some(FarmInfo {
        total_energy,
        tree_state,
        tree_energy,
        tree_total_energy,
        share_code,
        nick_name,
        name,
        prize_level,
    })
}

/// Whether one ad item carries every required field, in range.
pub open spec fn browse_item_ok(v: Value) -> bool {
    &&& req_str_spec(v, "advertId"@) is Some
    &&& req_str_spec(v, "mainTitle"@) is Some
    &&& req_uint_spec(v, "limit"@, u8::MAX as u64) is Some
    &&& req_uint_spec(v, "hadFinishedTimes"@, u8::MAX as u64) is Some
    &&& req_uint_spec(v, "time"@, u16::MAX as u64) is Some
    &&& req_uint_spec(v, "hadGotTimes"@, u8::MAX as u64) is Some
}

/// The decoded ad item holds exactly the payload's fields.
pub open spec fn browse_item_matches(it: BrowseTaskItem, v: Value) -> bool {
    &&& req_str_spec(v, "advertId"@) == Some(it.advert_id@)
    &&& req_str_spec(v, "mainTitle"@) == Some(it.main_title@)
    &&& req_uint_spec(v, "limit"@, u8::MAX as u64) == Some(it.limit as u64)
    &&& req_uint_spec(v, "hadFinishedTimes"@, u8::MAX as u64) == Some(it.had_finished_times as u64)
    &&& req_uint_spec(v, "time"@, u16::MAX as u64) == Some(it.time as u64)
    &&& req_uint_spec(v, "hadGotTimes"@, u8::MAX as u64) == Some(it.had_got_times as u64)
}

fn decode_browse_item(v: &Value) -> (r: Option<BrowseTaskItem>)
    ensures
        (r is Some <==> browse_item_ok(*v)),
        (r matches Some(it) ==> browse_item_matches(it, *v)),
{
    let advert_id = match req_string(v, "advertId") {
        Some(x) => x,
        None => { return None; },
    };
    let main_title = match req_string(v, "mainTitle") {
        Some(x) => x,
        None => { return None; },
    };
    let limit = match req_u8(v, "limit") {
        Some(x) => x,
        None => { return None; },
    };
    let had_finished_times = match req_u8(v, "hadFinishedTimes") {
        Some(x) => x,
        None => { return None; },
    };
    let time = match req_u16(v, "time") {
        Some(x) => x,
        None => { return None; },
    };
    let had_got_times = match req_u8(v, "hadGotTimes") {
        Some(x) => x,
        None => { return None; },
    };
    Some(BrowseTaskItem { advert_id, main_title, limit, had_finished_times, time, had_got_times })
}

/// The item array of the ad-browsing entry.
pub open spec fn browse_ads(t: Value) -> Option<Seq<Value>> {
    match spec_field(t, "userBrowseTaskAds"@) {
        Some(a) => spec_array(a),
        None => None,
    }
}

/// Whether every element of the item array decodes.
pub open spec fn browse_items_ok(items: Seq<Value>) -> bool {
    forall|i: int| 0 <= i < items.len() ==> browse_item_ok(#[trigger] items[i])
}

/// Whether the ad-browsing entry decodes at all.
pub open spec fn browse_task_ok(t: Value) -> bool {
    &&& req_bool_spec(t, "f"@) is Some
    &&& (browse_ads(t) matches Some(items) && browse_items_ok(items))
}

/// The decoded ad-browsing entry holds the flag and the items in order.
pub open spec fn browse_task_matches(b: BrowseTask, t: Value) -> bool {
    &&& req_bool_spec(t, "f"@) == Some(b.f)
    &&& (browse_ads(t) matches Some(items) && b.user_browse_task_ads@.len() == items.len()
        && (forall|i: int|
            0 <= i < items.len() ==> browse_item_matches(
                #[trigger] b.user_browse_task_ads@[i],
                items[i],
            )))
}

fn decode_browse_task(t: &Value) -> (r: Option<BrowseTask>)
    ensures
        (r is Some <==> browse_task_ok(*t)),
        (r matches Some(b) ==> browse_task_matches(b, *t)),
{
    let f = match req_bool(t, "f") {
        Some(x) => x,
        None => { return None; },
    };
    let ads = match json_get(t, "userBrowseTaskAds") {
        Some(a) => match json_as_array(a) {
            Some(items) => items,
            None => { return None; },
        },
        None => { return None; },
    };
    let mut user_browse_task_ads: Vec<BrowseTaskItem> = Vec::new();
    let mut i: usize = 0;
    while i < ads.len()
        invariant
            i <= ads@.len(),
            browse_ads(*t) == Some(ads@),
            req_bool_spec(*t, "f"@) == Some(f),
            user_browse_task_ads@.len() == i,
            forall|j: int| 0 <= j < i ==> browse_item_ok(#[trigger] ads@[j]),
            forall|j: int|
                0 <= j < i ==> browse_item_matches(#[trigger] user_browse_task_ads@[j], ads@[j]),
        decreases ads@.len() - i,
    {
        match decode_browse_item(&ads[i]) {
            Some(item) => user_browse_task_ads.push(item),
            None => { return None; },
        }
        i = i + 1;
    }
    Some(BrowseTask { f, user_browse_task_ads })
}

/// The `f` flag of a flag-only catalog entry.
pub open spec fn flag_entry_spec(v: Value, key: Seq<char>) -> Option<bool> {
    match spec_field(v, key) {
        Some(t) => req_bool_spec(t, "f"@),
        None => None,
    }
}

fn decode_flag_task(v: &Value, key: &str) -> (r: Option<bool>)
    ensures
        r == flag_entry_spec(*v, key@),
{
    match json_get(v, key) {
        Some(t) => req_bool(t, "f"),
        None => None,
    }
}

/// Whether the ten-waters entry decodes.
pub open spec fn total_water_ok(t: Value) -> bool {
    &&& req_bool_spec(t, "f"@) is Some
    &&& req_uint_spec(t, "totalWaterTaskLimit"@, u16::MAX as u64) is Some
    &&& req_uint_spec(t, "totalWaterTaskTimes"@, u16::MAX as u64) is Some
}

/// The decoded ten-waters entry holds exactly the payload's fields.
pub open spec fn total_water_matches(x: TotalWaterTask, t: Value) -> bool {
    &&& req_bool_spec(t, "f"@) == Some(x.f)
    &&& req_uint_spec(t, "totalWaterTaskLimit"@, u16::MAX as u64) == Some(
        x.total_water_task_limit as u64,
    )
    &&& req_uint_spec(t, "totalWaterTaskTimes"@, u16::MAX as u64) == Some(
        x.total_water_task_times as u64,
    )
}

/// Whether the water-two-friends entry decodes.
pub open spec fn water_friend_ok(t: Value) -> bool {
    &&& req_uint_spec(t, "waterFriendMax"@, u8::MAX as u64) is Some
    &&& req_uint_spec(t, "waterFriendCountKey"@, u8::MAX as u64) is Some
    &&& req_bool_spec(t, "f"@) is Some
    &&& req_bool_spec(t, "waterFriendGotAward"@) is Some
}

/// The decoded water-two-friends entry holds exactly the payload's fields.
pub open spec fn water_friend_matches(x: WaterFriendTask, t: Value) -> bool {
    &&& req_uint_spec(t, "waterFriendMax"@, u8::MAX as u64) == Some(x.water_friend_max as u64)
    &&& req_uint_spec(t, "waterFriendCountKey"@, u8::MAX as u64) == Some(
        x.water_friend_count_key as u64,
    )
    &&& req_bool_spec(t, "f"@) == Some(x.f)
    &&& req_bool_spec(t, "waterFriendGotAward"@) == Some(x.water_friend_got_award)
}

/// Whether the promo-entry entry decodes.
pub open spec fn treasure_ok(t: Value) -> bool {
    &&& req_str_spec(t, "line"@) is Some
    &&& req_bool_spec(t, "f"@) is Some
}

/// The decoded promo-entry entry holds exactly the payload's fields.
pub open spec fn treasure_matches(x: TreasureBoxTask, t: Value) -> bool {
    &&& req_str_spec(t, "line"@) == Some(x.line@)
    &&& req_bool_spec(t, "f"@) == Some(x.f)
}

/// Whether the water-rain entry decodes.
pub open spec fn rain_ok(t: Value) -> bool {
    &&& req_bool_spec(t, "f"@) is Some
    &&& req_uint_spec(t, "winTimes"@, u8::MAX as u64) is Some
    &&& req_u64_spec(t, "lastTime"@) is Some
}

/// The decoded water-rain entry holds exactly the payload's fields.
pub open spec fn rain_matches(x: WaterRainTask, t: Value) -> bool {
    &&& req_bool_spec(t, "f"@) == Some(x.f)
    &&& req_uint_spec(t, "winTimes"@, u8::MAX as u64) == Some(x.win_times as u64)
    &&& req_u64_spec(t, "lastTime"@) == Some(x.last_time)
}

/// Whether the whole catalog payload decodes: all eight entries present
/// and well-formed.
pub open spec fn task_info_ok(v: Value) -> bool {
    &&& flag_entry_spec(v, "signInit"@) is Some
    &&& flag_entry_spec(v, "firstWaterInit"@) is Some
    &&& flag_entry_spec(v, "gotThreeMealInit"@) is Some
    &&& (spec_field(v, "totalWaterTaskInit"@) matches Some(t) && total_water_ok(t))
    &&& (spec_field(v, "waterFriendTaskInit"@) matches Some(t) && water_friend_ok(t))
    &&& (spec_field(v, "gotBrowseTaskAdInit"@) matches Some(t) && browse_task_ok(t))
    &&& (spec_field(v, "treasureBoxInit"@) matches Some(t) && treasure_ok(t))
    &&& (spec_field(v, "waterRainInit"@) matches Some(t) && rain_ok(t))
}

/// Whether a catalog payload decodes, reached through the optional body.
pub open spec fn task_info_decodes(body: Option<Value>) -> bool {
    match body {
        Some(v) => task_info_ok(v),
        None => false,
    }
}

/// The decoded catalog holds exactly what each entry of the payload says.
pub open spec fn task_info_matches(info: TaskInfo, v: Value) -> bool {
    &&& flag_entry_spec(v, "signInit"@) == Some(info.sign_init.f)
    &&& flag_entry_spec(v, "firstWaterInit"@) == Some(info.first_water_init.f)
    &&& flag_entry_spec(v, "gotThreeMealInit"@) == Some(info.got_three_meal_init.f)
    &&& (spec_field(v, "totalWaterTaskInit"@) matches Some(t) && total_water_matches(
        info.total_water_task_init,
        t,
    ))
    &&& (spec_field(v, "waterFriendTaskInit"@) matches Some(t) && water_friend_matches(
        info.water_friend_task_init,
        t,
    ))
    &&& (spec_field(v, "gotBrowseTaskAdInit"@) matches Some(t) && browse_task_matches(
        info.got_browse_task_ad_init,
        t,
    ))
    &&& (spec_field(v, "treasureBoxInit"@) matches Some(t) && treasure_matches(
        info.treasure_box_init,
        t,
    ))
    &&& (spec_field(v, "waterRainInit"@) matches Some(t) && rain_matches(info.water_rain_init, t))
}

/// `task_info_matches`, reached through the optional body.
pub open spec fn task_info_matches_body(info: TaskInfo, body: Option<Value>) -> bool {
    match body {
        Some(v) => task_info_matches(info, v),
        None => false,
    }
}

/// Decodes the daily task catalog out of a catalog envelope: `Some`
/// exactly when all eight entries are present and well-formed, and then
/// every counter and flag is handed back as the payload holds it.
pub fn decode_task_info(e: &Envelope) -> (r: Option<TaskInfo>)
    ensures
        (r is Some <==> task_info_decodes(e.body)),
        (r matches Some(info) ==> task_info_matches_body(info, e.body)),
{
    let v = match &e.body {
        Some(v) => v,
        None => { return None; },
    };
    let sign_f = match decode_flag_task(v, "signInit") {
        Some(x) => x,
        None => { return None; },
    };
    let first_f = match decode_flag_task(v, "firstWaterInit") {
        Some(x) => x,
        None => { return None; },
    };
    let three_meal_f = match decode_flag_task(v, "gotThreeMealInit") {
        Some(x) => x,
        None => { return None; },
    };
    let total = match json_get(v, "totalWaterTaskInit") {
        Some(t) => {
            let f = match req_bool(t, "f") {
                Some(x) => x,
                None => { return None; },
            };
            let limit = match req_u16(t, "totalWaterTaskLimit") {
                Some(x) => x,
                None => { return None; },
            };
            let times = match req_u16(t, "totalWaterTaskTimes") {
                Some(x) => x,
                None => { return None; },
            };
            TotalWaterTask { f, total_water_task_limit: limit, total_water_task_times: times }
        },
        None => { return None; },
    };
    let friend = match json_get(v, "waterFriendTaskInit") {
        Some(t) => {
            let water_friend_max = match req_u8(t, "waterFriendMax") {
                Some(x) => x,
                None => { return None; },
            };
            let water_friend_count_key = match req_u8(t, "waterFriendCountKey") {
                Some(x) => x,
                None => { return None; },
            };
            let f = match req_bool(t, "f") {
                Some(x) => x,
                None => { return None; },
            };
            let water_friend_got_award = match req_bool(t, "waterFriendGotAward") {
                Some(x) => x,
                None => { return None; },
            };
            WaterFriendTask { water_friend_max, water_friend_count_key, f, water_friend_got_award }
        },
        None => { return None; },
    };
    let browse = match json_get(v, "gotBrowseTaskAdInit") {
        Some(t) => match decode_browse_task(t) {
            Some(b) => b,
            None => { return None; },
        },
        None => { return None; },
    };
    let treasure = match json_get(v, "treasureBoxInit") {
        Some(t) => {
            let line = match req_string(t, "line") {
                Some(x) => x,
                None => { return None; },
            };
            let f = match req_bool(t, "f") {
                Some(x) => x,
                None => { return None; },
            };
            TreasureBoxTask { line, f }
        },
        None => { return None; },
    };
    let rain = match json_get(v, "waterRainInit") {
        Some(t) => {
            let f = match req_bool(t, "f") {
                Some(x) => x,
                None => { return None; },
            };
            let win_times = match req_u8(t, "winTimes") {
                Some(x) => x,
                None => { return None; },
            };
            let last_time = match req_u64(t, "lastTime") {
                Some(x) => x,
                None => { return None; },
            };
            WaterRainTask { f, win_times, last_time }
        },
        None => { return None; },
    };
    Some(TaskInfo {
        sign_init: SignInTask { f: sign_f },
        first_water_init: FirstWaterTask { f: first_f },
        total_water_task_init: total,
        water_friend_task_init: friend,
        got_browse_task_ad_init: browse,
        treasure_box_init: treasure,
        water_rain_init: rain,
        got_three_meal_init: ThreeMealTask { f: three_meal_f },
    })
}

/// The foundational catalog fetch: accepted exactly when the envelope
/// reports success and the payload decodes into the catalog; anything
/// else ends the run early.
pub fn accept_task_info(e: &Envelope) -> (r: Option<TaskInfo>)
    ensures
        (r is Some <==> e.is_success() && task_info_decodes(e.body)),
        (r matches Some(info) ==> task_info_matches_body(info, e.body)),
{
    if e.succeeded() {
        decode_task_info(e)
    } else {
        None
    }
}

/// Whether the card payload decodes: the four counts present, in range.
pub open spec fn card_fields_ok(v: Value) -> bool {
    &&& req_uint_spec(v, "doubleCard"@, u16::MAX as u64) is Some
    &&& req_uint_spec(v, "fastCard"@, u16::MAX as u64) is Some
    &&& req_uint_spec(v, "signCard"@, u16::MAX as u64) is Some
    &&& req_uint_spec(v, "beanCard"@, u16::MAX as u64) is Some
}

/// Whether a card payload decodes, reached through the optional body.
pub open spec fn card_decodes(body: Option<Value>) -> bool {
    match body {
        Some(v) => card_fields_ok(v),
        None => false,
    }
}

/// The decoded inventory holds exactly the four counts of the payload.
pub open spec fn card_info_matches(c: CardInfo, v: Value) -> bool {
    &&& req_uint_spec(v, "doubleCard"@, u16::MAX as u64) == Some(c.double_card as u64)
    &&& req_uint_spec(v, "fastCard"@, u16::MAX as u64) == Some(c.fast_card as u64)
    &&& req_uint_spec(v, "signCard"@, u16::MAX as u64) == Some(c.sign_card as u64)
    &&& req_uint_spec(v, "beanCard"@, u16::MAX as u64) == Some(c.bean_card as u64)
}

/// `card_info_matches`, reached through the optional body.
pub open spec fn card_info_matches_body(c: CardInfo, body: Option<Value>) -> bool {
    match body {
        Some(v) => card_info_matches(c, v),
        None => false,
    }
}

/// Decodes the card inventory out of a card envelope: `Some` exactly
/// when the four counts are present and in range, handed back as the
/// payload holds them.
pub fn decode_card_info(e: &Envelope) -> (r: Option<CardInfo>)
    ensures
        (r is Some <==> card_decodes(e.body)),
        (r matches Some(c) ==> card_info_matches_body(c, e.body)),
{
    let v = match &e.body {
        Some(v) => v,
        None => { return None; },
    };
    let double_card = match req_u16(v, "doubleCard") {
        Some(x) => x,
        None => { return None; },
    };
    let fast_card = match req_u16(v, "fastCard") {
        Some(x) => x,
        None => { return None; },
    };
    let sign_card = match req_u16(v, "signCard") {
        Some(x) => x,
        None => { return None; },
    };
    let bean_card = match req_u16(v, "beanCard") {
        Some(x) => x,
        None => { return None; },
    };
    Some(CardInfo { double_card, fast_card, sign_card, bean_card })
}

/// Whether one follow task carries every required field.
pub open spec fn follow_ok(v: Value) -> bool {
    &&& req_str_spec(v, "advertId"@) is Some
    &&& req_str_spec(v, "id"@) is Some
    &&& req_str_spec(v, "name"@) is Some
    &&& req_bool_spec(v, "hadGot"@) is Some
    &&& req_bool_spec(v, "hadFollow"@) is Some
}

/// The decoded follow task holds exactly the payload's fields.
pub open spec fn follow_matches(t: FollowTask, v: Value) -> bool {
    &&& req_str_spec(v, "advertId"@) == Some(t.advert_id@)
    &&& req_str_spec(v, "id"@) == Some(t.id@)
    &&& req_str_spec(v, "name"@) == Some(t.name@)
    &&& req_bool_spec(v, "hadGot"@) == Some(t.had_got)
    &&& req_bool_spec(v, "hadFollow"@) == Some(t.had_follow)
}

fn decode_follow_task(v: &Value) -> (r: Option<FollowTask>)
    ensures
        (r is Some <==> follow_ok(*v)),
        (r matches Some(t) ==> follow_matches(t, *v)),
{
    let advert_id = match req_string(v, "advertId") {
        Some(x) => x,
        None => { return None; },
    };
    let id = match req_string(v, "id") {
        Some(x) => x,
        None => { return None; },
    };
    let name = match req_string(v, "name") {
        Some(x) => x,
        None => { return None; },
    };
    let had_got = match req_bool(v, "hadGot") {
        Some(x) => x,
        None => { return None; },
    };
    let had_follow = match req_bool(v, "hadFollow") {
        Some(x) => x,
        None => { return None; },
    };
    Some(FollowTask { advert_id, id, name, had_got, had_follow })
}

/// The theme array of a clock-in payload.
pub open spec fn themes_of(v: Value) -> Option<Seq<Value>> {
    match spec_field(v, "themes"@) {
        Some(a) => spec_array(a),
        None => None,
    }
}

/// Whether every element of a theme array decodes.
pub open spec fn follow_items_ok(items: Seq<Value>) -> bool {
    forall|i: int| 0 <= i < items.len() ==> follow_ok(#[trigger] items[i])
}

/// Whether the clock-in payload decodes: the sign flag and a theme
/// array whose every element decodes.
pub open spec fn clock_in_ok(v: Value) -> bool {
    &&& req_bool_spec(v, "todaySigned"@) is Some
    &&& (themes_of(v) matches Some(items) && follow_items_ok(items))
}

/// Whether a clock-in payload decodes, reached through the optional body.
pub open spec fn clock_in_decodes(body: Option<Value>) -> bool {
    match body {
        Some(v) => clock_in_ok(v),
        None => false,
    }
}

/// The decoded themes hold the array's records in order.
pub open spec fn follow_items_match(ts: Seq<FollowTask>, items: Seq<Value>) -> bool {
    &&& ts.len() == items.len()
    &&& forall|i: int| 0 <= i < items.len() ==> follow_matches(#[trigger] ts[i], items[i])
}

/// The decoded clock-in snapshot holds the sign flag and the themes in
/// order.
pub open spec fn clock_in_matches(c: ClockInTask, v: Value) -> bool {
    &&& req_bool_spec(v, "todaySigned"@) == Some(c.today_signed)
    &&& (themes_of(v) matches Some(items) && follow_items_match(c.themes@, items))
}

/// `clock_in_matches`, reached through the optional body.
pub open spec fn clock_in_matches_body(c: ClockInTask, body: Option<Value>) -> bool {
    match body {
        Some(v) => clock_in_matches(c, v),
        None => false,
    }
}

/// Decodes the clock-in snapshot: `Some` exactly when the sign flag and
/// every theme decode, handed back as the payload holds them.
pub fn decode_clock_in_task(e: &Envelope) -> (r: Option<ClockInTask>)
    ensures
        (r is Some <==> clock_in_decodes(e.body)),
        (r matches Some(c) ==> clock_in_matches_body(c, e.body)),
{
    let v = match &e.body {
        Some(v) => v,
        None => { return None; },
    };
    let today_signed = match req_bool(v, "todaySigned") {
        Some(x) => x,
        None => { return None; },
    };
    let raw = match json_get(v, "themes") {
        Some(a) => match json_as_array(a) {
            Some(items) => items,
            None => { return None; },
        },
        None => { return None; },
    };
    let mut themes: Vec<FollowTask> = Vec::new();
    let mut i: usize = 0;
    while i < raw.len()
        invariant
            i <= raw@.len(),
            e.body == Some(*v),
            themes_of(*v) == Some(raw@),
            req_bool_spec(*v, "todaySigned"@) == Some(today_signed),
            themes@.len() == i,
            forall|j: int| 0 <= j < i ==> follow_ok(#[trigger] raw@[j]),
            forall|j: int| 0 <= j < i ==> follow_matches(#[trigger] themes@[j], raw@[j]),
        decreases raw@.len() - i,
    {
        match decode_follow_task(&raw[i]) {
            Some(t) => themes.push(t),
            None => {
                assert(!follow_ok(raw@[i as int]));
                assert(!follow_items_ok(raw@));
                return None;
            },
        }
        i = i + 1;
    }
    Some(ClockInTask { today_signed, themes })
}

/// The foundational clock-in fetch: accepted exactly when the envelope
/// reports success and the payload decodes into the snapshot; anything
/// else ends the run early.
pub fn accept_clock_in_task(e: &Envelope) -> (r: Option<ClockInTask>)
    ensures
        (r is Some <==> e.is_success() && clock_in_decodes(e.body)),
        (r matches Some(c) ==> clock_in_matches_body(c, e.body)),
{
    if e.succeeded() {
        decode_clock_in_task(e)
    } else {
        None
    }
}

/// Whether one friend record carries every required field.
pub open spec fn friend_ok(v: Value) -> bool {
    &&& req_str_spec(v, "nickName"@) is Some
    &&& req_str_spec(v, "shareCode"@) is Some
    &&& req_uint_spec(v, "friendState"@, u8::MAX as u64) is Some
}

/// The decoded friend record holds exactly the payload's fields.
pub open spec fn friend_matches(f: FriendInfo, v: Value) -> bool {
    &&& req_str_spec(v, "nickName"@) == Some(f.nick_name@)
    &&& req_str_spec(v, "shareCode"@) == Some(f.share_code@)
    &&& req_uint_spec(v, "friendState"@, u8::MAX as u64) == Some(f.friend_state as u64)
}

/// The friend array of a friend-list payload.
pub open spec fn friends_of(v: Value) -> Option<Seq<Value>> {
    match spec_field(v, "friends"@) {
        Some(a) => spec_array(a),
        None => None,
    }
}

/// Whether every element of a friend array decodes.
pub open spec fn friend_items_ok(items: Seq<Value>) -> bool {
    forall|i: int| 0 <= i < items.len() ==> friend_ok(#[trigger] items[i])
}

/// Whether a friend-list payload decodes: an array whose every record
/// decodes.
pub open spec fn friend_list_decodes(body: Option<Value>) -> bool {
    match body {
        Some(v) => (friends_of(v) matches Some(items) && friend_items_ok(items)),
        None => false,
    }
}

/// The decoded records hold the array's records in order.
pub open spec fn friend_items_match(fs: Seq<FriendInfo>, items: Seq<Value>) -> bool {
    &&& fs.len() == items.len()
    &&& forall|i: int| 0 <= i < items.len() ==> friend_matches(#[trigger] fs[i], items[i])
}

/// The decoded list holds the payload's records in order.
pub open spec fn friend_list_matches_body(fs: Seq<FriendInfo>, body: Option<Value>) -> bool {
    match body {
        Some(v) => (friends_of(v) matches Some(items) && friend_items_match(fs, items)),
        None => false,
    }
}

fn decode_friend(v: &Value) -> (r: Option<FriendInfo>)
    ensures
        (r is Some <==> friend_ok(*v)),
        (r matches Some(f) ==> friend_matches(f, *v)),
{
    let nick_name = match req_string(v, "nickName") {
        Some(x) => x,
        None => { return None; },
    };
    let share_code = match req_string(v, "shareCode") {
        Some(x) => x,
        None => { return None; },
    };
    let friend_state = match req_u8(v, "friendState") {
        Some(x) => x,
        None => { return None; },
    };
    Some(FriendInfo { nick_name, share_code, friend_state })
}

/// Decodes the friend list out of the friend-list envelope: `Some`
/// exactly when the array is present and every record decodes, in the
/// payload's order.
pub fn decode_friend_list(e: &Envelope) -> (r: Option<Vec<FriendInfo>>)
    ensures
        (r is Some <==> friend_list_decodes(e.body)),
        (r matches Some(fs) ==> friend_list_matches_body(fs@, e.body)),
{
    let v = match &e.body {
        Some(v) => v,
        None => { return None; },
    };
    let raw = match json_get(v, "friends") {
        Some(a) => match json_as_array(a) {
            Some(items) => items,
            None => { return None; },
        },
        None => { return None; },
    };
    let mut friends: Vec<FriendInfo> = Vec::new();
    let mut i: usize = 0;
    while i < raw.len()
        invariant
            i <= raw@.len(),
            e.body == Some(*v),
            friends_of(*v) == Some(raw@),
            friends@.len() == i,
            forall|j: int| 0 <= j < i ==> friend_ok(#[trigger] raw@[j]),
            forall|j: int| 0 <= j < i ==> friend_matches(#[trigger] friends@[j], raw@[j]),
        decreases raw@.len() - i,
    {
        match decode_friend(&raw[i]) {
            Some(f) => friends.push(f),
            None => {
                assert(!friend_ok(raw@[i as int]));
                assert(!friend_items_ok(raw@));
                return None;
            },
        }
        i = i + 1;
    }
    Some(friends)
}

} // verus!
