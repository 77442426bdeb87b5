use farm_core::actions::{Action, Call, CardKind};
use farm_core::envelope::Reply;
use farm_core::handlers::{
    browse_item_plan, browse_plan, claim_outcome, duck_attempt_count, duck_continue,
    duck_verdict, first_water_followup, first_water_open, follow_plan, friend_task_open,
    friend_water_plan, meal_advisory, pop_reward_outcome, pop_reward_plan, sign_card_plan,
    after_clock_in_sign, clock_in_sign_plan, duck_followup, pop_check_plan, ten_waters_plan,
    three_meal_plan,
    treasure_box_plan, use_card_plan, water_once_outcome, water_rain_plan, DuckVerdict,
    TaskOutcome,
};
use farm_core::model::{
    BrowseTaskItem, CardInfo, FollowTask, FriendInfo, TotalWaterTask, TreasureBoxTask,
    WaterFriendTask, WaterRainTask,
};
use farm_core::hour_utc8;

fn reply(success: bool) -> Reply {
    Reply {
        success,
        code: if success { "0".to_string() } else { "1".to_string() },
        amount: 0,
        add_energy: 0,
        total_energy: 0,
        total_water_task_energy: 0,
        water_gram: 0,
        add_water: 0,
        can_pop: false,
        title: String::new(),
    }
}

fn sends(p: &[Action]) -> usize {
    p.iter().filter(|a| matches!(a, Action::Send(_))).count()
}

#[test]
fn ten_waters_quota_three_left() {
    // Catalog entry with limit 10 and 7 already done: exactly three
    // waterings, one second apart, then the single claim call.
    let t = TotalWaterTask { f: false, total_water_task_limit: 10, total_water_task_times: 7 };
    let p = ten_waters_plan(&t);
    assert_eq!(
        p,
        vec![
            Action::Send(Call::Water),
            Action::Sleep(1),
            Action::Send(Call::Water),
            Action::Sleep(1),
            Action::Send(Call::Water),
            Action::Sleep(1),
            Action::Send(Call::TotalWaterAward),
        ]
    );
}

#[test]
fn ten_waters_quota_already_met() {
    let t = TotalWaterTask { f: false, total_water_task_limit: 10, total_water_task_times: 10 };
    assert_eq!(ten_waters_plan(&t), vec![Action::Send(Call::TotalWaterAward)]);
    let over = TotalWaterTask { f: false, total_water_task_limit: 10, total_water_task_times: 12 };
    assert_eq!(ten_waters_plan(&over), vec![Action::Send(Call::TotalWaterAward)]);
}

#[test]
fn browse_item_at_limit_owes_nothing() {
    let it = BrowseTaskItem {
        advert_id: "a2".to_string(),
        main_title: "second ad".to_string(),
        limit: 1,
        had_finished_times: 1,
        time: 8,
        had_got_times: 1,
    };
    assert_eq!(browse_item_plan(&it), Vec::<Action>::new());
}

#[test]
fn browse_item_under_limit_owes_start_wait_claim() {
    let it = BrowseTaskItem {
        advert_id: "a1".to_string(),
        main_title: "first ad".to_string(),
        limit: 1,
        had_finished_times: 0,
        time: 5,
        had_got_times: 0,
    };
    assert_eq!(
        browse_item_plan(&it),
        vec![
            Action::Send(Call::BrowseStart("a1".to_string())),
            Action::Sleep(5),
            Action::Send(Call::BrowseClaim("a1".to_string())),
        ]
    );
}

#[test]
fn browse_plan_concatenates_in_list_order() {
    let pending = BrowseTaskItem {
        advert_id: "a1".to_string(),
        main_title: "first ad".to_string(),
        limit: 2,
        had_finished_times: 1,
        time: 3,
        had_got_times: 1,
    };
    let done = BrowseTaskItem {
        advert_id: "a2".to_string(),
        main_title: "second ad".to_string(),
        limit: 1,
        had_finished_times: 1,
        time: 9,
        had_got_times: 1,
    };
    let p = browse_plan(&vec![done.clone(), pending.clone()]);
    assert_eq!(
        p,
        vec![
            Action::Send(Call::BrowseStart("a1".to_string())),
            Action::Sleep(3),
            Action::Send(Call::BrowseClaim("a1".to_string())),
        ]
    );
}

#[test]
fn water_rain_not_due_owes_nothing() {
    let now: u64 = 1_700_000_000_000;
    let two_hours: u64 = 2 * 60 * 60 * 1000;
    let t = WaterRainTask { f: false, win_times: 1, last_time: now - two_hours };
    assert_eq!(water_rain_plan(&t, now), Vec::<Action>::new());
}

#[test]
fn water_rain_due_owes_exactly_one_call() {
    let now: u64 = 1_700_000_000_000;
    let four_hours: u64 = 4 * 60 * 60 * 1000;
    let t = WaterRainTask { f: false, win_times: 1, last_time: now - four_hours };
    let p = water_rain_plan(&t, now);
    assert_eq!(p, vec![Action::Send(Call::WaterRain(now % 5 + 50))]);
    assert_eq!(sends(&p), 1);
}

#[test]
fn water_rain_exactly_at_cooldown_is_due() {
    let now: u64 = 10_800_000;
    let t = WaterRainTask { f: false, win_times: 0, last_time: 0 };
    assert_eq!(sends(&water_rain_plan(&t, now)), 1);
    let t2 = WaterRainTask { f: false, win_times: 0, last_time: 1 };
    assert_eq!(sends(&water_rain_plan(&t2, now)), 0);
}

#[test]
fn friend_task_without_quota_owes_nothing() {
    let t = WaterFriendTask {
        water_friend_max: 2,
        water_friend_count_key: 2,
        f: false,
        water_friend_got_award: false,
    };
    assert_eq!(friend_task_open(&t), Vec::<Action>::new());
    assert_eq!(friend_water_plan(&t, &Vec::new()), Vec::<Action>::new());
}

#[test]
fn friend_watering_filters_eligibility_and_stops_at_quota() {
    let t = WaterFriendTask {
        water_friend_max: 2,
        water_friend_count_key: 0,
        f: false,
        water_friend_got_award: false,
    };
    assert_eq!(friend_task_open(&t), vec![Action::Send(Call::FriendList)]);
    let friends = vec![
        FriendInfo { nick_name: "a".to_string(), share_code: "f1".to_string(), friend_state: 0 },
        FriendInfo { nick_name: "b".to_string(), share_code: "f2".to_string(), friend_state: 1 },
        FriendInfo { nick_name: "c".to_string(), share_code: "f3".to_string(), friend_state: 2 },
        FriendInfo { nick_name: "d".to_string(), share_code: "f4".to_string(), friend_state: 1 },
    ];
    let p = friend_water_plan(&t, &friends);
    // The ineligible first friend is passed over; the quota of two ends
    // the watering before the fourth friend; the aggregate claim closes.
    assert_eq!(
        p,
        vec![
            Action::Send(Call::WaterFriend("f2".to_string())),
            Action::Sleep(1),
            Action::Send(Call::WaterFriend("f3".to_string())),
            Action::Send(Call::WaterFriendAward),
        ]
    );
}

#[test]
fn friend_watering_with_fewer_eligible_than_quota() {
    let t = WaterFriendTask {
        water_friend_max: 3,
        water_friend_count_key: 0,
        f: false,
        water_friend_got_award: false,
    };
    let friends = vec![
        FriendInfo { nick_name: "a".to_string(), share_code: "f1".to_string(), friend_state: 1 },
    ];
    let p = friend_water_plan(&t, &friends);
    assert_eq!(
        p,
        vec![
            Action::Send(Call::WaterFriend("f1".to_string())),
            Action::Sleep(1),
            Action::Send(Call::WaterFriendAward),
        ]
    );
}

#[test]
fn sign_card_chain_consumes_at_most_three() {
    let many = CardInfo { double_card: 0, fast_card: 0, sign_card: 5, bean_card: 0 };
    let p = sign_card_plan(&many);
    assert_eq!(p.len(), 6);
    assert_eq!(p.iter().filter(|a| matches!(a, Action::Send(Call::UseCard(CardKind::Sign)))).count(), 3);
    let one = CardInfo { double_card: 0, fast_card: 0, sign_card: 1, bean_card: 0 };
    assert_eq!(
        sign_card_plan(&one),
        vec![Action::Send(Call::UseCard(CardKind::Sign)), Action::Sleep(2)]
    );
    let none = CardInfo { double_card: 0, fast_card: 0, sign_card: 0, bean_card: 0 };
    assert_eq!(sign_card_plan(&none), Vec::<Action>::new());
}

#[test]
fn clock_in_sign_protocol() {
    let unsigned = farm_core::model::ClockInTask { today_signed: false, themes: Vec::new() };
    let signed = farm_core::model::ClockInTask { today_signed: true, themes: Vec::new() };
    assert_eq!(clock_in_sign_plan(&unsigned), vec![Action::Send(Call::ClockInSign)]);
    assert_eq!(clock_in_sign_plan(&signed), Vec::<Action>::new());
    assert_eq!(after_clock_in_sign(true), vec![Action::Send(Call::CardInventory)]);
    assert_eq!(after_clock_in_sign(false), Vec::<Action>::new());
}

#[test]
fn pop_check_is_gated_by_the_snapshot_flag() {
    assert_eq!(pop_check_plan(true), vec![Action::Send(Call::PopReward)]);
    assert_eq!(pop_check_plan(false), Vec::<Action>::new());
}

#[test]
fn collection_attempts_are_paced_until_the_limit() {
    assert_eq!(duck_followup(&DuckVerdict::Success), vec![Action::Sleep(2)]);
    assert_eq!(duck_followup(&DuckVerdict::Failed), vec![Action::Sleep(2)]);
    assert_eq!(duck_followup(&DuckVerdict::LimitReached), Vec::<Action>::new());
}

#[test]
fn follow_plan_skips_claims_and_follows() {
    let claimed = FollowTask {
        advert_id: "x".to_string(),
        id: "t1".to_string(),
        name: "one".to_string(),
        had_got: true,
        had_follow: true,
    };
    let followed = FollowTask {
        advert_id: "y".to_string(),
        id: "t2".to_string(),
        name: "two".to_string(),
        had_got: false,
        had_follow: true,
    };
    let fresh = FollowTask {
        advert_id: "z".to_string(),
        id: "t3".to_string(),
        name: "three".to_string(),
        had_got: false,
        had_follow: false,
    };
    let p = follow_plan(&vec![claimed, followed, fresh]);
    assert_eq!(
        p,
        vec![
            Action::Send(Call::ClockInFollowClaim("t2".to_string())),
            Action::Send(Call::ClockInFollow("t3".to_string())),
            Action::Send(Call::ClockInFollowClaim("t3".to_string())),
        ]
    );
}

#[test]
fn duck_stops_on_limit_even_on_first_attempt() {
    let mut limit = reply(false);
    limit.code = "10".to_string();
    assert_eq!(duck_verdict(&limit), DuckVerdict::LimitReached);
    assert!(!duck_continue(&DuckVerdict::LimitReached));
    assert_eq!(duck_attempt_count(&vec![limit]), 1);
}

#[test]
fn duck_makes_at_most_ten_attempts() {
    let replies: Vec<Reply> = (0..20).map(|_| reply(true)).collect();
    assert_eq!(duck_attempt_count(&replies), 10);
}

#[test]
fn duck_continues_past_ordinary_failures() {
    let mut rs: Vec<Reply> = Vec::new();
    rs.push(reply(true));
    rs.push(reply(false));
    rs.push(reply(true));
    let mut limit = reply(false);
    limit.code = "10".to_string();
    rs.push(limit);
    rs.push(reply(true));
    assert_eq!(duck_attempt_count(&rs), 4);
}

#[test]
fn treasure_box_protocol_carries_route_token() {
    let t = TreasureBoxTask { line: "route-7".to_string(), f: false };
    assert_eq!(
        treasure_box_plan(&t),
        vec![
            Action::Send(Call::TreasureBoxAck),
            Action::Sleep(1),
            Action::Send(Call::TreasureBoxConfirm("route-7".to_string())),
        ]
    );
}

#[test]
fn claim_outcome_amount_fallback_and_pop_trigger() {
    let mut r = reply(true);
    r.amount = 0;
    r.total_water_task_energy = 30;
    r.can_pop = true;
    let o = claim_outcome(&r);
    assert_eq!(o.outcome, TaskOutcome::Completed(30));
    assert_eq!(o.follow_up, vec![Action::Send(Call::PopReward)]);
    let mut r2 = reply(true);
    r2.amount = 12;
    r2.total_water_task_energy = 30;
    let o2 = claim_outcome(&r2);
    assert_eq!(o2.outcome, TaskOutcome::Completed(12));
    assert_eq!(o2.follow_up, Vec::<Action>::new());
    let o3 = claim_outcome(&reply(false));
    assert_eq!(o3.outcome, TaskOutcome::Failed);
    assert_eq!(o3.follow_up, Vec::<Action>::new());
}

#[test]
fn first_water_claims_only_after_successful_watering() {
    assert_eq!(first_water_open(), vec![Action::Send(Call::Water)]);
    assert_eq!(first_water_followup(true), vec![Action::Send(Call::FirstWaterAward)]);
    assert_eq!(first_water_followup(false), Vec::<Action>::new());
}

#[test]
fn water_and_pop_outcomes() {
    let mut ok = reply(true);
    ok.total_energy = 77;
    ok.add_energy = 9;
    let w = water_once_outcome(&ok);
    assert!(w.ok);
    assert_eq!(w.remaining, 77);
    assert_eq!(pop_reward_outcome(&ok), TaskOutcome::Completed(9));
    assert_eq!(pop_reward_outcome(&reply(false)), TaskOutcome::Failed);
    assert_eq!(pop_reward_plan(), vec![Action::Send(Call::PopReward)]);
}

#[test]
fn scheduled_claim_always_calls_and_advises_on_blocked_hours() {
    assert_eq!(three_meal_plan(), vec![Action::Send(Call::ThreeMeal)]);
    assert!(meal_advisory(21));
    assert!(meal_advisory(23));
    assert!(meal_advisory(9));
    assert!(meal_advisory(10));
    assert!(!meal_advisory(11));
    assert!(meal_advisory(14));
    assert!(meal_advisory(16));
    assert!(!meal_advisory(17));
    assert!(!meal_advisory(8));
    assert!(!meal_advisory(20));
    assert!(!meal_advisory(0));
}

#[test]
fn hour_conversion_lands_in_utc8() {
    // 1970-01-01 00:30 UTC is 08:30 in UTC+8.
    assert_eq!(hour_utc8(30 * 60 * 1000), 8);
    // 16:00 UTC is midnight in UTC+8.
    assert_eq!(hour_utc8(16 * 3_600_000), 0);
    // 2023-11-14 22:13:20 UTC -> 06:13 in UTC+8.
    assert_eq!(hour_utc8(1_700_000_000_000), 6);
}

#[test]
fn card_consumption_is_one_call() {
    assert_eq!(
        use_card_plan(CardKind::Double),
        vec![Action::Send(Call::UseCard(CardKind::Double))]
    );
}
