use farm_core::actions::{Action, Call};
use farm_core::model::{
    BrowseTask, BrowseTaskItem, CardInfo, FarmInfo, FirstWaterTask, SignInTask, TaskInfo,
    ThreeMealTask, TotalWaterTask, TreasureBoxTask, WaterFriendTask, WaterRainTask,
};
use farm_core::orchestrator::{
    after_step, catalog_gate, catalog_task_open, double_card_due, initial_step, next_step,
    CatalogTask, RunStep,
};

const NOW: u64 = 1_700_000_000_000;

fn catalog(all_done: bool) -> TaskInfo {
    TaskInfo {
        sign_init: SignInTask { f: all_done },
        first_water_init: FirstWaterTask { f: all_done },
        total_water_task_init: TotalWaterTask {
            f: all_done,
            total_water_task_limit: 10,
            total_water_task_times: 7,
        },
        water_friend_task_init: WaterFriendTask {
            water_friend_max: 2,
            water_friend_count_key: 0,
            f: all_done,
            water_friend_got_award: all_done,
        },
        got_browse_task_ad_init: BrowseTask {
            f: all_done,
            user_browse_task_ads: vec![BrowseTaskItem {
                advert_id: "a1".to_string(),
                main_title: "first ad".to_string(),
                limit: 1,
                had_finished_times: 0,
                time: 5,
                had_got_times: 0,
            }],
        },
        treasure_box_init: TreasureBoxTask { line: "route-7".to_string(), f: all_done },
        water_rain_init: WaterRainTask {
            f: all_done,
            win_times: 0,
            last_time: NOW - 4 * 60 * 60 * 1000,
        },
        got_three_meal_init: ThreeMealTask { f: all_done },
    }
}

const ALL_TASKS: [CatalogTask; 8] = [
    CatalogTask::SignIn,
    CatalogTask::ThreeMeal,
    CatalogTask::TreasureBox,
    CatalogTask::Browse,
    CatalogTask::WaterRain,
    CatalogTask::WaterFriend,
    CatalogTask::FirstWater,
    CatalogTask::TenWaters,
];

#[test]
fn steps_walk_the_fixed_order_to_done() {
    let expected = [
        RunStep::FetchFarm,
        RunStep::FetchCards,
        RunStep::PopCheck,
        RunStep::FetchCatalog,
        RunStep::SignIn,
        RunStep::ThreeMeal,
        RunStep::TreasureBox,
        RunStep::Browse,
        RunStep::WaterRain,
        RunStep::WaterFriend,
        RunStep::FetchClockIn,
        RunStep::ClockInSign,
        RunStep::FollowTasks,
        RunStep::CollectionLoop,
        RunStep::DoubleCard,
        RunStep::FirstWater,
        RunStep::TenWaters,
        RunStep::StageAward,
        RunStep::FinalReport,
        RunStep::Done,
    ];
    let mut s = initial_step();
    for (i, e) in expected.iter().enumerate() {
        assert_eq!(s, *e, "step {} of the order", i);
        s = next_step(&s);
    }
    assert_eq!(s, RunStep::Done);
}

#[test]
fn foundational_failures_end_the_run_and_others_do_not() {
    assert_eq!(after_step(&RunStep::FetchFarm, false), None);
    assert_eq!(after_step(&RunStep::FetchCatalog, false), None);
    assert_eq!(after_step(&RunStep::FetchClockIn, false), None);
    assert_eq!(after_step(&RunStep::FetchFarm, true), Some(RunStep::FetchCards));
    assert_eq!(after_step(&RunStep::FetchCards, false), Some(RunStep::PopCheck));
    assert_eq!(after_step(&RunStep::Browse, false), Some(RunStep::WaterRain));
    assert_eq!(after_step(&RunStep::Done, true), None);
}

#[test]
fn done_task_produces_zero_calls() {
    // The catalog law: a task whose flag is already set owes no call,
    // whatever data its entry carries.
    let info = catalog(true);
    for t in ALL_TASKS {
        assert!(catalog_gate(&info, &t));
        assert_eq!(catalog_task_open(&info, &t, NOW), Vec::<Action>::new());
    }
}

#[test]
fn scenario_all_flags_done_only_unconditional_calls_remain() {
    // With every catalog flag done, no catalog task opens a call; what a
    // run still performs is exactly the unconditional part: the farm,
    // card, catalog and clock-in fetches, the collection loop, the
    // follow pass and the closing snapshot.
    let info = catalog(true);
    let action_specific: usize = ALL_TASKS
        .iter()
        .map(|t| catalog_task_open(&info, t, NOW).len())
        .sum();
    assert_eq!(action_specific, 0);
}

#[test]
fn scenario_ten_waters_three_remaining() {
    // Pending ten-waters entry {limit: 10, times: 7}: exactly three
    // watering calls, then the one claim call.
    let info = catalog(false);
    let p = catalog_task_open(&info, &CatalogTask::TenWaters, NOW);
    let waters = p.iter().filter(|a| **a == Action::Send(Call::Water)).count();
    let claims = p
        .iter()
        .filter(|a| **a == Action::Send(Call::TotalWaterAward))
        .count();
    assert_eq!(waters, 3);
    assert_eq!(claims, 1);
    assert_eq!(p[p.len() - 1], Action::Send(Call::TotalWaterAward));
}

#[test]
fn scenario_water_rain_cooldown() {
    // Pending water-rain entry two hours after the last event: no call;
    // four hours after it: exactly one.
    let mut info = catalog(false);
    info.water_rain_init.last_time = NOW - 2 * 60 * 60 * 1000;
    assert_eq!(catalog_task_open(&info, &CatalogTask::WaterRain, NOW), Vec::<Action>::new());
    info.water_rain_init.last_time = NOW - 4 * 60 * 60 * 1000;
    let p = catalog_task_open(&info, &CatalogTask::WaterRain, NOW);
    assert_eq!(p.len(), 1);
    assert!(matches!(p[0], Action::Send(Call::WaterRain(_))));
}

#[test]
fn pending_tasks_open_with_their_handlers_plans() {
    let info = catalog(false);
    assert_eq!(
        catalog_task_open(&info, &CatalogTask::SignIn, NOW),
        Vec::<Action>::new(),
        "the sign-in action is retired"
    );
    assert_eq!(
        catalog_task_open(&info, &CatalogTask::ThreeMeal, NOW),
        vec![Action::Send(Call::ThreeMeal)]
    );
    assert_eq!(
        catalog_task_open(&info, &CatalogTask::TreasureBox, NOW),
        vec![
            Action::Send(Call::TreasureBoxAck),
            Action::Sleep(1),
            Action::Send(Call::TreasureBoxConfirm("route-7".to_string())),
        ]
    );
    assert_eq!(
        catalog_task_open(&info, &CatalogTask::Browse, NOW),
        vec![
            Action::Send(Call::BrowseStart("a1".to_string())),
            Action::Sleep(5),
            Action::Send(Call::BrowseClaim("a1".to_string())),
        ]
    );
    assert_eq!(
        catalog_task_open(&info, &CatalogTask::WaterFriend, NOW),
        vec![Action::Send(Call::FriendList)]
    );
    assert_eq!(
        catalog_task_open(&info, &CatalogTask::FirstWater, NOW),
        vec![Action::Send(Call::Water)]
    );
}

#[test]
fn scenario_all_done_catalog_from_raw_payload() {
    // The same all-done scenario through the whole pipeline: raw JSON
    // text, classified, decoded, then asked what each task owes.
    let text = "{\"code\":\"0\",\
        \"signInit\":{\"f\":true},\
        \"firstWaterInit\":{\"f\":true},\
        \"totalWaterTaskInit\":{\"f\":true,\"totalWaterTaskLimit\":10,\"totalWaterTaskTimes\":10},\
        \"waterFriendTaskInit\":{\"waterFriendMax\":2,\"waterFriendCountKey\":2,\"f\":true,\"waterFriendGotAward\":true},\
        \"gotBrowseTaskAdInit\":{\"f\":true,\"userBrowseTaskAds\":[]},\
        \"treasureBoxInit\":{\"line\":\"route-7\",\"f\":true},\
        \"waterRainInit\":{\"f\":true,\"winTimes\":3,\"lastTime\":0},\
        \"gotThreeMealInit\":{\"f\":true}}";
    let e = farm_core::envelope::classify(farm_core::envelope::TransportOutcome::Payload(
        text.to_string(),
    ));
    assert!(e.succeeded());
    let info = farm_core::model::decode_task_info(&e).expect("catalog decodes");
    for t in ALL_TASKS {
        assert_eq!(catalog_task_open(&info, &t, NOW), Vec::<Action>::new());
    }
}

#[test]
fn double_card_needs_balance_and_inventory() {
    let farm = |energy: u32| FarmInfo {
        total_energy: energy,
        tree_state: 1,
        tree_energy: 0,
        tree_total_energy: 10,
        share_code: String::new(),
        nick_name: String::new(),
        name: String::new(),
        prize_level: 1,
    };
    let cards = |double: u16| CardInfo {
        double_card: double,
        fast_card: 0,
        sign_card: 0,
        bean_card: 0,
    };
    assert!(double_card_due(&farm(100), &cards(1)));
    assert!(double_card_due(&farm(250), &cards(3)));
    assert!(!double_card_due(&farm(99), &cards(1)));
    assert!(!double_card_due(&farm(100), &cards(0)));
}
