//! The run: a strictly sequential, single-pass walk over one account's
//! daily steps.
//!
//! The orchestrator owns three decisions: the fixed order of the steps,
//! which snapshot fetches are foundational (their failure ends the run
//! early, every other failure is folded into the step's outcome and the
//! run goes on), and which catalog-gated task still owes calls.  The
//! driver walks [`RunStep`]s with [`next_step`] and [`after_step`],
//! asking the handlers for each step's plan.

use vstd::prelude::*;
use crate::model::{TaskInfo, FarmInfo, CardInfo, ClockInTask};
use crate::envelope::Reply;
use crate::actions::{Call, Action, count_sends};
use crate::handlers::{
    clock_in_sign_plan_spec,
    follow_plan_spec,
    lemma_follow_all_claimed,
    duck_attempts,
    duck_verdict_spec,
};
use crate::handlers::{
    ten_waters_plan_spec,
    browse_plan_spec,
    water_rain_plan_spec,
    friend_task_open_spec,
    ten_waters_plan,
    browse_plan,
    water_rain_plan,
    friend_task_open,
    three_meal_plan,
    treasure_box_plan,
    first_water_open,
};

verus! {

/// The steps of one run, in their fixed dependency order.
#[derive(Clone, Copy, Debug, PartialEq, Eq)]
pub enum RunStep {
    /// Foundational: fetch and decode the farm snapshot.
    FetchFarm,
    /// Fetch the card inventory; failure only disables the later
    /// double-card step.
    FetchCards,
    /// Claim the pop reward when the farm snapshot flagged one.
    PopCheck,
    /// Foundational: fetch and decode the task catalog.
    FetchCatalog,
    /// Catalog-gated: the retired sign-in placeholder.
    SignIn,
    /// Catalog-gated: the scheduled three-meals claim.
    ThreeMeal,
    /// Catalog-gated: the promo-entry confirmation.
    TreasureBox,
    /// Catalog-gated: the ad-browsing list.
    Browse,
    /// Catalog-gated: the cooldown-gated water-rain event.
    WaterRain,
    /// Catalog-gated: watering two friends.
    WaterFriend,
    /// Foundational: fetch and decode the clock-in snapshot.
    FetchClockIn,
    /// Clock-in sign-in, gated by today's sign flag.
    ClockInSign,
    /// The follow tasks, processed in every run.
    FollowTasks,
    /// The bounded collection-reward loop, run unconditionally.
    CollectionLoop,
    /// Consume a double-reward card when balance and inventory allow.
    DoubleCard,
    /// Catalog-gated: the first-water task.
    FirstWater,
    /// Catalog-gated: the ten-waters quota.
    TenWaters,
    /// The retired stage-reward placeholder.
    StageAward,
    /// Re-fetch the farm snapshot for the closing report.
    FinalReport,
    /// The run is over.
    Done,
}

/// The successor of each step in the fixed order.
pub open spec fn next_step_spec(s: RunStep) -> RunStep {
    match s {
        RunStep::FetchFarm => RunStep::FetchCards,
        RunStep::FetchCards => RunStep::PopCheck,
        RunStep::PopCheck => RunStep::FetchCatalog,
        RunStep::FetchCatalog => RunStep::SignIn,
        RunStep::SignIn => RunStep::ThreeMeal,
        RunStep::ThreeMeal => RunStep::TreasureBox,
        RunStep::TreasureBox => RunStep::Browse,
        RunStep::Browse => RunStep::WaterRain,
        RunStep::WaterRain => RunStep::WaterFriend,
        RunStep::WaterFriend => RunStep::FetchClockIn,
        RunStep::FetchClockIn => RunStep::ClockInSign,
        RunStep::ClockInSign => RunStep::FollowTasks,
        RunStep::FollowTasks => RunStep::CollectionLoop,
        RunStep::CollectionLoop => RunStep::DoubleCard,
        RunStep::DoubleCard => RunStep::FirstWater,
        RunStep::FirstWater => RunStep::TenWaters,
        RunStep::TenWaters => RunStep::StageAward,
        RunStep::StageAward => RunStep::FinalReport,
        RunStep::FinalReport => RunStep::Done,
        RunStep::Done => RunStep::Done,
    }
}

/// Executable counterpart of `next_step_spec`.
pub fn next_step(s: &RunStep) -> (n: RunStep)
    ensures
        n == next_step_spec(*s),
{
    match s {
        RunStep::FetchFarm => RunStep::FetchCards,
        RunStep::FetchCards => RunStep::PopCheck,
        RunStep::PopCheck => RunStep::FetchCatalog,
        RunStep::FetchCatalog => RunStep::SignIn,
        RunStep::SignIn => RunStep::ThreeMeal,
        RunStep::ThreeMeal => RunStep::TreasureBox,
        RunStep::TreasureBox => RunStep::Browse,
        RunStep::Browse => RunStep::WaterRain,
        RunStep::WaterRain => RunStep::WaterFriend,
        RunStep::WaterFriend => RunStep::FetchClockIn,
        RunStep::FetchClockIn => RunStep::ClockInSign,
        RunStep::ClockInSign => RunStep::FollowTasks,
        RunStep::FollowTasks => RunStep::CollectionLoop,
        RunStep::CollectionLoop => RunStep::DoubleCard,
        RunStep::DoubleCard => RunStep::FirstWater,
        RunStep::FirstWater => RunStep::TenWaters,
        RunStep::TenWaters => RunStep::StageAward,
        RunStep::StageAward => RunStep::FinalReport,
        RunStep::FinalReport => RunStep::Done,
        RunStep::Done => RunStep::Done,
    }
}

/// The first step of every run.
pub fn initial_step() -> (s: RunStep)
    ensures
        s == RunStep::FetchFarm,
{
    RunStep::FetchFarm
}

/// The three foundational fetches: their failure ends the run early.
pub open spec fn is_foundational(s: RunStep) -> bool {
    s is FetchFarm || s is FetchCatalog || s is FetchClockIn
}

/// Where the run goes after a step: ended (`None`) when the run is done
/// or a foundational step failed; otherwise the fixed successor,
/// whatever the step's own outcome was.
pub fn after_step(s: &RunStep, ok: bool) -> (n: Option<RunStep>)
    ensures
        *s is Done ==> n is None,
        !(*s is Done) && !ok && is_foundational(*s) ==> n is None,
        !(*s is Done) && (ok || !is_foundational(*s)) ==> n == Some(next_step_spec(*s)),
{
    match s {
        RunStep::Done => None,
        RunStep::FetchFarm | RunStep::FetchCatalog | RunStep::FetchClockIn => {
            if ok {
                Some(next_step(s))
            } else {
                None
            }
        },
        _ => Some(next_step(s)),
    }
}

/// The catalog-gated tasks, each with its "done" flag in the catalog.
#[derive(Clone, Copy, Debug, PartialEq, Eq)]
pub enum CatalogTask {
    SignIn,
    ThreeMeal,
    TreasureBox,
    Browse,
    WaterRain,
    WaterFriend,
    FirstWater,
    TenWaters,
}

/// The catalog's "done" flag for a task.
pub open spec fn task_done(info: TaskInfo, t: CatalogTask) -> bool {
    match t {
        CatalogTask::SignIn => info.sign_init.f,
        CatalogTask::ThreeMeal => info.got_three_meal_init.f,
        CatalogTask::TreasureBox => info.treasure_box_init.f,
        CatalogTask::Browse => info.got_browse_task_ad_init.f,
        CatalogTask::WaterRain => info.water_rain_init.f,
        CatalogTask::WaterFriend => info.water_friend_task_init.f,
        CatalogTask::FirstWater => info.first_water_init.f,
        CatalogTask::TenWaters => info.total_water_task_init.f,
    }
}

/// Executable counterpart of `task_done`.
pub fn catalog_gate(info: &TaskInfo, t: &CatalogTask) -> (done: bool)
    ensures
        done == task_done(*info, *t),
{
    match t {
        CatalogTask::SignIn => info.sign_init.f,
        CatalogTask::ThreeMeal => info.got_three_meal_init.f,
        CatalogTask::TreasureBox => info.treasure_box_init.f,
        CatalogTask::Browse => info.got_browse_task_ad_init.f,
        CatalogTask::WaterRain => info.water_rain_init.f,
        CatalogTask::WaterFriend => info.water_friend_task_init.f,
        CatalogTask::FirstWater => info.first_water_init.f,
        CatalogTask::TenWaters => info.total_water_task_init.f,
    }
}

/// The calls a pending catalog task opens with.  The sign-in entry is a
/// retired remote action, so even a pending one owes nothing; the tasks
/// whose protocols react to replies (browse claims, friend watering)
/// continue through their handlers' follow-up functions.
pub open spec fn catalog_open_spec(info: TaskInfo, t: CatalogTask, now_ms: u64) -> Seq<Action> {
    match t {
        CatalogTask::SignIn => Seq::<Action>::empty(),
        CatalogTask::ThreeMeal => seq![Action::Send(Call::ThreeMeal)],
        CatalogTask::TreasureBox => seq![
            Action::Send(Call::TreasureBoxAck),
            Action::Sleep(1),
            Action::Send(Call::TreasureBoxConfirm(info.treasure_box_init.line)),
        ],
        CatalogTask::Browse => browse_plan_spec(info.got_browse_task_ad_init.user_browse_task_ads@),
        CatalogTask::WaterRain => water_rain_plan_spec(info.water_rain_init, now_ms),
        CatalogTask::WaterFriend => friend_task_open_spec(info.water_friend_task_init),
        CatalogTask::FirstWater => seq![Action::Send(Call::Water)],
        CatalogTask::TenWaters => ten_waters_plan_spec(info.total_water_task_init),
    }
}

/// The gated plan of a catalog task: empty when its flag is already
/// "done", the handler's plan otherwise.
pub open spec fn catalog_plan(info: TaskInfo, t: CatalogTask, now_ms: u64) -> Seq<Action> {
    if task_done(info, t) {
        Seq::<Action>::empty()
    } else {
        catalog_open_spec(info, t, now_ms)
    }
}

/// Opens a catalog task: a task whose flag is already "done" produces
/// no call at all; a pending one opens with its handler's plan.
pub fn catalog_task_open(info: &TaskInfo, t: &CatalogTask, now_ms: u64) -> (p: Vec<Action>)
    ensures
        p@ == catalog_plan(*info, *t, now_ms),
        task_done(*info, *t) ==> count_sends(p@) == 0,
{
    if catalog_gate(info, t) {
        let p: Vec<Action> = Vec::new();
        assert(count_sends(p@) == 0);
        p
    } else {
        match t {
            CatalogTask::SignIn => Vec::new(),
            CatalogTask::ThreeMeal => three_meal_plan(),
            CatalogTask::TreasureBox => treasure_box_plan(&info.treasure_box_init),
            CatalogTask::Browse => browse_plan(&info.got_browse_task_ad_init.user_browse_task_ads),
            CatalogTask::WaterRain => water_rain_plan(&info.water_rain_init, now_ms),
            CatalogTask::WaterFriend => friend_task_open(&info.water_friend_task_init),
            CatalogTask::FirstWater => first_water_open(),
            CatalogTask::TenWaters => ten_waters_plan(&info.total_water_task_init),
        }
    }
}

/// The double-card decision: consume one double-reward card exactly
/// when the re-fetched balance is at least 100 drops and the inventory
/// holds at least one such card.
pub fn double_card_due(farm: &FarmInfo, cards: &CardInfo) -> (b: bool)
    ensures
        b == (farm.total_energy >= 100 && cards.double_card >= 1),
{
    farm.total_energy >= 100 && cards.double_card >= 1
}

/// The idle-run law: when every catalog flag reports done, the clock-in
/// is already signed, every follow entry was claimed, and the first
/// collection reply carries the daily-limit sentinel, then no step of
/// the run owes an action-specific call — every catalog plan, the
/// sign-in plan and the follow plan are empty, and the collection loop
/// makes a single attempt.  What remains of such a run is exactly the
/// unconditional part: the snapshot, card, catalog and clock-in fetches.
pub proof fn lemma_idle_run(info: TaskInfo, c: ClockInTask, replies: Seq<Reply>, now_ms: u64)
    requires
        forall|t: CatalogTask| #[trigger] task_done(info, t),
        c.today_signed,
        forall|i: int| 0 <= i < c.themes@.len() ==> (#[trigger] c.themes@[i]).had_got,
        replies.len() > 0,
        duck_verdict_spec(replies[0]) is LimitReached,
    ensures
        forall|t: CatalogTask| #[trigger] catalog_plan(info, t, now_ms) == Seq::<Action>::empty(),
        clock_in_sign_plan_spec(c) == Seq::<Action>::empty(),
        follow_plan_spec(c.themes@) == Seq::<Action>::empty(),
        duck_attempts(replies, 10) == 1,
{
    assert forall|t: CatalogTask| #[trigger] catalog_plan(info, t, now_ms) == Seq::<
        Action,
    >::empty() by {
        assert(task_done(info, t));
    }
    lemma_follow_all_claimed(c.themes@);
}

} // verus!
