//! Per-task handlers: for each game activity, the calls it still owes
//! (its *plan*), and the decisions taken on the replies that come back.
//!
//! A handler never performs a call itself.  It hands the driver a plan —
//! a sequence of [`Action`]s — and, where a protocol reacts to what the
//! server answered, a follow-up function from the classified reply to
//! the next plan.  Every such function is total: a reply only steers,
//! it never aborts the run.

use vstd::prelude::*;
use crate::envelope::Reply;
use crate::model::{TotalWaterTask, TreasureBoxTask, BrowseTaskItem, WaterRainTask, WaterFriendTask, FriendInfo, CardInfo, FollowTask, ClockInTask};
use crate::actions::{Call, Action, CardKind, ActionTag, count_tag, count_sends, lemma_count_tag_add, lemma_count_sends_add, lemma_counts_one, lemma_counts_empty, lemma_counts_pair, lemma_counts_triple};

verus! {

/// What one task came to, reported up to the orchestrator instead of
/// being logged from inside the handler.
#[derive(Clone, Debug, PartialEq, Eq)]
pub enum TaskOutcome {
    /// The task went through; the amount of water drops it yielded.
    Completed(u64),
    /// The task was not owed anything today.
    Skipped,
    /// The server rejected the task; the run goes on regardless.
    Failed,
}

/// The early pop-reward step: one claim call exactly when the farm
/// snapshot flagged a pending pop, nothing otherwise.
pub fn pop_check_plan(can_pop: bool) -> (p: Vec<Action>)
    ensures
        p@ == (if can_pop {
            seq![Action::Send(Call::PopReward)]
        } else {
            Seq::<Action>::empty()
        }),
{
    let mut p: Vec<Action> = Vec::new();
    if can_pop {
        p.push(Action::Send(Call::PopReward));
        assert(p@ =~= seq![Action::Send(Call::PopReward)]);
    }
    p
}

/// The pop reward is claimed with a single call.
pub fn pop_reward_plan() -> (p: Vec<Action>)
    ensures
        p@ == seq![Action::Send(Call::PopReward)],
{
    let mut p: Vec<Action> = Vec::new();
    p.push(Action::Send(Call::PopReward));
    assert(p@ =~= seq![Action::Send(Call::PopReward)]);
    p
}

/// Reading a pop-reward reply: on success the yield is `addEnergy`.
pub fn pop_reward_outcome(r: &Reply) -> (o: TaskOutcome)
    ensures
        o == (if r.success {
            TaskOutcome::Completed(r.add_energy)
        } else {
            TaskOutcome::Failed
        }),
{
    if r.success {
        TaskOutcome::Completed(r.add_energy)
    } else {
        TaskOutcome::Failed
    }
}

/// One watering: a single call, the building block of several tasks.
pub fn water_once_plan() -> (p: Vec<Action>)
    ensures
        p@ == seq![Action::Send(Call::Water)],
{
    let mut p: Vec<Action> = Vec::new();
    p.push(Action::Send(Call::Water));
    assert(p@ =~= seq![Action::Send(Call::Water)]);
    p
}

/// What a watering reply decides: whether it succeeded, and the balance
/// the server reported alongside.
pub struct WaterOutcome {
    pub ok: bool,
    pub remaining: u64,
}

/// Reading a watering reply.
pub fn water_once_outcome(r: &Reply) -> (o: WaterOutcome)
    ensures
        o.ok == r.success,
        o.remaining == r.total_energy,
{
    WaterOutcome { ok: r.success, remaining: r.total_energy }
}

/// The follow-up of a reward claim: the amount taken from `amount`, with
/// `totalWaterTaskEnergy` as fallback, and one opportunistic pop-reward
/// call whenever the reply signals that a pop is now available.
pub struct ClaimOutcome {
    pub outcome: TaskOutcome,
    pub follow_up: Vec<Action>,
}

/// The amount a claim reply reports.
pub open spec fn claim_amount_spec(r: Reply) -> u64 {
    if r.amount != 0 {
        r.amount
    } else {
        r.total_water_task_energy
    }
}

/// Reading a reward-claim reply, shared by the watering-task claims.
pub fn claim_outcome(r: &Reply) -> (o: ClaimOutcome)
    ensures
        o.outcome == (if r.success {
            TaskOutcome::Completed(claim_amount_spec(*r))
        } else {
            TaskOutcome::Failed
        }),
        o.follow_up@ == (if r.success && r.can_pop {
            seq![Action::Send(Call::PopReward)]
        } else {
            Seq::<Action>::empty()
        }),
{
    let outcome = if r.success {
        let amount = if r.amount != 0 {
            r.amount
        } else {
            r.total_water_task_energy
        };
        TaskOutcome::Completed(amount)
    } else {
        TaskOutcome::Failed
    };
    let follow_up = if r.success && r.can_pop {
        pop_reward_plan()
    } else {
        Vec::new()
    };
    ClaimOutcome { outcome, follow_up }
}

/// The first-water task opens with one watering.
pub fn first_water_open() -> (p: Vec<Action>)
    ensures
        p@ == seq![Action::Send(Call::Water)],
{
    water_once_plan()
}

/// The first-water reward is claimed only when the watering succeeded;
/// a failed watering ends the task with no further call.
pub fn first_water_followup(watered: bool) -> (p: Vec<Action>)
    ensures
        p@ == (if watered {
            seq![Action::Send(Call::FirstWaterAward)]
        } else {
            Seq::<Action>::empty()
        }),
{
    let mut p: Vec<Action> = Vec::new();
    if watered {
        p.push(Action::Send(Call::FirstWaterAward));
        assert(p@ =~= seq![Action::Send(Call::FirstWaterAward)]);
    }
    p
}

/// The promo-entry protocol: an unconditional acknowledge, a one-second
/// pace, then the confirm call carrying the catalog's route token.
pub fn treasure_box_plan(t: &TreasureBoxTask) -> (p: Vec<Action>)
    ensures
        p@ == seq![
            Action::Send(Call::TreasureBoxAck),
            Action::Sleep(1),
            Action::Send(Call::TreasureBoxConfirm(t.line)),
        ],
{
    let mut p: Vec<Action> = Vec::new();
    p.push(Action::Send(Call::TreasureBoxAck));
    p.push(Action::Sleep(1));
    p.push(Action::Send(Call::TreasureBoxConfirm(t.line.clone())));
    assert(p@ =~= seq![
        Action::Send(Call::TreasureBoxAck),
        Action::Sleep(1),
        Action::Send(Call::TreasureBoxConfirm(t.line)),
    ]);
    p
}

/// Reading the promo-entry confirm reply: the yield is `waterGram`.
pub fn treasure_box_outcome(r: &Reply) -> (o: TaskOutcome)
    ensures
        o == (if r.success {
            TaskOutcome::Completed(r.water_gram)
        } else {
            TaskOutcome::Failed
        }),
{
    if r.success {
        TaskOutcome::Completed(r.water_gram)
    } else {
        TaskOutcome::Failed
    }
}

/// The cooldown of the water-rain event: three hours, in milliseconds.
pub open spec fn rain_cooldown_ms() -> int {
    10_800_000
}

/// Whether the water-rain event is due: at least the cooldown has
/// elapsed since `last_time`.
pub open spec fn rain_due(t: WaterRainTask, now_ms: u64) -> bool {
    now_ms >= t.last_time + rain_cooldown_ms()
}

/// The semi-randomized secondary parameter of a water-rain call,
/// derived from the current timestamp.
pub open spec fn rain_param_spec(now_ms: u64) -> u64 {
    (now_ms % 5 + 50) as u64
}

/// The water-rain plan: nothing before the cooldown has elapsed, exactly
/// one call afterwards.
pub open spec fn water_rain_plan_spec(t: WaterRainTask, now_ms: u64) -> Seq<Action> {
    if rain_due(t, now_ms) {
        seq![Action::Send(Call::WaterRain(rain_param_spec(now_ms)))]
    } else {
        Seq::<Action>::empty()
    }
}

/// Executable counterpart of `water_rain_plan_spec`.
pub fn water_rain_plan(t: &WaterRainTask, now_ms: u64) -> (p: Vec<Action>)
    ensures
        p@ == water_rain_plan_spec(*t, now_ms),
        rain_due(*t, now_ms) ==> count_sends(p@) == 1,
        !rain_due(*t, now_ms) ==> count_sends(p@) == 0,
{
    let mut p: Vec<Action> = Vec::new();
    let due = now_ms >= 10_800_000 && t.last_time <= now_ms - 10_800_000;
    if due {
        p.push(Action::Send(Call::WaterRain(now_ms % 5 + 50)));
        assert(p@ =~= seq![Action::Send(Call::WaterRain(rain_param_spec(now_ms)))]);
    }
    proof {
        if rain_due(*t, now_ms) {
            lemma_counts_one(Action::Send(Call::WaterRain(rain_param_spec(now_ms))), ActionTag::WaterRain);
        } else {
            lemma_counts_empty(ActionTag::WaterRain);
        }
    }
    p
}

/// Reading a water-rain reply: the yield is `addEnergy`.
pub fn water_rain_outcome(r: &Reply) -> (o: TaskOutcome)
    ensures
        o == (if r.success {
            TaskOutcome::Completed(r.add_energy)
        } else {
            TaskOutcome::Failed
        }),
{
    if r.success {
        TaskOutcome::Completed(r.add_energy)
    } else {
        TaskOutcome::Failed
    }
}

/// The blocked windows of the scheduled claim, over the UTC+8 hour:
/// late evening and the two mid-day stretches.
pub open spec fn meal_window_blocked(h: int) -> bool {
    h >= 21 || (9 <= h && h < 11) || (14 <= h && h < 17)
}

/// Whether the advisory "not in the claim window" message is owed.
pub fn meal_advisory(hour: u8) -> (b: bool)
    ensures
        b == meal_window_blocked(hour as int),
{
    hour >= 21 || (9 <= hour && hour < 11) || (14 <= hour && hour < 17)
}

/// The scheduled claim issues its call in every case: the window check
/// above only produces an advisory message and never gates the call.
pub fn three_meal_plan() -> (p: Vec<Action>)
    ensures
        p@ == seq![Action::Send(Call::ThreeMeal)],
{
    let mut p: Vec<Action> = Vec::new();
    p.push(Action::Send(Call::ThreeMeal));
    assert(p@ =~= seq![Action::Send(Call::ThreeMeal)]);
    p
}

/// Reading a scheduled-claim reply: the yield is `amount`.
pub fn three_meal_outcome(r: &Reply) -> (o: TaskOutcome)
    ensures
        o == (if r.success {
            TaskOutcome::Completed(r.amount)
        } else {
            TaskOutcome::Failed
        }),
{
    if r.success {
        TaskOutcome::Completed(r.amount)
    } else {
        TaskOutcome::Failed
    }
}

/// Consuming one booster card is a single call.
pub fn use_card_plan(kind: CardKind) -> (p: Vec<Action>)
    ensures
        p@ == seq![Action::Send(Call::UseCard(kind))],
{
    let ghost k = kind;
    let mut p: Vec<Action> = Vec::new();
    p.push(Action::Send(Call::UseCard(kind)));
    assert(p@ =~= seq![Action::Send(Call::UseCard(k))]);
    p
}

/// What the clock-in sign-in opens with: nothing when today is already
/// signed, one sign call otherwise.
pub open spec fn clock_in_sign_plan_spec(c: ClockInTask) -> Seq<Action> {
    if c.today_signed {
        Seq::<Action>::empty()
    } else {
        seq![Action::Send(Call::ClockInSign)]
    }
}

/// Executable counterpart of `clock_in_sign_plan_spec`: the sign-in is
/// gated by today's flag of the clock-in snapshot.
pub fn clock_in_sign_plan(c: &ClockInTask) -> (p: Vec<Action>)
    ensures
        p@ == clock_in_sign_plan_spec(*c),
{
    let mut p: Vec<Action> = Vec::new();
    if !c.today_signed {
        p.push(Action::Send(Call::ClockInSign));
        assert(p@ =~= seq![Action::Send(Call::ClockInSign)]);
    }
    p
}

/// A successful clock-in sign-in is followed by a card-inventory fetch,
/// to see whether extra-signature cards can be consumed; a failed one
/// ends the task.
pub fn after_clock_in_sign(success: bool) -> (p: Vec<Action>)
    ensures
        p@ == (if success {
            seq![Action::Send(Call::CardInventory)]
        } else {
            Seq::<Action>::empty()
        }),
{
    let mut p: Vec<Action> = Vec::new();
    if success {
        p.push(Action::Send(Call::CardInventory));
        assert(p@ =~= seq![Action::Send(Call::CardInventory)]);
    }
    p
}

/// How many extra-signature cards the sign-in chain consumes: up to
/// three, fewer when the inventory holds fewer.
pub open spec fn sign_card_uses(n: u16) -> nat {
    if n >= 3 {
        3nat
    } else {
        n as nat
    }
}

/// `k` card consumptions, each paced by a two-second sleep.
pub open spec fn card_burst(k: nat) -> Seq<Action>
    decreases k,
{
    if k == 0 {
        Seq::<Action>::empty()
    } else {
        card_burst((k - 1) as nat) + seq![
            Action::Send(Call::UseCard(CardKind::Sign)),
            Action::Sleep(2),
        ]
    }
}

/// The card chain after a successful sign-in: consume up to three
/// extra-signature cards, two seconds apart.
pub fn sign_card_plan(c: &CardInfo) -> (p: Vec<Action>)
    ensures
        p@ == card_burst(sign_card_uses(c.sign_card)),
{
    let use_num: u16 = if c.sign_card >= 3 {
        3
    } else {
        c.sign_card
    };
    let mut p: Vec<Action> = Vec::new();
    let mut i: u16 = 0;
    assert(p@ =~= card_burst(0));
    while i < use_num
        invariant
            i <= use_num,
            p@ == card_burst(i as nat),
        decreases use_num - i,
    {
        p.push(Action::Send(Call::UseCard(CardKind::Sign)));
        p.push(Action::Sleep(2));
        i = i + 1;
        assert(p@ =~= card_burst((i - 1) as nat) + seq![
            Action::Send(Call::UseCard(CardKind::Sign)),
            Action::Sleep(2),
        ]);
    }
    p
}

/// Watering calls the ten-waters quota still owes: zero when the
/// counter already reached the limit.
pub open spec fn remaining_waters(t: TotalWaterTask) -> nat {
    if t.total_water_task_times < t.total_water_task_limit {
        (t.total_water_task_limit - t.total_water_task_times) as nat
    } else {
        0
    }
}

/// `n` waterings, each paced by a one-second sleep.
pub open spec fn water_rounds(n: nat) -> Seq<Action>
    decreases n,
{
    if n == 0 {
        Seq::<Action>::empty()
    } else {
        water_rounds((n - 1) as nat) + seq![Action::Send(Call::Water), Action::Sleep(1)]
    }
}

/// The ten-waters plan: the outstanding waterings, then one claim call.
pub open spec fn ten_waters_plan_spec(t: TotalWaterTask) -> Seq<Action> {
    water_rounds(remaining_waters(t)) + seq![Action::Send(Call::TotalWaterAward)]
}

/// Executable counterpart of `ten_waters_plan_spec`.
pub fn ten_waters_plan(t: &TotalWaterTask) -> (p: Vec<Action>)
    ensures
        p@ == ten_waters_plan_spec(*t),
{
    let mut p: Vec<Action> = Vec::new();
    let mut i: u16 = t.total_water_task_times;
    assert(p@ =~= water_rounds(0));
    while i < t.total_water_task_limit
        invariant
            t.total_water_task_times <= i,
            i <= t.total_water_task_limit || i == t.total_water_task_times,
            p@ == water_rounds((i - t.total_water_task_times) as nat),
        decreases t.total_water_task_limit - i,
    {
        p.push(Action::Send(Call::Water));
        p.push(Action::Sleep(1));
        i = i + 1;
        assert(p@ =~= water_rounds((i - 1 - t.total_water_task_times) as nat) + seq![
            Action::Send(Call::Water),
            Action::Sleep(1),
        ]);
    }
    p.push(Action::Send(Call::TotalWaterAward));
    assert(p@ =~= water_rounds(remaining_waters(*t)) + seq![Action::Send(Call::TotalWaterAward)]);
    p
}

/// The rounds of the quota loop hold one watering and one sleep each,
/// and no claim call.
pub proof fn lemma_water_rounds_counts(n: nat)
    ensures
        count_tag(water_rounds(n), ActionTag::Water) == n,
        count_tag(water_rounds(n), ActionTag::TotalWaterAward) == 0,
        count_sends(water_rounds(n)) == n,
        water_rounds(n).len() == 2 * n,
    decreases n,
{
    if n == 0 {
    } else {
        let m = (n - 1) as nat;
        lemma_water_rounds_counts(m);
        let pair = seq![Action::Send(Call::Water), Action::Sleep(1)];
        lemma_count_tag_add(water_rounds(m), pair, ActionTag::Water);
        lemma_count_tag_add(water_rounds(m), pair, ActionTag::TotalWaterAward);
        lemma_count_sends_add(water_rounds(m), pair);
        lemma_counts_pair(Action::Send(Call::Water), Action::Sleep(1), ActionTag::Water);
        lemma_counts_pair(Action::Send(Call::Water), Action::Sleep(1), ActionTag::TotalWaterAward);
    }
}

/// The ten-waters law: exactly the outstanding quota of watering calls,
/// then exactly one claim call, which comes last.
pub proof fn lemma_ten_waters_counts(t: TotalWaterTask)
    ensures
        count_tag(ten_waters_plan_spec(t), ActionTag::Water) == remaining_waters(t),
        count_tag(ten_waters_plan_spec(t), ActionTag::TotalWaterAward) == 1,
        count_sends(ten_waters_plan_spec(t)) == remaining_waters(t) + 1,
        ten_waters_plan_spec(t).last() == Action::Send(Call::TotalWaterAward),
{
    let n = remaining_waters(t);
    let award = seq![Action::Send(Call::TotalWaterAward)];
    lemma_water_rounds_counts(n);
    lemma_count_tag_add(water_rounds(n), award, ActionTag::Water);
    lemma_count_tag_add(water_rounds(n), award, ActionTag::TotalWaterAward);
    lemma_count_sends_add(water_rounds(n), award);
    lemma_counts_one(Action::Send(Call::TotalWaterAward), ActionTag::Water);
    lemma_counts_one(Action::Send(Call::TotalWaterAward), ActionTag::TotalWaterAward);
}

/// The ten-waters pacing law: every watering call of the quota loop is
/// followed directly by a one-second sleep.
pub proof fn lemma_water_pacing(n: nat)
    ensures
        forall|i: int|
            0 <= i < water_rounds(n).len() && #[trigger] water_rounds(n)[i] == Action::Send(
                Call::Water,
            ) ==> i + 1 < water_rounds(n).len() && water_rounds(n)[i + 1] == Action::Sleep(1),
    decreases n,
{
    if n == 0 {
    } else {
        let m = (n - 1) as nat;
        lemma_water_pacing(m);
        let prev = water_rounds(m);
        let pair = seq![Action::Send(Call::Water), Action::Sleep(1)];
        let w = water_rounds(n);
        assert(w == prev + pair);
        assert forall|i: int|
            0 <= i < w.len() && #[trigger] w[i] == Action::Send(Call::Water) implies i + 1
            < w.len() && w[i + 1] == Action::Sleep(1) by {
            if i < prev.len() {
                assert(w[i] == prev[i]);
                assert(prev[i + 1] == Action::Sleep(1));
                assert(w[i + 1] == prev[i + 1]);
            } else {
                assert(w[i] == pair[i - prev.len()]);
                assert(i == prev.len());
                assert(w[i + 1] == pair[1]);
            }
        }
    }
}

/// The ten-waters pacing law over the whole plan: every watering call
/// is followed directly by a one-second sleep.
pub proof fn lemma_ten_waters_pacing(t: TotalWaterTask)
    ensures
        forall|i: int|
            0 <= i < ten_waters_plan_spec(t).len() && #[trigger] ten_waters_plan_spec(t)[i]
                == Action::Send(Call::Water) ==> i + 1 < ten_waters_plan_spec(t).len()
                && ten_waters_plan_spec(t)[i + 1] == Action::Sleep(1),
{
    let n = remaining_waters(t);
    let rounds = water_rounds(n);
    let award = seq![Action::Send(Call::TotalWaterAward)];
    let plan = ten_waters_plan_spec(t);
    lemma_water_pacing(n);
    assert(plan == rounds + award);
    assert forall|i: int|
        0 <= i < plan.len() && #[trigger] plan[i] == Action::Send(Call::Water) implies i + 1
        < plan.len() && plan[i + 1] == Action::Sleep(1) by {
        assert(i < rounds.len()) by {
            if i >= rounds.len() {
                assert(plan[i] == award[i - rounds.len()]);
            }
        }
        assert(plan[i] == rounds[i]);
        assert(rounds[i + 1] == Action::Sleep(1));
        assert(plan[i + 1] == rounds[i + 1]);
    }
}

/// Whether an ad item already reached its daily completion limit.
pub open spec fn browse_item_done(it: BrowseTaskItem) -> bool {
    it.had_finished_times >= it.limit
}

/// The plan for one ad item: nothing when the item is at its limit,
/// otherwise a start call, the item's own wait, and a claim call.
pub open spec fn browse_item_plan_spec(it: BrowseTaskItem) -> Seq<Action> {
    if browse_item_done(it) {
        Seq::<Action>::empty()
    } else {
        seq![
            Action::Send(Call::BrowseStart(it.advert_id)),
            Action::Sleep(it.time as u64),
            Action::Send(Call::BrowseClaim(it.advert_id)),
        ]
    }
}

/// Executable counterpart of `browse_item_plan_spec`; the ad-browsing
/// law per item: zero calls at the limit, exactly two otherwise, with
/// the item's wait between them.
pub fn browse_item_plan(it: &BrowseTaskItem) -> (p: Vec<Action>)
    ensures
        p@ == browse_item_plan_spec(*it),
        browse_item_done(*it) ==> count_sends(p@) == 0,
        !browse_item_done(*it) ==> count_sends(p@) == 2,
{
    let mut p: Vec<Action> = Vec::new();
    if it.had_finished_times < it.limit {
        p.push(Action::Send(Call::BrowseStart(it.advert_id.clone())));
        p.push(Action::Sleep(it.time as u64));
        p.push(Action::Send(Call::BrowseClaim(it.advert_id.clone())));
        assert(p@ =~= seq![
            Action::Send(Call::BrowseStart(it.advert_id)),
            Action::Sleep(it.time as u64),
            Action::Send(Call::BrowseClaim(it.advert_id)),
        ]);
        proof {
            lemma_counts_triple(
                Action::Send(Call::BrowseStart(it.advert_id)),
                Action::Sleep(it.time as u64),
                Action::Send(Call::BrowseClaim(it.advert_id)),
                ActionTag::BrowseStart,
            );
        }
    }
    p
}

/// The plan over a whole ad list: the items' plans in list order.
pub open spec fn browse_plan_spec(items: Seq<BrowseTaskItem>) -> Seq<Action>
    decreases items.len(),
{
    if items.len() == 0 {
        Seq::<Action>::empty()
    } else {
        browse_item_plan_spec(items[0]) + browse_plan_spec(items.drop_first())
    }
}

/// Executable counterpart of `browse_plan_spec`.
pub fn browse_plan(items: &Vec<BrowseTaskItem>) -> (p: Vec<Action>)
    ensures
        p@ == browse_plan_spec(items@),
{
    let mut p: Vec<Action> = Vec::new();
    let mut i: usize = 0;
    assert(items@.skip(0) =~= items@);
    assert(p@ + browse_plan_spec(items@) =~= browse_plan_spec(items@));
    while i < items.len()
        invariant
            i <= items@.len(),
            p@ + browse_plan_spec(items@.skip(i as int)) == browse_plan_spec(items@),
        decreases items@.len() - i,
    {
        let mut q = browse_item_plan(&items[i]);
        proof {
            let rest = items@.skip(i as int);
            assert(rest[0] == items@[i as int]);
            assert(rest.drop_first() =~= items@.skip(i as int + 1));
        }
        p.append(&mut q);
        i = i + 1;
        proof {
            assert(p@ + browse_plan_spec(items@.skip(i as int)) =~= browse_plan_spec(items@));
        }
    }
    assert(items@.skip(items@.len() as int) =~= Seq::<BrowseTaskItem>::empty());
    assert(p@ =~= p@ + browse_plan_spec(Seq::<BrowseTaskItem>::empty()));
    p
}

/// How many items of an ad list are still under their daily limit.
pub open spec fn pending_items(items: Seq<BrowseTaskItem>) -> nat
    decreases items.len(),
{
    if items.len() == 0 {
        0
    } else {
        (if browse_item_done(items[0]) {
            0nat
        } else {
            1nat
        }) + pending_items(items.drop_first())
    }
}

/// The ad-browsing law over a whole list: one start and one claim call
/// per pending item, nothing for items at their limit.
pub proof fn lemma_browse_counts(items: Seq<BrowseTaskItem>)
    ensures
        count_tag(browse_plan_spec(items), ActionTag::BrowseStart) == pending_items(items),
        count_tag(browse_plan_spec(items), ActionTag::BrowseClaim) == pending_items(items),
        count_sends(browse_plan_spec(items)) == 2 * pending_items(items),
    decreases items.len(),
{
    if items.len() == 0 {
    } else {
        let head = browse_item_plan_spec(items[0]);
        let rest = browse_plan_spec(items.drop_first());
        lemma_browse_counts(items.drop_first());
        lemma_count_tag_add(head, rest, ActionTag::BrowseStart);
        lemma_count_tag_add(head, rest, ActionTag::BrowseClaim);
        lemma_count_sends_add(head, rest);
        if browse_item_done(items[0]) {
            lemma_counts_empty(ActionTag::BrowseStart);
        } else {
            let start = Action::Send(Call::BrowseStart(items[0].advert_id));
            let wait = Action::Sleep(items[0].time as u64);
            let claim = Action::Send(Call::BrowseClaim(items[0].advert_id));
            lemma_counts_triple(start, wait, claim, ActionTag::BrowseStart);
            lemma_counts_triple(start, wait, claim, ActionTag::BrowseClaim);
        }
    }
}

/// Friend waterings the water-two-friends task still owes.
pub open spec fn friend_quota(t: WaterFriendTask) -> nat {
    if t.water_friend_count_key < t.water_friend_max {
        (t.water_friend_max - t.water_friend_count_key) as nat
    } else {
        0
    }
}

/// The water-two-friends task opens with a friend-list fetch, and only
/// when quota is still outstanding.
pub open spec fn friend_task_open_spec(t: WaterFriendTask) -> Seq<Action> {
    if friend_quota(t) > 0 {
        seq![Action::Send(Call::FriendList)]
    } else {
        Seq::<Action>::empty()
    }
}

/// Executable counterpart of `friend_task_open_spec`.
pub fn friend_task_open(t: &WaterFriendTask) -> (p: Vec<Action>)
    ensures
        p@ == friend_task_open_spec(*t),
{
    let mut p: Vec<Action> = Vec::new();
    if t.water_friend_count_key < t.water_friend_max {
        p.push(Action::Send(Call::FriendList));
        assert(p@ =~= seq![Action::Send(Call::FriendList)]);
    }
    p
}

/// The waterings over a friend list: eligible friends (`friend_state !=
/// 0`) in list order, up to the quota, one-second sleeps between
/// consecutive waterings but not after the last.
pub open spec fn friend_water_seq(friends: Seq<FriendInfo>, quota: nat) -> Seq<Action>
    decreases friends.len(),
{
    if quota == 0 || friends.len() == 0 {
        Seq::<Action>::empty()
    } else if friends[0].friend_state == 0 {
        friend_water_seq(friends.drop_first(), quota)
    } else if quota == 1 {
        seq![Action::Send(Call::WaterFriend(friends[0].share_code))]
    } else {
        seq![Action::Send(Call::WaterFriend(friends[0].share_code)), Action::Sleep(1)]
            + friend_water_seq(friends.drop_first(), (quota - 1) as nat)
    }
}

/// The full water-two-friends plan once the friend list is known:
/// nothing when no quota is outstanding, otherwise the waterings and
/// one aggregate claim call.
pub open spec fn friend_water_plan_spec(t: WaterFriendTask, friends: Seq<FriendInfo>) -> Seq<
    Action,
> {
    if friend_quota(t) == 0 {
        Seq::<Action>::empty()
    } else {
        friend_water_seq(friends, friend_quota(t)) + seq![Action::Send(Call::WaterFriendAward)]
    }
}

/// Executable counterpart of `friend_water_plan_spec`.
pub fn friend_water_plan(t: &WaterFriendTask, friends: &Vec<FriendInfo>) -> (p: Vec<Action>)
    ensures
        p@ == friend_water_plan_spec(*t, friends@),
{
    let mut p: Vec<Action> = Vec::new();
    if t.water_friend_count_key >= t.water_friend_max {
        return p;
    }
    let full_quota: u8 = t.water_friend_max - t.water_friend_count_key;
    let mut quota: u8 = full_quota;
    let mut i: usize = 0;
    assert(friends@.skip(0) =~= friends@);
    assert(p@ + friend_water_seq(friends@, full_quota as nat) =~= friend_water_seq(
        friends@,
        full_quota as nat,
    ));
    while i < friends.len() && quota > 0
        invariant
            i <= friends@.len(),
            quota <= full_quota,
            full_quota as nat == friend_quota(*t),
            friend_quota(*t) > 0,
            p@ + friend_water_seq(friends@.skip(i as int), quota as nat) == friend_water_seq(
                friends@,
                full_quota as nat,
            ),
        decreases friends@.len() - i,
    {
        proof {
            let rest = friends@.skip(i as int);
            assert(rest[0] == friends@[i as int]);
            assert(rest.drop_first() =~= friends@.skip(i as int + 1));
        }
        let f = &friends[i];
        if f.friend_state != 0 {
            p.push(Action::Send(Call::WaterFriend(f.share_code.clone())));
            quota = quota - 1;
            if quota > 0 {
                p.push(Action::Sleep(1));
            }
        }
        i = i + 1;
        proof {
            assert(p@ + friend_water_seq(friends@.skip(i as int), quota as nat) =~=
                friend_water_seq(friends@, full_quota as nat));
        }
    }
    proof {
        if quota == 0 {
            assert(friend_water_seq(friends@.skip(i as int), 0) =~= Seq::<Action>::empty());
        } else {
            assert(friends@.skip(i as int) =~= Seq::<FriendInfo>::empty());
        }
        assert(p@ =~= friend_water_seq(friends@, full_quota as nat));
    }
    p.push(Action::Send(Call::WaterFriendAward));
    assert(p@ =~= friend_water_seq(friends@, friend_quota(*t)) + seq![
        Action::Send(Call::WaterFriendAward),
    ]);
    p
}

/// Reading the aggregate friend-watering claim reply: the yield is
/// `addWater`.
pub fn friend_award_outcome(r: &Reply) -> (o: TaskOutcome)
    ensures
        o == (if r.success {
            TaskOutcome::Completed(r.add_water)
        } else {
            TaskOutcome::Failed
        }),
{
    if r.success {
        TaskOutcome::Completed(r.add_water)
    } else {
        TaskOutcome::Failed
    }
}

/// The plan for one follow task: claimed entries are skipped; an entry
/// not yet followed gets a follow call before its claim call.
pub open spec fn follow_item_spec(t: FollowTask) -> Seq<Action> {
    if t.had_got {
        Seq::<Action>::empty()
    } else if !t.had_follow {
        seq![Action::Send(Call::ClockInFollow(t.id)), Action::Send(Call::ClockInFollowClaim(t.id))]
    } else {
        seq![Action::Send(Call::ClockInFollowClaim(t.id))]
    }
}

/// The plan over the whole follow-task list, in list order.
pub open spec fn follow_plan_spec(ts: Seq<FollowTask>) -> Seq<Action>
    decreases ts.len(),
{
    if ts.len() == 0 {
        Seq::<Action>::empty()
    } else {
        follow_item_spec(ts[0]) + follow_plan_spec(ts.drop_first())
    }
}

/// Executable counterpart of `follow_item_spec`.
pub fn follow_item_plan(t: &FollowTask) -> (p: Vec<Action>)
    ensures
        p@ == follow_item_spec(*t),
{
    let mut p: Vec<Action> = Vec::new();
    if !t.had_got {
        if !t.had_follow {
            p.push(Action::Send(Call::ClockInFollow(t.id.clone())));
        }
        p.push(Action::Send(Call::ClockInFollowClaim(t.id.clone())));
        if !t.had_follow {
            assert(p@ =~= seq![
                Action::Send(Call::ClockInFollow(t.id)),
                Action::Send(Call::ClockInFollowClaim(t.id)),
            ]);
        } else {
            assert(p@ =~= seq![Action::Send(Call::ClockInFollowClaim(t.id))]);
        }
    }
    p
}

/// Executable counterpart of `follow_plan_spec`.
pub fn follow_plan(ts: &Vec<FollowTask>) -> (p: Vec<Action>)
    ensures
        p@ == follow_plan_spec(ts@),
{
    let mut p: Vec<Action> = Vec::new();
    let mut i: usize = 0;
    assert(ts@.skip(0) =~= ts@);
    assert(p@ + follow_plan_spec(ts@) =~= follow_plan_spec(ts@));
    while i < ts.len()
        invariant
            i <= ts@.len(),
            p@ + follow_plan_spec(ts@.skip(i as int)) == follow_plan_spec(ts@),
        decreases ts@.len() - i,
    {
        let mut q = follow_item_plan(&ts[i]);
        proof {
            let rest = ts@.skip(i as int);
            assert(rest[0] == ts@[i as int]);
            assert(rest.drop_first() =~= ts@.skip(i as int + 1));
        }
        p.append(&mut q);
        i = i + 1;
        proof {
            assert(p@ + follow_plan_spec(ts@.skip(i as int)) =~= follow_plan_spec(ts@));
        }
    }
    assert(ts@.skip(ts@.len() as int) =~= Seq::<FollowTask>::empty());
    assert(p@ =~= p@ + follow_plan_spec(Seq::<FollowTask>::empty()));
    p
}

/// The failure code by which the server reports that today's
/// collection-reward attempts are used up.
pub open spec fn duck_limit_code() -> Seq<char> {
    "10"@
}

/// What one collection-reward reply decides.
#[derive(Clone, Copy, Debug, PartialEq, Eq)]
pub enum DuckVerdict {
    /// The attempt yielded a reward; keep attempting.
    Success,
    /// The daily-limit sentinel: stop at once.
    LimitReached,
    /// Some other rejection; keep attempting.
    Failed,
}

/// The verdict a collection-reward reply comes to.
pub open spec fn duck_verdict_spec(r: Reply) -> DuckVerdict {
    if r.success {
        DuckVerdict::Success
    } else if r.code@ == duck_limit_code() {
        DuckVerdict::LimitReached
    } else {
        DuckVerdict::Failed
    }
}

/// Executable counterpart of `duck_verdict_spec`.
pub fn duck_verdict(r: &Reply) -> (v: DuckVerdict)
    ensures
        v == duck_verdict_spec(*r),
{
    if r.success {
        DuckVerdict::Success
    } else if crate::envelope::str_eq(&r.code, "10") {
        DuckVerdict::LimitReached
    } else {
        DuckVerdict::Failed
    }
}

/// Whether the loop goes on after a verdict.
pub fn duck_continue(v: &DuckVerdict) -> (c: bool)
    ensures
        c == !(*v is LimitReached),
{
    match v {
        DuckVerdict::LimitReached => false,
        DuckVerdict::Success => true,
        DuckVerdict::Failed => true,
    }
}

/// Each collection attempt is one call; the driver paces attempts with
/// a two-second sleep after every reply that does not end the loop.
pub fn duck_attempt_plan() -> (p: Vec<Action>)
    ensures
        p@ == seq![Action::Send(Call::CollectionReward)],
{
    let mut p: Vec<Action> = Vec::new();
    p.push(Action::Send(Call::CollectionReward));
    assert(p@ =~= seq![Action::Send(Call::CollectionReward)]);
    p
}

/// The pacing after a collection attempt: a two-second sleep whenever
/// the verdict lets the loop go on, nothing when it ends the loop.
pub fn duck_followup(v: &DuckVerdict) -> (p: Vec<Action>)
    ensures
        p@ == (if *v is LimitReached {
            Seq::<Action>::empty()
        } else {
            seq![Action::Sleep(2)]
        }),
{
    let mut p: Vec<Action> = Vec::new();
    match v {
        DuckVerdict::LimitReached => {},
        DuckVerdict::Success | DuckVerdict::Failed => {
            p.push(Action::Sleep(2));
            assert(p@ =~= seq![Action::Sleep(2)]);
        },
    }
    p
}

/// How many attempts the collection loop makes when the server answers
/// as `replies`, with `budget` attempts allowed: every attempt consumes
/// one reply, and the daily-limit sentinel ends the loop at once.
pub open spec fn duck_attempts(replies: Seq<Reply>, budget: nat) -> nat
    decreases budget,
{
    if budget == 0 || replies.len() == 0 {
        0
    } else if duck_verdict_spec(replies[0]) is LimitReached {
        1
    } else {
        1 + duck_attempts(replies.drop_first(), (budget - 1) as nat)
    }
}

/// The collection loop never exceeds its attempt budget.
pub proof fn lemma_duck_bounded(replies: Seq<Reply>, budget: nat)
    ensures
        duck_attempts(replies, budget) <= budget,
    decreases budget,
{
    if budget == 0 || replies.len() == 0 {
    } else if duck_verdict_spec(replies[0]) is LimitReached {
    } else {
        lemma_duck_bounded(replies.drop_first(), (budget - 1) as nat);
    }
}

/// The collection-reward law, first half: at most ten attempts are made.
pub proof fn lemma_duck_at_most_ten(replies: Seq<Reply>)
    ensures
        duck_attempts(replies, 10) <= 10,
{
    lemma_duck_bounded(replies, 10);
}

/// The collection-reward law, second half: the daily-limit sentinel
/// stops the loop at once, even when it arrives on the first attempt.
pub proof fn lemma_duck_stops_on_limit(replies: Seq<Reply>, budget: nat)
    requires
        budget > 0,
        replies.len() > 0,
        duck_verdict_spec(replies[0]) is LimitReached,
    ensures
        duck_attempts(replies, budget) == 1,
{
}

/// The collection-reward law in general position: when the first
/// sentinel of the reply stream arrives on the k-th reply, exactly k
/// attempts are made.
pub proof fn lemma_duck_stops_at_k(replies: Seq<Reply>, budget: nat, k: nat)
    requires
        1 <= k <= budget,
        replies.len() >= k,
        forall|i: int| 0 <= i < k - 1 ==> !(duck_verdict_spec(#[trigger] replies[i]) is LimitReached),
        duck_verdict_spec(replies[k - 1]) is LimitReached,
    ensures
        duck_attempts(replies, budget) == k,
    decreases k,
{
    if k == 1 {
    } else {
        assert(!(duck_verdict_spec(replies[0]) is LimitReached));
        let rest = replies.drop_first();
        assert(rest[k - 2] == replies[k - 1]);
        assert forall|i: int|
            0 <= i < k - 2 implies !(duck_verdict_spec(#[trigger] rest[i]) is LimitReached) by {
            assert(rest[i] == replies[i + 1]);
        }
        lemma_duck_stops_at_k(rest, (budget - 1) as nat, (k - 1) as nat);
    }
}

/// Executable mirror of `duck_attempts` at the fixed budget of ten:
/// walks the verdicts as the loop would and returns how many attempts
/// are made.
pub fn duck_attempt_count(replies: &Vec<Reply>) -> (n: usize)
    ensures
        n as nat == duck_attempts(replies@, 10),
        n <= 10,
{
    let mut i: usize = 0;
    let mut stopped = false;
    assert(replies@.skip(0) =~= replies@);
    while !stopped && i < 10 && i < replies.len()
        invariant
            i <= 10,
            i <= replies@.len(),
            !stopped ==> duck_attempts(replies@, 10) == i + duck_attempts(
                replies@.skip(i as int),
                (10 - i) as nat,
            ),
            stopped ==> duck_attempts(replies@, 10) == i,
        decreases 10 - i, (if stopped { 0int } else { 1int }),
    {
        proof {
            let rest = replies@.skip(i as int);
            assert(rest[0] == replies@[i as int]);
            assert(rest.drop_first() =~= replies@.skip(i as int + 1));
        }
        let v = duck_verdict(&replies[i]);
        i = i + 1;
        match v {
            DuckVerdict::LimitReached => {
                stopped = true;
            },
            _ => {},
        }
    }
    proof {
        if !stopped {
            if i < replies@.len() {
                assert(duck_attempts(replies@.skip(i as int), (10 - i) as nat) == 0);
            } else {
                assert(replies@.skip(i as int) =~= Seq::<Reply>::empty());
            }
        }
    }
    i
}

/// Claimed follow entries owe nothing: a list whose entries were all
/// claimed yields the empty plan.
pub proof fn lemma_follow_all_claimed(ts: Seq<FollowTask>)
    requires
        forall|i: int| 0 <= i < ts.len() ==> (#[trigger] ts[i]).had_got,
    ensures
        follow_plan_spec(ts) == Seq::<Action>::empty(),
    decreases ts.len(),
{
    if ts.len() == 0 {
    } else {
        assert(ts[0].had_got);
        let rest = ts.drop_first();
        assert forall|i: int| 0 <= i < rest.len() implies (#[trigger] rest[i]).had_got by {
            assert(rest[i] == ts[i + 1]);
        }
        lemma_follow_all_claimed(rest);
        assert(follow_plan_spec(ts) =~= Seq::<Action>::empty());
    }
}

/// Reading a follow-task claim reply: the yield is `amount`.
pub fn follow_claim_outcome(r: &Reply) -> (o: TaskOutcome)
    ensures
        o == (if r.success {
            TaskOutcome::Completed(r.amount)
        } else {
            TaskOutcome::Failed
        }),
{
    if r.success {
        TaskOutcome::Completed(r.amount)
    } else {
        TaskOutcome::Failed
    }
}

} // verus!
