//! Expedition runs: chained legs whose rewards bank as they go. Cashing out
//! keeps everything banked; losing a leg ends the run and pays out half.
//! The carriage health that carries between legs belongs to the simulation.

use vstd::prelude::*;
use crate::campaign::id_views;
use crate::ids::lemma_id_views_push;
use crate::session::{GameSession, Screen};
use crate::text::{decimal, push_decimal, push_int, push_str, signed_decimal, str_eq};

verus! {

broadcast use vstd::seq_lib::group_seq_properties;

/// One of the three rewards offered after clearing a leg.
#[derive(Debug, Clone)]
pub enum LegReward {
    /// Pure gold.
    Bounty(i64),
    /// Modest gold plus a patch-up of the carriage by `heal_percent` of its
    /// maximum health.
    Provisions { gold: i64, heal_percent: u32 },
    /// A full carriage repair plus a little gold.
    Repair { gold: i64 },
    /// A run-scoped relic, by identifier.
    Relic(String),
}

/// Gold a reward banks.
pub open spec fn reward_gold(r: LegReward) -> int {
    match r {
        LegReward::Bounty(g) => g as int,
        LegReward::Provisions { gold, .. } => gold as int,
        LegReward::Repair { gold } => gold as int,
        LegReward::Relic(_) => 0,
    }
}

/// An expedition in progress.
#[derive(Debug, Clone)]
pub struct Journey {
    /// Current leg number, counted from one.
    pub leg: u32,
    /// Rewards earned so far this run, not yet paid to the campaign.
    pub banked_gold: i64,
    /// False once a leg has been lost.
    pub alive: bool,
    /// Gold of the most recently chosen reward.
    pub last_reward: i64,
    /// Name of the most recent leg's route.
    pub last_mission_name: String,
    /// Gold paid out when the run was lost.
    pub payout: i64,
    /// Rewards offered after clearing a leg, awaiting a pick.
    pub pending_rewards: Option<[LegReward; 3]>,
    /// Relics collected this run.
    pub relics: Vec<String>,
}

/// `f` is `j` after applying reward `w`: its gold is banked and recorded as
/// the last reward, a relic joins the collection, nothing else changes.
pub open spec fn rewarded(j: Journey, w: LegReward, f: Journey) -> bool {
    &&& f.banked_gold == j.banked_gold + reward_gold(w)
    &&& f.last_reward == reward_gold(w)
    &&& f.relics@ == match w {
        LegReward::Relic(id) => j.relics@.push(id),
        _ => j.relics@,
    }
    &&& f == (Journey { banked_gold: f.banked_gold, last_reward: f.last_reward, relics: f.relics, ..j })
}

impl LegReward {
    /// Banks this reward into `journey` and records it as the last reward.
    pub fn apply(self, journey: &mut Journey)
        requires
            i64::MIN <= old(journey).banked_gold + reward_gold(self) <= i64::MAX,
        ensures
            rewarded(*old(journey), self, *final(journey)),
    {
        match self {
            LegReward::Bounty(gold) => {
                journey.banked_gold = journey.banked_gold + gold;
                journey.last_reward = gold;
            },
            LegReward::Provisions { gold, .. } => {
                journey.banked_gold = journey.banked_gold + gold;
                journey.last_reward = gold;
            },
            LegReward::Repair { gold } => {
                journey.banked_gold = journey.banked_gold + gold;
                journey.last_reward = gold;
            },
            LegReward::Relic(id) => {
                journey.relics.push(id);
                journey.last_reward = 0;
            },
        }
    }
}

impl LegReward {
    /// Display title; a relic shows its name when the caller found one.
    pub fn title(&self, relic_name: Option<&str>) -> (r: String)
        ensures
            r@ == match *self {
                LegReward::Bounty(_) => "Bounty Purse"@,
                LegReward::Provisions { .. } => "War Provisions"@,
                LegReward::Repair { .. } => "Field Repairs"@,
                LegReward::Relic(_) => match relic_name {
                    Some(name) => "Relic \u{2014} "@ + name@,
                    None => "Relic"@,
                },
            },
    {
        match self {
            LegReward::Bounty(_) => "Bounty Purse".to_owned(),
            LegReward::Provisions { .. } => "War Provisions".to_owned(),
            LegReward::Repair { .. } => "Field Repairs".to_owned(),
            LegReward::Relic(_) => match relic_name {
                Some(name) => {
                    let mut t = "Relic \u{2014} ".to_owned();
                    crate::text::push_str(&mut t, name);
                    t
                },
                None => "Relic".to_owned(),
            },
        }
    }
}

impl LegReward {
    /// One-line description: the gold banked, the patch-up, or the relic's
    /// description when the caller found one.
    pub fn detail(&self, relic_description: Option<&str>) -> (r: String)
        ensures
            r@ == match *self {
                LegReward::Bounty(g) => "+"@ + signed_decimal(g as int) + " gold banked"@,
                LegReward::Provisions { gold, heal_percent } => "+"@ + signed_decimal(gold as int) + " gold, +"@
                    + decimal(heal_percent as nat) + "% carriage health"@,
                LegReward::Repair { gold } => "Full repair, +"@ + signed_decimal(gold as int) + " gold"@,
                LegReward::Relic(_) => match relic_description {
                    Some(d) => d@,
                    None => "A mysterious boon."@,
                },
            },
    {
        let mut t = String::new();
        match self {
            LegReward::Bounty(g) => {
                push_str(&mut t, "+");
                push_int(&mut t, *g);
                push_str(&mut t, " gold banked");
            },
            LegReward::Provisions { gold, heal_percent } => {
                push_str(&mut t, "+");
                push_int(&mut t, *gold);
                push_str(&mut t, " gold, +");
                push_decimal(&mut t, *heal_percent as u64);
                push_str(&mut t, "% carriage health");
            },
            LegReward::Repair { gold } => {
                push_str(&mut t, "Full repair, +");
                push_int(&mut t, *gold);
                push_str(&mut t, " gold");
            },
            LegReward::Relic(_) => match relic_description {
                Some(d) => push_str(&mut t, d),
                None => push_str(&mut t, "A mysterious boon."),
            },
        }
        t
    }
}

/// A branch offered for the next expedition leg: a campaign route paired
/// with a leg modifier.
#[derive(Debug, Clone)]
pub struct LegOption {
    pub mission_id: String,
    pub modifier_id: String,
}

impl LegOption {
    /// The modifier's name when the caller found one, else "Onward".
    pub fn title(&self, modifier_name: Option<&str>) -> (r: String)
        ensures
            r@ == match modifier_name {
                Some(name) => name@,
                None => "Onward"@,
            },
    {
        match modifier_name {
            Some(name) => name.to_owned(),
            None => "Onward".to_owned(),
        }
    }
}

impl Journey {
    /// A run at its first leg with nothing banked.
    pub fn new() -> (r: Self)
        ensures
            r.leg == 1,
            r.banked_gold == 0,
            r.alive,
            r.last_reward == 0,
            r.last_mission_name@ == Seq::<char>::empty(),
            r.payout == 0,
            r.pending_rewards is None,
            r.relics@.len() == 0,
    {
        Journey {
            leg: 1,
            banked_gold: 0,
            alive: true,
            last_reward: 0,
            last_mission_name: String::new(),
            payout: 0,
            pending_rewards: None,
            relics: Vec::new(),
        }
    }

    /// Gold banked for completing leg `leg` (escalates with depth).
    pub fn leg_reward(leg: u32) -> (r: i64)
        ensures
            r == 30 + 22 * leg,
    {
        30 + leg as i64 * 22
    }
}

/// Half of `b`, rounded toward zero.
pub open spec fn half_toward_zero(b: int) -> int {
    if b >= 0 {
        b / 2
    } else {
        -((-b) / 2)
    }
}

fn half(b: i64) -> (r: i64)
    ensures
        r == half_toward_zero(b as int),
{
    b / 2
}

/// Relics of `offer` not yet collected, in offer order.
pub open spec fn uncollected(offer: Seq<Seq<char>>, owned: Seq<Seq<char>>) -> Seq<Seq<char>> {
    offer.filter(|id: Seq<char>| !owned.contains(id))
}

/// Leg number minus one, floored at zero.
pub open spec fn legs_before(leg: u32) -> int {
    if leg >= 1 {
        leg - 1
    } else {
        0
    }
}

impl Journey {
    /// A relic not yet collected this run, picked by leg from `offer` (the
    /// relic identifiers in offer order) so the offer rotates; `None` once
    /// every relic has been collected.
    pub fn next_relic_offer(&self, offer: &Vec<String>) -> (r: Option<String>)
        ensures
            r is None <==> uncollected(id_views(offer@), id_views(self.relics@)).len() == 0,
            r matches Some(id) ==> {
                let avail = uncollected(id_views(offer@), id_views(self.relics@));
                id@ == avail[legs_before(self.leg) % (avail.len() as int)]
            },
    {
        let ghost owned = id_views(self.relics@);
        let ghost pred = |id: Seq<char>| !owned.contains(id);
        let mut available: Vec<String> = Vec::new();
        let mut i: usize = 0;
        while i < offer.len()
            invariant
                i <= offer@.len(),
                owned == id_views(self.relics@),
                pred == (|id: Seq<char>| !owned.contains(id)),
                id_views(available@) == id_views(offer@.take(i as int)).filter(pred),
            decreases offer@.len() - i,
        {
            let ghost before = available@;
            proof {
                assert(offer@.take(i + 1) =~= offer@.take(i as int).push(offer@[i as int]));
                lemma_id_views_push(offer@.take(i as int), offer@[i as int]);
                id_views(offer@.take(i as int)).lemma_filter_push(offer@[i as int]@, pred);
                crate::loadout::lemma_ids_contain_views(self.relics@, offer@[i as int]@);
            }
            if !crate::campaign::contains_id(&self.relics, offer[i].as_str()) {
                available.push(offer[i].clone());
                proof {
                    lemma_id_views_push(before, offer@[i as int]);
                }
            }
            i = i + 1;
        }
        assert(offer@.take(offer@.len() as int) =~= offer@);
        if available.len() == 0 {
            return None;
        }
        let before: usize = if self.leg >= 1 {
            (self.leg - 1) as usize
        } else {
            0
        };
        let k = before % available.len();
        assert(id_views(available@)[k as int] == available@[k as int]@);
        Some(available[k].clone())
    }
}

/// The session after a leg of the expedition ends: a cleared leg offers
/// `choices`; a lost one ends the run and pays half of what was banked.
pub open spec fn leg_resolved(s: GameSession, success: bool, mission_name: String, choices: [LegReward; 3]) -> GameSession {
    match s.journey {
        None => s,
        Some(j) => {
            if success {
                GameSession {
                    journey: Some(Journey { last_mission_name: mission_name, pending_rewards: Some(choices), ..j }),
                    mission_active: false,
                    screen: Screen::Journey,
                    ..s
                }
            } else {
                let payout = half_toward_zero(j.banked_gold as int) as i64;
                GameSession {
                    journey: Some(Journey { last_mission_name: mission_name, alive: false, payout, ..j }),
                    campaign: crate::campaign::CampaignState { gold: (s.campaign.gold + payout) as i64, ..s.campaign },
                    mission_active: false,
                    screen: Screen::Journey,
                    ..s
                }
            }
        },
    }
}

/// The session after cashing out: a surviving run pays everything banked.
pub open spec fn banked_and_returned(s: GameSession) -> GameSession {
    let gold = match s.journey {
        Some(j) => if j.alive {
            s.campaign.gold + j.banked_gold
        } else {
            s.campaign.gold as int
        },
        None => s.campaign.gold as int,
    };
    GameSession {
        journey: None,
        campaign: crate::campaign::CampaignState { gold: gold as i64, ..s.campaign },
        mission_active: false,
        screen: Screen::MissionMap,
        ..s
    }
}

impl GameSession {
    /// Position, in the mission pool sorted by order, of the current leg's
    /// route: the legs cycle through the pool.
    pub fn journey_mission(&self, pool_len: usize) -> (r: Option<usize>)
        requires
            self.journey matches Some(j) ==> j.leg >= 1,
        ensures
            r == match self.journey {
                Some(j) => if pool_len > 0 {
                    Some(((j.leg - 1) % (pool_len as int)) as usize)
                } else {
                    None
                },
                None => None,
            },
    {
        let leg = match &self.journey {
            Some(j) => j.leg,
            None => {
                return None;
            },
        };
        if pool_len == 0 {
            return None;
        }
        Some(((leg - 1) as usize) % pool_len)
    }

    /// Starts the current leg's run: the play screen shows, and the pool
    /// position of its route is handed back to build the run from.
    pub fn begin_journey_leg(&mut self, pool_len: usize) -> (r: Option<usize>)
        requires
            old(self).journey matches Some(j) ==> j.leg >= 1,
        ensures
            r == old(self).journey_mission_spec(pool_len),
            r is None ==> *final(self) == *old(self),
            r is Some ==> *final(self) == (GameSession {
                mission_active: true,
                screen: Screen::Playing,
                result: None,
                ..*old(self)
            }),
    {
        let slot = self.journey_mission(pool_len);
        if slot.is_some() {
            self.mission_active = true;
            self.screen = Screen::Playing;
            self.result = None;
        }
        slot
    }

    pub open spec fn journey_mission_spec(&self, pool_len: usize) -> Option<usize> {
        match self.journey {
            Some(j) => if pool_len > 0 {
                Some(((j.leg - 1) % (pool_len as int)) as usize)
            } else {
                None
            },
            None => None,
        }
    }

    /// Starts a fresh expedition and its first leg.
    pub fn start_journey(&mut self, pool_len: usize) -> (r: Option<usize>)
        ensures
            r == (if pool_len > 0 { Some(0usize) } else { None }),
            final(self).journey matches Some(j) && j.leg == 1 && j.banked_gold == 0 && j.alive && j.last_reward == 0
                && j.last_mission_name@.len() == 0 && j.payout == 0 && j.pending_rewards is None && j.relics@.len() == 0,
            r is Some ==> *final(self) == (GameSession {
                journey: final(self).journey,
                mission_active: true,
                screen: Screen::Playing,
                result: None,
                ..*old(self)
            }),
            r is None ==> *final(self) == (GameSession { journey: final(self).journey, ..*old(self) }),
    {
        self.journey = Some(Journey::new());
        self.begin_journey_leg(pool_len)
    }

    /// Begins the next leg, once the run is alive and no reward awaits a pick.
    pub fn journey_press_on(&mut self, pool_len: usize) -> (r: Option<usize>)
        requires
            old(self).journey matches Some(j) ==> j.leg >= 1,
        ensures
            r == (if old(self).journey matches Some(j) && j.alive && j.pending_rewards is None {
                old(self).journey_mission_spec(pool_len)
            } else {
                None
            }),
            r is None ==> *final(self) == *old(self),
            r is Some ==> *final(self) == (GameSession {
                mission_active: true,
                screen: Screen::Playing,
                result: None,
                ..*old(self)
            }),
    {
        let ready = match &self.journey {
            Some(j) => j.alive && j.pending_rewards.is_none(),
            None => false,
        };
        if ready {
            self.begin_journey_leg(pool_len)
        } else {
            None
        }
    }

    /// Applies the end of a leg to the active expedition: a cleared leg
    /// offers `choices` (advancing waits on a pick); a lost leg ends the run
    /// and pays half of what was banked into the campaign.
    pub fn resolve_journey_leg(&mut self, success: bool, mission_name: String, choices: [LegReward; 3])
        requires
            old(self).journey matches Some(j) ==> i64::MIN <= old(self).campaign.gold + half_toward_zero(
                j.banked_gold as int,
            ) <= i64::MAX,
        ensures
            *final(self) == leg_resolved(*old(self), success, mission_name, choices),
    {
        let banked = match &self.journey {
            Some(j) => j.banked_gold,
            None => {
                return;
            },
        };
        if success {
            match &mut self.journey {
                Some(j) => {
                    j.last_mission_name = mission_name;
                    j.pending_rewards = Some(choices);
                },
                None => {},
            }
        } else {
            let payout = half(banked);
            match &mut self.journey {
                Some(j) => {
                    j.last_mission_name = mission_name;
                    j.alive = false;
                    j.payout = payout;
                },
                None => {},
            }
            self.campaign.gold = self.campaign.gold + payout;
        }
        self.mission_active = false;
        self.screen = Screen::Journey;
    }

    /// Applies pick `index` of the pending rewards and advances to the next
    /// leg. No change when no rewards are pending or the index is out of range.
    pub fn journey_choose_reward(&mut self, index: usize) -> (r: bool)
        requires
            old(self).journey matches Some(j) ==> (j.pending_rewards matches Some(w) ==> (index < 3 ==> (j.leg
                < u32::MAX && i64::MIN <= j.banked_gold + reward_gold(w@[index as int]) <= i64::MAX))),
        ensures
            r == (old(self).journey matches Some(j) && j.pending_rewards is Some && index < 3),
            !r ==> *final(self) == *old(self),
            r ==> match (old(self).journey, final(self).journey) {
                (Some(j), Some(f)) => match j.pending_rewards {
                    Some(w) => rewarded(
                        Journey { pending_rewards: None, leg: (j.leg + 1) as u32, ..j },
                        w@[index as int],
                        f,
                    ),
                    None => false,
                },
                _ => false,
            },
            *final(self) == (GameSession { journey: final(self).journey, ..*old(self) }),
    {
        let taken = self.journey.take();
        let mut j = match taken {
            Some(j) => j,
            None => {
                return false;
            },
        };
        let pending = j.pending_rewards.take();
        let rewards = match pending {
            Some(rewards) => rewards,
            None => {
                self.journey = Some(j);
                return false;
            },
        };
        if index >= 3 {
            j.pending_rewards = Some(rewards);
            self.journey = Some(j);
            return false;
        }
        let mut rewards = rewards;
        let mut pick = LegReward::Bounty(0);
        std::mem::swap(&mut pick, &mut rewards[index]);
        j.leg = j.leg + 1;
        pick.apply(&mut j);
        self.journey = Some(j);
        true
    }

    /// Ends the expedition and returns to the map. A surviving run banks its
    /// full earnings; a lost run's payout was already paid when it ended.
    pub fn journey_bank_and_return(&mut self)
        requires
            old(self).journey matches Some(j) ==> (j.alive ==> i64::MIN <= old(self).campaign.gold + j.banked_gold
                <= i64::MAX),
        ensures
            *final(self) == banked_and_returned(*old(self)),
    {
        let j = self.journey.take();
        match j {
            Some(j) => {
                if j.alive {
                    self.campaign.gold = self.campaign.gold + j.banked_gold;
                }
            },
            None => {},
        }
        self.mission_active = false;
        self.screen = Screen::MissionMap;
    }
}

/// Cashing out a surviving expedition pays everything it banked; losing a
/// leg and then returning pays half of it. Either way the campaign changes
/// in its gold alone: expeditions never touch mission records or loadout.
pub proof fn lemma_expedition_payouts(s: GameSession, mission_name: String, choices: [LegReward; 3])
    requires
        s.journey matches Some(j) && j.alive,
    ensures
        ({
            let j = s.journey->0;
            let kept = banked_and_returned(s);
            let lost = banked_and_returned(leg_resolved(s, false, mission_name, choices));
            &&& kept.campaign.gold == (s.campaign.gold + j.banked_gold) as i64
            &&& lost.campaign.gold == (s.campaign.gold + half_toward_zero(j.banked_gold as int)) as i64
            &&& kept.campaign == (crate::campaign::CampaignState { gold: kept.campaign.gold, ..s.campaign })
            &&& lost.campaign == (crate::campaign::CampaignState { gold: lost.campaign.gold, ..s.campaign })
            &&& kept.journey is None && lost.journey is None
        }),
{
}

/// Clearing a leg never changes the campaign; it only stages the rewards.
pub proof fn lemma_cleared_leg_keeps_campaign(s: GameSession, mission_name: String, choices: [LegReward; 3])
    requires
        s.journey is Some,
    ensures
        leg_resolved(s, true, mission_name, choices).campaign == s.campaign,
        leg_resolved(s, true, mission_name, choices).journey matches Some(f) && f.pending_rewards == Some(choices)
            && f.banked_gold == s.journey->0.banked_gold,
{
}

/// Choosing a reward banks the gold it carries and records that gold as the
/// last reward: a bounty of `g`, provisions with `g` gold and a repair with
/// `g` gold each add `g` to the banked gold; a relic banks nothing, records a
/// last reward of zero and joins the collection.
pub proof fn lemma_reward_banks_its_gold(j: Journey, w: LegReward, f: Journey)
    requires
        rewarded(j, w, f),
    ensures
        w matches LegReward::Bounty(g) ==> f.banked_gold == j.banked_gold + g && f.last_reward == g,
        w matches LegReward::Provisions { gold: g, .. } ==> f.banked_gold == j.banked_gold + g && f.last_reward == g,
        w matches LegReward::Repair { gold: g } ==> f.banked_gold == j.banked_gold + g && f.last_reward == g,
        w matches LegReward::Relic(id) ==> f.banked_gold == j.banked_gold && f.last_reward == 0 && f.relics@
            == j.relics@.push(id),
        f.leg == j.leg && f.alive == j.alive && f.pending_rewards == j.pending_rewards,
{
}

/// Picking reward `index` after a cleared leg moves on to the next leg, clears
/// the offer, and banks the picked reward's gold as `lemma_reward_banks_its_gold`
/// states, here for the offered rewards themselves.
pub proof fn lemma_choice_banks_picked_gold(j: Journey, index: int, f: Journey)
    requires
        j.pending_rewards is Some,
        j.leg < u32::MAX,
        0 <= index < 3,
        rewarded(Journey { pending_rewards: None, leg: (j.leg + 1) as u32, ..j }, j.pending_rewards->0@[index], f),
    ensures
        f.leg == j.leg + 1,
        f.pending_rewards is None,
        ({
            let w = j.pending_rewards->0@[index];
            &&& w matches LegReward::Bounty(g) ==> f.banked_gold == j.banked_gold + g && f.last_reward == g
            &&& w matches LegReward::Provisions { gold: g, .. } ==> f.banked_gold == j.banked_gold + g && f.last_reward == g
            &&& w matches LegReward::Repair { gold: g } ==> f.banked_gold == j.banked_gold + g && f.last_reward == g
            &&& w matches LegReward::Relic(_) ==> f.banked_gold == j.banked_gold && f.last_reward == 0
        }),
{
    lemma_reward_banks_its_gold(
        Journey { pending_rewards: None, leg: (j.leg + 1) as u32, ..j },
        j.pending_rewards->0@[index],
        f,
    );
}

} // verus!
