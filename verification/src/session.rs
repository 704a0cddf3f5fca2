//! The play session: which screen is showing, pending confirmations, and the
//! campaign actions the screens offer (hiring, upgrades, loadout, settings).

use vstd::prelude::*;
use crate::text::str_eq;
use crate::guards::GuardKind;
use crate::campaign::{CampaignState, GameConfig, UpgradeDef, DifficultyPreset, id_views, is_upgrade_track};
use crate::ids::{assign_slot, clear_slot, slot_assigned, slot_cleared, first_or};
use crate::campaign::MissionRecord;
use crate::missions::MissionDef;
use crate::equipment::spec_normalize_equipment;
use crate::journey::Journey;

verus! {

/// The screens of the game.
#[derive(Debug, Clone, Copy, PartialEq, Eq, Structural)]
pub enum Screen {
    Title,
    MissionMap,
    Loadout,
    Shop,
    Carriages,
    Guards,
    Upgrades,
    Settings,
    Playing,
    Paused,
    Results,
    Journey,
    Outfitter,
    Records,
    Codex,
}

/// A destructive action awaiting explicit player confirmation.
#[derive(Debug, Clone, Copy, PartialEq, Eq, Structural)]
pub enum ConfirmPrompt {
    /// Starting a new campaign would overwrite the current autosave.
    NewCampaign,
}

/// Which section of the Field Guide is showing.
#[derive(Debug, Clone, Copy, PartialEq, Eq, Structural)]
pub enum CodexTab {
    Threats,
    Guards,
    Hazards,
}

impl Default for CodexTab {
    fn default() -> (r: Self)
        ensures
            r == CodexTab::Threats,
    {
        CodexTab::Threats
    }
}

/// Gold cost of one Reinforced Kit consumable.
pub const REINFORCED_KIT_COST: i64 = 45;

/// A save file's contents.
#[derive(Debug, Clone)]
pub struct SaveData {
    pub version: String,
    pub campaign: CampaignState,
    pub saved_at: String,
}

/// The session around a campaign. A route run in progress is held by the
/// caller; `mission_active` records whether there is one.
#[derive(Debug)]
pub struct GameSession {
    pub campaign: CampaignState,
    pub screen: Screen,
    pub mission_active: bool,
    /// Active expedition, if one is in progress (session-only).
    pub journey: Option<Journey>,
    pub pending_confirm: Option<ConfirmPrompt>,
    pub codex_tab: CodexTab,
    /// Report of the last finished campaign run, shown on the Results screen
    /// (session-only).
    pub result: Option<RunReport>,
}

impl GameSession {
    pub open spec fn wf(&self) -> bool {
        self.campaign.wf()
    }

    /// A new session on the title screen with a fresh campaign.
    pub fn new(config: &GameConfig, first_mission_id: Option<&str>) -> (r: Self)
        ensures
            r.wf(),
            r.campaign.is_fresh(*config, first_mission_id),
            r.screen == Screen::Title,
            !r.mission_active,
            r.journey is None,
            r.pending_confirm is None,
            r.codex_tab == CodexTab::Threats,
            r.result is None,
    {
        GameSession {
            campaign: CampaignState::new(config, first_mission_id),
            screen: Screen::Title,
            mission_active: false,
            journey: None,
            pending_confirm: None,
            codex_tab: CodexTab::Threats,
            result: None,
        }
    }

    /// A session on the mission map with a loaded campaign, repaired by
    /// `CampaignState::normalize`.
    pub fn from_save(save: SaveData, first_mission_id: Option<&str>) -> (r: Self)
        requires
            save.campaign.wf(),
        ensures
            r.wf(),
            r.campaign.is_normalized_from(save.campaign, first_mission_id),
            r.screen == Screen::MissionMap,
            !r.mission_active,
            r.journey is None,
            r.pending_confirm is None,
            r.codex_tab == CodexTab::Threats,
            r.result is None,
    {
        let mut campaign = save.campaign;
        campaign.normalize(first_mission_id);
        GameSession {
            campaign,
            screen: Screen::MissionMap,
            mission_active: false,
            journey: None,
            pending_confirm: None,
            codex_tab: CodexTab::Threats,
            result: None,
        }
    }

    /// The save file for this session's campaign, stamped with `version`
    /// and the time `saved_at`.
    pub fn to_save(&self, version: &str, saved_at: String) -> (r: SaveData)
        ensures
            r.version@ == version@,
            r.saved_at@ == saved_at@,
            r.campaign.same_contents(&self.campaign),
            r.campaign.wf() == self.campaign.wf(),
    {
        SaveData { version: version.to_owned(), campaign: self.campaign.duplicate(), saved_at }
    }

    /// Begins a New Campaign request: with a save to lose, a confirmation is
    /// staged and `false` returned; otherwise any prompt is cleared and the
    /// caller may proceed (`true`).
    pub fn request_new_campaign(&mut self, save_exists: bool) -> (r: bool)
        ensures
            r == !save_exists,
            final(self).pending_confirm == (if save_exists { Some(ConfirmPrompt::NewCampaign) } else { None }),
            *final(self) == (GameSession { pending_confirm: final(self).pending_confirm, ..*old(self) }),
    {
        if save_exists {
            self.pending_confirm = Some(ConfirmPrompt::NewCampaign);
            false
        } else {
            self.pending_confirm = None;
            true
        }
    }

    /// Dismisses any pending confirmation.
    pub fn cancel_confirm(&mut self)
        ensures
            *final(self) == (GameSession { pending_confirm: None, ..*old(self) }),
    {
        self.pending_confirm = None;
    }
    /// Shows the MissionMap screen, leaving any route run.
    pub fn open_map(&mut self)
        ensures
            *final(self) == (GameSession { screen: Screen::MissionMap, mission_active: false, ..*old(self) }),
    {
        self.screen = Screen::MissionMap;
        self.mission_active = false;
    }
    /// Shows the Loadout screen, leaving any route run.
    pub fn open_loadout(&mut self)
        ensures
            *final(self) == (GameSession { screen: Screen::Loadout, mission_active: false, ..*old(self) }),
    {
        self.screen = Screen::Loadout;
        self.mission_active = false;
    }
    /// Shows the Upgrades screen, leaving any route run.
    pub fn open_upgrades(&mut self)
        ensures
            *final(self) == (GameSession { screen: Screen::Upgrades, mission_active: false, ..*old(self) }),
    {
        self.screen = Screen::Upgrades;
        self.mission_active = false;
    }
    /// Shows the Shop screen, leaving any route run.
    pub fn open_shop(&mut self)
        ensures
            *final(self) == (GameSession { screen: Screen::Shop, mission_active: false, ..*old(self) }),
    {
        self.screen = Screen::Shop;
        self.mission_active = false;
    }
    /// Shows the Carriages screen, leaving any route run.
    pub fn open_carriages(&mut self)
        ensures
            *final(self) == (GameSession { screen: Screen::Carriages, mission_active: false, ..*old(self) }),
    {
        self.screen = Screen::Carriages;
        self.mission_active = false;
    }
    /// Shows the Guards screen, leaving any route run.
    pub fn open_guards(&mut self)
        ensures
            *final(self) == (GameSession { screen: Screen::Guards, mission_active: false, ..*old(self) }),
    {
        self.screen = Screen::Guards;
        self.mission_active = false;
    }
    /// Shows the Settings screen.
    pub fn open_settings(&mut self)
        ensures
            *final(self) == (GameSession { screen: Screen::Settings, ..*old(self) }),
    {
        self.screen = Screen::Settings;
    }
    /// Shows the Outfitter screen.
    pub fn open_outfitter(&mut self)
        ensures
            *final(self) == (GameSession { screen: Screen::Outfitter, ..*old(self) }),
    {
        self.screen = Screen::Outfitter;
    }
    /// Shows the Records screen.
    pub fn open_records(&mut self)
        ensures
            *final(self) == (GameSession { screen: Screen::Records, ..*old(self) }),
    {
        self.screen = Screen::Records;
    }
    /// Shows the Title screen, leaving any route run.
    pub fn return_title(&mut self)
        ensures
            *final(self) == (GameSession { screen: Screen::Title, mission_active: false, ..*old(self) }),
    {
        self.screen = Screen::Title;
        self.mission_active = false;
    }
    /// Shows the Field Guide on its first tab.
    pub fn open_codex(&mut self)
        ensures
            *final(self) == (GameSession { screen: Screen::Codex, codex_tab: CodexTab::Threats, ..*old(self) }),
    {
        self.screen = Screen::Codex;
        self.codex_tab = CodexTab::Threats;
    }

    pub fn set_codex_tab(&mut self, tab: CodexTab)
        ensures
            *final(self) == (GameSession { codex_tab: tab, ..*old(self) }),
    {
        self.codex_tab = tab;
    }

    /// Pauses a route run that is being played.
    pub fn pause_play(&mut self)
        ensures
            *final(self) == (if old(self).screen == Screen::Playing && old(self).mission_active {
                GameSession { screen: Screen::Paused, ..*old(self) }
            } else {
                *old(self)
            }),
    {
        if self.screen == Screen::Playing && self.mission_active {
            self.screen = Screen::Paused;
        }
    }

    /// Returns to the route run, if there is one.
    pub fn resume_play(&mut self)
        ensures
            *final(self) == (if old(self).mission_active {
                GameSession { screen: Screen::Playing, ..*old(self) }
            } else {
                *old(self)
            }),
    {
        if self.mission_active {
            self.screen = Screen::Playing;
        }
    }

    pub fn select_mission(&mut self, id: &str)
        ensures
            final(self).campaign.selected_mission_id@ == id@,
            *final(self) == (GameSession {
                campaign: CampaignState { selected_mission_id: final(self).campaign.selected_mission_id, ..old(self).campaign },
                ..*old(self)
            }),
    {
        self.campaign.selected_mission_id = id.to_owned();
    }
}

/// The session after putting the melee guard `kind` into slot `slot`: the melee
/// selection changes as `slot_assigned` says and the leading guard follows it.
pub open spec fn guard_slot_assigned(before: GameSession, after: GameSession, slot: int, kind: GuardKind) -> bool {
    &&& id_views(after.campaign.selected_guard_ids@) == slot_assigned(
        id_views(before.campaign.selected_guard_ids@),
        slot,
        kind.spec_id(),
    )
    &&& after.campaign.selected_guard_id@ == (if after.campaign.selected_guard_ids@.len() > 0 {
        after.campaign.selected_guard_ids@[0]@
    } else {
        "swordsman"@
    })
    &&& after == (GameSession {
        campaign: CampaignState {
            selected_guard_ids: after.campaign.selected_guard_ids,
            selected_guard_id: after.campaign.selected_guard_id,
            ..before.campaign
        },
        ..before
    })
}

/// The session after putting the ranged guard `kind` into slot `slot`.
pub open spec fn ranged_slot_assigned(before: GameSession, after: GameSession, slot: int, kind: GuardKind) -> bool {
    &&& id_views(after.campaign.selected_ranged_ids@) == slot_assigned(
        id_views(before.campaign.selected_ranged_ids@),
        slot,
        kind.spec_id(),
    )
    &&& after == (GameSession {
        campaign: CampaignState { selected_ranged_ids: after.campaign.selected_ranged_ids, ..before.campaign },
        ..before
    })
}

/// Whether the guard `kind` may go into melee slot `slot`: a melee kind, an
/// existing slot, hired and not recovering.
pub open spec fn guard_assignable(c: CampaignState, slot: int, kind: GuardKind) -> bool {
    !kind.spec_is_ranged() && slot < c.spec_chassis_slot_count() && c.spec_is_guard_available(kind)
}

/// Whether the guard `kind` may go into ranged slot `slot`.
pub open spec fn ranged_assignable(c: CampaignState, slot: int, kind: GuardKind) -> bool {
    kind.spec_is_ranged() && slot < c.spec_ranged_slot_count() && c.spec_is_guard_available(kind)
}

/// The session with the campaign's gold and hired roster replaced.
pub open spec fn with_gold_and_hired(s: GameSession, gold: i64, hired: Vec<String>) -> GameSession {
    GameSession { campaign: CampaignState { gold: gold, hired_guard_ids: hired, ..s.campaign }, ..s }
}

/// The slot a newly hired guard is offered: the next free one, or the last.
pub open spec fn hire_slot(len: nat, slots: int) -> int {
    if len < slots - 1 { len as int } else { slots - 1 }
}

/// `after` is `before` once the guard `kind` is hired: its cost is paid, it
/// joins the roster, and it is offered the next free slot of its selection
/// (or the last slot when all are taken), which it takes when it may serve.
pub open spec fn hire_applied(before: GameSession, after: GameSession, kind: GuardKind) -> bool {
    &&& after.campaign.gold == before.campaign.gold - kind.spec_hire_cost()
    &&& id_views(after.campaign.hired_guard_ids@) == id_views(before.campaign.hired_guard_ids@).push(kind.spec_id())
    &&& {
        let mid = with_gold_and_hired(before, after.campaign.gold, after.campaign.hired_guard_ids);
        if kind.spec_is_ranged() {
            let slot = hire_slot(before.campaign.selected_ranged_ids@.len(), before.campaign.spec_ranged_slot_count());
            if ranged_assignable(mid.campaign, slot, kind) {
                ranged_slot_assigned(mid, after, slot, kind)
            } else {
                after == mid
            }
        } else {
            let slot = hire_slot(before.campaign.selected_guard_ids@.len(), before.campaign.spec_chassis_slot_count());
            if guard_assignable(mid.campaign, slot, kind) {
                guard_slot_assigned(mid, after, slot, kind)
            } else {
                after == mid
            }
        }
    }
}

impl GameSession {
    /// Puts the guard `id` names into melee slot `slot`, when it is a hired,
    /// recovered melee guard and the slot exists; otherwise nothing changes.
    pub fn assign_guard_slot(&mut self, slot: usize, id: &str)
        ensures
            guard_assignable(old(self).campaign, slot as int, GuardKind::spec_from_id(id@)) ==> guard_slot_assigned(
                *old(self),
                *final(self),
                slot as int,
                GuardKind::spec_from_id(id@),
            ),
            !guard_assignable(old(self).campaign, slot as int, GuardKind::spec_from_id(id@)) ==> *final(self)
                == *old(self),
    {
        let kind = GuardKind::from_id(id);
        if kind.is_ranged() || slot >= self.campaign.guard_slot_count() || !self.campaign.is_guard_available(kind) {
            return;
        }
        proof {
            crate::guards::lemma_guard_id_nonempty(kind);
        }
        assign_slot(&mut self.campaign.selected_guard_ids, slot, kind.id());
        self.campaign.selected_guard_id = first_or(&self.campaign.selected_guard_ids, "swordsman");
    }

    /// Empties melee slot `slot`, if there is one; the leading guard follows.
    pub fn clear_guard_slot(&mut self, slot: usize)
        ensures
            id_views(final(self).campaign.selected_guard_ids@) == slot_cleared(
                id_views(old(self).campaign.selected_guard_ids@),
                slot as int,
            ),
            final(self).campaign.selected_guard_id@ == (if final(self).campaign.selected_guard_ids@.len() > 0 {
                final(self).campaign.selected_guard_ids@[0]@
            } else {
                "swordsman"@
            }),
            *final(self) == (GameSession {
                campaign: CampaignState {
                    selected_guard_ids: final(self).campaign.selected_guard_ids,
                    selected_guard_id: final(self).campaign.selected_guard_id,
                    ..old(self).campaign
                },
                ..*old(self)
            }),
    {
        clear_slot(&mut self.campaign.selected_guard_ids, slot);
        self.campaign.selected_guard_id = first_or(&self.campaign.selected_guard_ids, "swordsman");
    }

    /// Puts the guard `id` names into ranged slot `slot`, when it is a hired,
    /// recovered ranged guard and the slot exists; otherwise nothing changes.
    pub fn assign_ranged_slot(&mut self, slot: usize, id: &str)
        ensures
            ranged_assignable(old(self).campaign, slot as int, GuardKind::spec_from_id(id@)) ==> ranged_slot_assigned(
                *old(self),
                *final(self),
                slot as int,
                GuardKind::spec_from_id(id@),
            ),
            !ranged_assignable(old(self).campaign, slot as int, GuardKind::spec_from_id(id@)) ==> *final(self)
                == *old(self),
    {
        let kind = GuardKind::from_id(id);
        if kind.is_melee() || slot >= self.campaign.ranged_slot_count() || !self.campaign.is_guard_available(kind) {
            return;
        }
        proof {
            crate::guards::lemma_guard_id_nonempty(kind);
        }
        assign_slot(&mut self.campaign.selected_ranged_ids, slot, kind.id());
    }

    /// Empties ranged slot `slot`, if there is one.
    pub fn clear_ranged_slot(&mut self, slot: usize)
        ensures
            id_views(final(self).campaign.selected_ranged_ids@) == slot_cleared(
                id_views(old(self).campaign.selected_ranged_ids@),
                slot as int,
            ),
            *final(self) == (GameSession {
                campaign: CampaignState {
                    selected_ranged_ids: final(self).campaign.selected_ranged_ids,
                    ..old(self).campaign
                },
                ..*old(self)
            }),
    {
        clear_slot(&mut self.campaign.selected_ranged_ids, slot);
    }

    /// Makes the guard `id` names the leading melee guard, when it is a melee
    /// kind that is unlocked and hired, and puts it into the first slot.
    pub fn select_guard(&mut self, id: &str)
        ensures
            ({
                let kind = GuardKind::spec_from_id(id@);
                if !kind.spec_is_ranged() && old(self).campaign.spec_is_guard_unlocked(kind)
                    && old(self).campaign.spec_is_guard_hired(kind) {
                    let mid = GameSession {
                        campaign: CampaignState { selected_guard_id: final(self).campaign.selected_guard_id, ..old(self).campaign },
                        ..*old(self)
                    };
                    if guard_assignable(old(self).campaign, 0, kind) {
                        guard_slot_assigned(mid, *final(self), 0, kind)
                    } else {
                        final(self).campaign.selected_guard_id@ == kind.spec_id() && *final(self) == mid
                    }
                } else {
                    *final(self) == *old(self)
                }
            }),
    {
        let kind = GuardKind::from_id(id);
        if kind.is_melee() && self.campaign.is_guard_unlocked(kind) && self.campaign.is_guard_hired(kind) {
            self.campaign.selected_guard_id = kind.id().to_owned();
            self.assign_guard_slot(0, id);
        }
    }

    /// Hires the guard `id` names when it is unlocked, not yet hired and
    /// affordable: pays its cost, adds it to the roster and offers it the next
    /// free slot of its class (or the last slot). Returns whether it hired.
    pub fn hire_guard(&mut self, id: &str) -> (r: bool)
        ensures
            ({
                let kind = GuardKind::spec_from_id(id@);
                &&& r == old(self).campaign.spec_can_hire_guard(kind)
                &&& !r ==> *final(self) == *old(self)
                &&& r ==> hire_applied(*old(self), *final(self), kind)
            }),
    {
        let kind = GuardKind::from_id(id);
        if !self.campaign.can_hire_guard(kind) {
            return false;
        }
        self.campaign.gold = self.campaign.gold - self.campaign.guard_hire_cost(kind);
        let ghost before = self.campaign.hired_guard_ids@;
        self.campaign.hired_guard_ids.push(kind.id().to_owned());
        proof {
            crate::ids::lemma_id_views_push(before, self.campaign.hired_guard_ids@.last());
        }
        if kind.is_ranged() {
            let len = self.campaign.selected_ranged_ids.len();
            let last = self.campaign.ranged_slot_count() - 1;
            let slot = if len < last { len } else { last };
            self.assign_ranged_slot(slot, kind.id());
        } else {
            let len = self.campaign.selected_guard_ids.len();
            let last = self.campaign.guard_slot_count() - 1;
            let slot = if len < last { len } else { last };
            self.assign_guard_slot(slot, kind.id());
        }
        proof {
            crate::guards::lemma_guard_id_round_trip(kind);
        }
        true
    }

    /// Raises the star level of the hired guard `id` names by one, paying the
    /// star cost, when it is below three stars and affordable.
    pub fn upgrade_guard_star(&mut self, id: &str) -> (r: bool)
        ensures
            ({
                let kind = GuardKind::spec_from_id(id@);
                let c = old(self).campaign;
                let cost = kind.spec_star_upgrade_cost(c.spec_guard_star_level(kind));
                &&& r == (c.spec_is_guard_hired(kind) && cost is Some && c.gold >= cost->0)
                &&& !r ==> *final(self) == *old(self)
                &&& r ==> final(self).campaign.gold == c.gold - cost->0
                &&& r ==> final(self).campaign.guard_stars@ == c.guard_stars@.update(
                    kind.spec_position(),
                    (c.spec_guard_star_level(kind) + 1) as u8,
                )
                &&& r ==> *final(self) == (GameSession {
                    campaign: CampaignState {
                        gold: final(self).campaign.gold,
                        guard_stars: final(self).campaign.guard_stars,
                        ..c
                    },
                    ..*old(self)
                })
            }),
    {
        let kind = GuardKind::from_id(id);
        if !self.campaign.is_guard_hired(kind) {
            return false;
        }
        let cost = match self.campaign.guard_star_upgrade_cost(kind) {
            Some(cost) => cost,
            None => return false,
        };
        if self.campaign.gold < cost {
            return false;
        }
        self.campaign.gold = self.campaign.gold - cost;
        let next: u8 = self.campaign.guard_star_level(kind) + 1;
        let pos = kind.position();
        self.campaign.guard_stars[pos] = if next < 3 { next } else { 3 };
        assert(self.campaign.guard_stars@ =~= old(self).campaign.guard_stars@.update(
            kind.spec_position(),
            (old(self).campaign.spec_guard_star_level(kind) + 1) as u8,
        ));
        true
    }

    /// Pays to clear an injured guard's recovery at once, when it is
    /// recovering and the treatment is affordable.
    pub fn treat_guard(&mut self, id: &str) -> (r: bool)
        ensures
            ({
                let kind = GuardKind::spec_from_id(id@);
                let c = old(self).campaign;
                let cost = c.spec_guard_treat_cost(kind);
                let recovery = c.guard_recovery@[kind.spec_position()];
                let price = 30 + kind.spec_hire_cost() / 5 + 15 * recovery;
                &&& r == (recovery > 0 && c.gold >= price)
                &&& r ==> final(self).campaign.gold == c.gold - price
                &&& r == (cost is Some && c.gold >= cost->0)
                &&& !r ==> *final(self) == *old(self)
                &&& r ==> final(self).campaign.gold == c.gold - cost->0
                &&& r ==> final(self).campaign.guard_recovery@ == c.guard_recovery@.update(kind.spec_position(), 0u32)
                &&& r ==> *final(self) == (GameSession {
                    campaign: CampaignState {
                        gold: final(self).campaign.gold,
                        guard_recovery: final(self).campaign.guard_recovery,
                        ..c
                    },
                    ..*old(self)
                })
            }),
    {
        let kind = GuardKind::from_id(id);
        let cost = match self.campaign.guard_treat_cost(kind) {
            Some(cost) => cost,
            None => return false,
        };
        if self.campaign.gold < cost {
            return false;
        }
        self.campaign.gold = self.campaign.gold - cost;
        let pos = kind.position();
        self.campaign.guard_recovery[pos] = 0;
        assert(self.campaign.guard_recovery@ =~= old(self).campaign.guard_recovery@.update(kind.spec_position(), 0u32));
        true
    }
}

/// How a run's reward was earned, part by part.
#[derive(Debug, Clone, Copy, Default, PartialEq, Eq, Structural)]
pub struct RewardBreakdown {
    pub contract: i64,
    pub stars: i64,
    pub cargo: i64,
    pub special: i64,
    pub threats: i64,
    pub bonus_objective: i64,
}

impl RewardBreakdown {
    pub open spec fn spec_total(self) -> int {
        self.contract + self.stars + self.cargo + self.special + self.threats + self.bonus_objective
    }

    /// Sum of the parts; each running sum fits in an `i64`.
    pub fn total(self) -> (r: i64)
        requires
            i64::MIN <= self.contract + self.stars <= i64::MAX,
            i64::MIN <= self.contract + self.stars + self.cargo <= i64::MAX,
            i64::MIN <= self.contract + self.stars + self.cargo + self.special <= i64::MAX,
            i64::MIN <= self.contract + self.stars + self.cargo + self.special + self.threats <= i64::MAX,
            i64::MIN <= self.spec_total() <= i64::MAX,
        ensures
            r == self.spec_total(),
    {
        self.contract + self.stars + self.cargo + self.special + self.threats + self.bonus_objective
    }
}

/// What a finished route run reports to the campaign.
#[derive(Debug)]
pub struct RunReport {
    pub mission_id: String,
    pub success: bool,
    pub stars: u8,
    pub score: i64,
    pub reward: i64,
    /// Gold lost to repairs and spoiled cargo when a run fails.
    pub gold_penalty: i64,
    /// Kinds (by identifier) of the guards that fell during the run.
    pub injured_guard_ids: Vec<String>,
}

impl RunReport {
    /// The two reports tell of the same run.
    pub open spec fn same_contents(&self, other: &RunReport) -> bool {
        &&& self.mission_id == other.mission_id
        &&& self.success == other.success
        &&& self.stars == other.stars
        &&& self.score == other.score
        &&& self.reward == other.reward
        &&& self.gold_penalty == other.gold_penalty
        &&& self.injured_guard_ids@ == other.injured_guard_ids@
    }

    /// A copy of this report.
    pub(crate) fn duplicate(&self) -> (r: Self)
        ensures
            r.same_contents(self),
    {
        RunReport {
            mission_id: self.mission_id.clone(),
            success: self.success,
            stars: self.stars,
            score: self.score,
            reward: self.reward,
            gold_penalty: self.gold_penalty,
            injured_guard_ids: crate::campaign::copy_ids(&self.injured_guard_ids),
        }
    }
}

/// `after` is `before` with `report` applied, as `apply_report` does it.
pub open spec fn report_applied(before: GameSession, after: GameSession, report: RunReport) -> bool {
    &&& after.campaign.gold == max_of(
        before.campaign.gold + report.reward - report.gold_penalty,
        0,
    )
    &&& forall|k: GuardKind| #[trigger] after.campaign.guard_recovery@[k.spec_position()] == recovery_after(
        before.campaign.guard_recovery@[k.spec_position()],
        names_kind(report.injured_guard_ids@, k) && before.campaign.spec_is_guard_hired(k),
        report.success,
    )
    &&& after.campaign.records@ == (if report.success {
        before.campaign.records@.insert(
            report.mission_id@,
            record_after_success(
                if before.campaign.records@.contains_key(report.mission_id@) {
                    Some(before.campaign.records@[report.mission_id@])
                } else {
                    None
                },
                report,
            ),
        )
    } else {
        before.campaign.records@
    })
    &&& after == (GameSession {
        campaign: CampaignState {
            gold: after.campaign.gold,
            guard_recovery: after.campaign.guard_recovery,
            records: after.campaign.records,
            ..before.campaign
        },
        ..before
    })
}

/// Larger of two values.
pub open spec fn max_of(a: int, b: int) -> int {
    if a >= b { a } else { b }
}

/// A mission's record after one more successful run.
pub open spec fn record_after_success(previous: Option<MissionRecord>, report: RunReport) -> MissionRecord {
    let base = match previous {
        Some(r) => r,
        None => MissionRecord { best_stars: 0, best_score: 0, best_reward: 0, completions: 0 },
    };
    MissionRecord {
        completions: (base.completions + 1) as u32,
        best_stars: max_of(base.best_stars as int, report.stars as int) as u8,
        best_score: max_of(base.best_score as int, report.score as int) as i64,
        best_reward: max_of(base.best_reward as int, report.reward as int) as i64,
    }
}

/// Whether some identifier in `ids` names the kind `k`.
pub open spec fn names_kind(ids: Seq<String>, k: GuardKind) -> bool {
    exists|i: int| 0 <= i < ids.len() && GuardKind::spec_from_id(#[trigger] ids[i]@) == k
}

/// Recovery turns of a kind after a run: benched for two missions after a
/// success and three after a failure when it fell and is hired, else one
/// mission closer to recovered.
pub open spec fn recovery_after(turns: u32, fell_and_hired: bool, success: bool) -> u32 {
    if fell_and_hired {
        if success { 2 } else { 3 }
    } else if turns > 0 {
        (turns - 1) as u32
    } else {
        0
    }
}

/// Index of the first mission in `missions` with identifier `id`.
pub open spec fn first_mission_index(missions: Seq<MissionDef>, id: Seq<char>) -> Option<int>
    decreases missions.len(),
{
    if missions.len() == 0 {
        None
    } else if missions[0].id@ == id {
        Some(0)
    } else {
        match first_mission_index(missions.drop_first(), id) {
            Some(i) => Some(i + 1),
            None => None,
        }
    }
}

pub proof fn lemma_first_mission_index(missions: Seq<MissionDef>, id: Seq<char>)
    ensures
        match first_mission_index(missions, id) {
            Some(i) => 0 <= i < missions.len() && missions[i].id@ == id && forall|j: int|
                0 <= j < i ==> #[trigger] missions[j].id@ != id,
            None => forall|j: int| 0 <= j < missions.len() ==> #[trigger] missions[j].id@ != id,
        },
    decreases missions.len(),
{
    if missions.len() > 0 {
        lemma_first_mission_index(missions.drop_first(), id);
        assert forall|j: int| 1 <= j < missions.len() implies missions[j] == missions.drop_first()[j - 1] by {}
    }
}

/// The mission with identifier `id` in the content list, if any.
pub fn find_mission<'a>(missions: &'a Vec<MissionDef>, id: &str) -> (r: Option<&'a MissionDef>)
    ensures
        match first_mission_index(missions@, id@) {
            Some(i) => r == Some(&missions@[i]),
            None => r is None,
        },
{
    proof {
        lemma_first_mission_index(missions@, id@);
    }
    let mut i: usize = 0;
    while i < missions.len()
        invariant
            i <= missions@.len(),
            forall|j: int| 0 <= j < i ==> #[trigger] missions@[j].id@ != id@,
        decreases missions@.len() - i,
    {
        if str_eq(missions[i].id.as_str(), id) {
            proof {
                lemma_first_mission_index(missions@, id@);
                match first_mission_index(missions@, id@) {
                    Some(k) => {
                        if k < i {
                            assert(missions@[k].id@ != id@);
                        }
                        if (i as int) < k {
                            assert(missions@[i as int].id@ != id@);
                        }
                    },
                    None => {
                        assert(missions@[i as int].id@ != id@);
                    },
                }
            }
            return Some(&missions[i]);
        }
        i = i + 1;
    }
    None
}

/// Whether a campaign toggle is on; `false` for an unknown toggle.
pub open spec fn spec_setting_enabled(c: CampaignState, id: Seq<char>) -> bool {
    if id == "route_motion"@ {
        c.route_motion_enabled
    } else if id == "alerts"@ {
        c.alerts_enabled
    } else if id == "auto_save"@ {
        c.auto_save_enabled
    } else if id == "generous_timers"@ {
        c.generous_timers
    } else if id == "slower_waves"@ {
        c.slower_waves
    } else if id == "sturdy_carriage"@ {
        c.sturdy_carriage
    } else {
        false
    }
}

/// Whether `id` names a campaign toggle.
pub open spec fn is_setting(id: Seq<char>) -> bool {
    id == "route_motion"@ || id == "alerts"@ || id == "auto_save"@ || id == "generous_timers"@ || id
        == "slower_waves"@ || id == "sturdy_carriage"@
}

/// The campaign with the toggle `id` flipped (unchanged for an unknown toggle).
pub open spec fn setting_toggled(c: CampaignState, id: Seq<char>) -> CampaignState {
    if id == "route_motion"@ {
        CampaignState { route_motion_enabled: !c.route_motion_enabled, ..c }
    } else if id == "alerts"@ {
        CampaignState { alerts_enabled: !c.alerts_enabled, ..c }
    } else if id == "auto_save"@ {
        CampaignState { auto_save_enabled: !c.auto_save_enabled, ..c }
    } else if id == "generous_timers"@ {
        CampaignState { generous_timers: !c.generous_timers, ..c }
    } else if id == "slower_waves"@ {
        CampaignState { slower_waves: !c.slower_waves, ..c }
    } else if id == "sturdy_carriage"@ {
        CampaignState { sturdy_carriage: !c.sturdy_carriage, ..c }
    } else {
        c
    }
}

/// The campaign with one more level on the upgrade track `id` (unchanged for
/// an unknown track).
pub open spec fn upgrade_added(c: CampaignState, id: Seq<char>) -> CampaignState {
    if id == "carriage_armor"@ {
        CampaignState { carriage_level: (c.carriage_level + 1) as u32, ..c }
    } else if id == "guard_training"@ {
        CampaignState { guard_level: (c.guard_level + 1) as u32, ..c }
    } else if id == "mounted_archer"@ {
        CampaignState { archer_level: (c.archer_level + 1) as u32, ..c }
    } else if id == "reinforced_wheels"@ {
        CampaignState { wheel_level: (c.wheel_level + 1) as u32, ..c }
    } else if id == "cargo_straps"@ {
        CampaignState { cargo_level: (c.cargo_level + 1) as u32, ..c }
    } else if id == "repair_kit"@ {
        CampaignState { repair_level: (c.repair_level + 1) as u32, ..c }
    } else if id == "spiked_hubs"@ {
        CampaignState { hubs_level: (c.hubs_level + 1) as u32, ..c }
    } else if id == "warding_lantern"@ {
        CampaignState { lantern_level: (c.lantern_level + 1) as u32, ..c }
    } else {
        c
    }
}

impl CampaignState {
    fn add_upgrade_level(&mut self, id: &str)
        requires
            old(self).spec_upgrade_level(id@) < u32::MAX,
        ensures
            *final(self) == upgrade_added(*old(self), id@),
    {
        if str_eq(id, "carriage_armor") {
            self.carriage_level = self.carriage_level + 1;
        } else if str_eq(id, "guard_training") {
            self.guard_level = self.guard_level + 1;
        } else if str_eq(id, "mounted_archer") {
            self.archer_level = self.archer_level + 1;
        } else if str_eq(id, "reinforced_wheels") {
            self.wheel_level = self.wheel_level + 1;
        } else if str_eq(id, "cargo_straps") {
            self.cargo_level = self.cargo_level + 1;
        } else if str_eq(id, "repair_kit") {
            self.repair_level = self.repair_level + 1;
        } else if str_eq(id, "spiked_hubs") {
            self.hubs_level = self.hubs_level + 1;
        } else if str_eq(id, "warding_lantern") {
            self.lantern_level = self.lantern_level + 1;
        }
    }
}

impl GameSession {
    /// Flips the campaign toggle `id`; returns whether `id` names one.
    pub fn toggle_setting(&mut self, id: &str) -> (r: bool)
        ensures
            r == is_setting(id@),
            *final(self) == (GameSession { campaign: setting_toggled(old(self).campaign, id@), ..*old(self) }),
    {
        if str_eq(id, "route_motion") {
            self.campaign.route_motion_enabled = !self.campaign.route_motion_enabled;
        } else if str_eq(id, "alerts") {
            self.campaign.alerts_enabled = !self.campaign.alerts_enabled;
        } else if str_eq(id, "auto_save") {
            self.campaign.auto_save_enabled = !self.campaign.auto_save_enabled;
        } else if str_eq(id, "generous_timers") {
            self.campaign.generous_timers = !self.campaign.generous_timers;
        } else if str_eq(id, "slower_waves") {
            self.campaign.slower_waves = !self.campaign.slower_waves;
        } else if str_eq(id, "sturdy_carriage") {
            self.campaign.sturdy_carriage = !self.campaign.sturdy_carriage;
        } else {
            return false;
        }
        true
    }

    /// `on` or `off` for the campaign toggle `id` (`off` for an unknown one).
    pub fn setting_value(&self, id: &str) -> (r: &'static str)
        ensures
            r@ == (if spec_setting_enabled(self.campaign, id@) { "on"@ } else { "off"@ }),
    {
        let enabled = if str_eq(id, "route_motion") {
            self.campaign.route_motion_enabled
        } else if str_eq(id, "alerts") {
            self.campaign.alerts_enabled
        } else if str_eq(id, "auto_save") {
            self.campaign.auto_save_enabled
        } else if str_eq(id, "generous_timers") {
            self.campaign.generous_timers
        } else if str_eq(id, "slower_waves") {
            self.campaign.slower_waves
        } else if str_eq(id, "sturdy_carriage") {
            self.campaign.sturdy_carriage
        } else {
            false
        };
        if enabled {
            "on"
        } else {
            "off"
        }
    }

    /// Sets the difficulty preset `id` names; returns whether it changed.
    pub fn set_difficulty(&mut self, id: &str) -> (r: bool)
        ensures
            r == (DifficultyPreset::spec_from_id(id@) != old(self).campaign.difficulty_preset),
            *final(self) == (GameSession {
                campaign: CampaignState { difficulty_preset: DifficultyPreset::spec_from_id(id@), ..old(self).campaign },
                ..*old(self)
            }),
    {
        let preset = DifficultyPreset::from_id(id);
        if preset == self.campaign.difficulty_preset {
            return false;
        }
        self.campaign.difficulty_preset = preset;
        true
    }

    /// Buys the next level of `upgrade` when the track is below its maximum
    /// and the cost is affordable: pays, raises the level, and re-fits the
    /// equipment selection. Returns whether it bought.
    #[verifier::rlimit(80)]
    pub fn buy_upgrade(&mut self, upgrade: &UpgradeDef) -> (r: bool)
        requires
            old(self).campaign.spec_upgrade_level(upgrade.id@) < upgrade.max_level ==> i64::MIN
                <= upgrade.base_cost * (old(self).campaign.spec_upgrade_level(upgrade.id@) + 1) <= i64::MAX,
            old(self).campaign.spec_upgrade_cost(upgrade) is Some ==> old(self).campaign.gold
                - old(self).campaign.spec_upgrade_cost(upgrade)->0 <= i64::MAX,
        ensures
            ({
                let c = old(self).campaign;
                let cost = c.spec_upgrade_cost(upgrade);
                let level = c.spec_upgrade_level(upgrade.id@);
                let price = upgrade.base_cost * (level + 1);
                &&& r == (level < upgrade.max_level && c.gold >= price)
                &&& r ==> final(self).campaign.gold == c.gold - price
                &&& r && is_upgrade_track(upgrade.id@) ==> final(self).campaign.spec_upgrade_level(upgrade.id@)
                    == level + 1
                &&& r ==> forall|t: Seq<char>|
                    t != upgrade.id@ ==> #[trigger] final(self).campaign.spec_upgrade_level(t) == c.spec_upgrade_level(t)
                &&& r == (cost is Some && c.gold >= cost->0)
                &&& !r ==> *final(self) == *old(self)
                &&& r ==> {
                    let raised = upgrade_added(CampaignState { gold: (c.gold - cost->0) as i64, ..c }, upgrade.id@);
                    &&& id_views(final(self).campaign.selected_equipment_ids@) == spec_normalize_equipment(
                        raised.equipment_levels(),
                        id_views(c.selected_equipment_ids@) + seq!["carriage_armor"@],
                        raised.spec_equipment_slot_count() as nat,
                        Seq::empty(),
                    )
                    &&& *final(self) == (GameSession {
                        campaign: CampaignState {
                            selected_equipment_ids: final(self).campaign.selected_equipment_ids,
                            ..raised
                        },
                        ..*old(self)
                    })
                }
            }),
    {
        let cost = match self.campaign.upgrade_cost(upgrade) {
            Some(cost) => cost,
            None => return false,
        };
        if self.campaign.gold < cost {
            return false;
        }
        let ghost paid = CampaignState { gold: (self.campaign.gold - cost) as i64, ..self.campaign };
        proof {
            lemma_upgrade_raises_one_track(paid, upgrade.id@);
        }
        self.campaign.gold = self.campaign.gold - cost;
        self.campaign.add_upgrade_level(upgrade.id.as_str());
        self.campaign.normalize_equipment();
        proof {
            lemma_levels_agree(self.campaign, upgrade_added(paid, upgrade.id@));
        }
        true
    }

    /// Buys one Reinforced Kit when the player has the gold for it.
    pub fn buy_reinforced_kit(&mut self) -> (r: bool)
        requires
            old(self).campaign.reinforced_kits < u32::MAX,
        ensures
            r == (old(self).campaign.gold >= REINFORCED_KIT_COST),
            !r ==> *final(self) == *old(self),
            r ==> *final(self) == (GameSession {
                campaign: CampaignState {
                    gold: (old(self).campaign.gold - REINFORCED_KIT_COST) as i64,
                    reinforced_kits: (old(self).campaign.reinforced_kits + 1) as u32,
                    ..old(self).campaign
                },
                ..*old(self)
            }),
    {
        if self.campaign.gold < REINFORCED_KIT_COST {
            return false;
        }
        self.campaign.gold = self.campaign.gold - REINFORCED_KIT_COST;
        self.campaign.reinforced_kits = self.campaign.reinforced_kits + 1;
        true
    }

    /// Selects the route `route_id` on the selected mission, when the mission
    /// exists in `missions` and has that route.
    pub fn select_route_choice(&mut self, missions: &Vec<MissionDef>, route_id: &str) -> (r: bool)
        requires
            old(self).wf(),
        ensures
            final(self).wf(),
            match first_mission_index(missions@, old(self).campaign.selected_mission_id@) {
                None => !r && *final(self) == *old(self),
                Some(i) => {
                    let m = missions@[i];
                    &&& r == exists|j: int| 0 <= j < m.route_choices@.len() && m.route_choices@[j].id@ == route_id@
                    &&& r ==> final(self).campaign.selected_route_choices@ == old(self).campaign.selected_route_choices@.insert(
                        m.id@,
                        final(self).campaign.selected_route_choices@[m.id@],
                    )
                    &&& r ==> final(self).campaign.selected_route_choices@[m.id@]@ == route_id@
                    &&& *final(self) == (GameSession {
                        campaign: CampaignState {
                            selected_route_choices: final(self).campaign.selected_route_choices,
                            ..old(self).campaign
                        },
                        ..*old(self)
                    })
                    &&& !r ==> *final(self) == *old(self)
                },
            },
    {
        match find_mission(missions, self.campaign.selected_mission_id.as_str()) {
            Some(mission) => self.campaign.select_route_choice(mission, route_id),
            None => false,
        }
    }

    /// Starts the selected mission when it exists in `missions` and is
    /// unlocked: a Reinforced Kit in stock is spent on the run, and play
    /// begins. Returns whether the run started.
    pub fn start_selected_mission(&mut self, missions: &Vec<MissionDef>) -> (r: bool)
        requires
            old(self).wf(),
        ensures
            r == match first_mission_index(missions@, old(self).campaign.selected_mission_id@) {
                Some(i) => old(self).campaign.spec_is_mission_unlocked(missions@[i]),
                None => false,
            },
            !r ==> *final(self) == *old(self),
            r ==> *final(self) == (GameSession {
                campaign: CampaignState {
                    reinforced_kits: if old(self).campaign.reinforced_kits > 0 {
                        (old(self).campaign.reinforced_kits - 1) as u32
                    } else {
                        0
                    },
                    ..old(self).campaign
                },
                mission_active: true,
                screen: Screen::Playing,
                result: None,
                ..*old(self)
            }),
    {
        let mission = match find_mission(missions, self.campaign.selected_mission_id.as_str()) {
            Some(mission) => mission,
            None => return false,
        };
        if !self.campaign.is_mission_unlocked(mission) {
            return false;
        }
        if self.campaign.reinforced_kits > 0 {
            self.campaign.reinforced_kits = self.campaign.reinforced_kits - 1;
        }
        self.mission_active = true;
        self.screen = Screen::Playing;
        self.result = None;
        true
    }

    /// Restarts the mission of the last result, if there is one: it becomes
    /// the selected mission, which then starts as `start_selected_mission` does.
    pub fn retry_result_mission(&mut self, missions: &Vec<MissionDef>) -> (r: bool)
        requires
            old(self).wf(),
        ensures
            match old(self).result {
                None => !r && *final(self) == *old(self),
                Some(last) => {
                    let staged = GameSession {
                        campaign: CampaignState { selected_mission_id: last.mission_id, ..old(self).campaign },
                        ..*old(self)
                    };
                    &&& r == match first_mission_index(missions@, last.mission_id@) {
                        Some(i) => old(self).campaign.spec_is_mission_unlocked(missions@[i]),
                        None => false,
                    }
                    &&& !r ==> *final(self) == staged
                    &&& r ==> *final(self) == (GameSession {
                        campaign: CampaignState {
                            reinforced_kits: if old(self).campaign.reinforced_kits > 0 {
                                (old(self).campaign.reinforced_kits - 1) as u32
                            } else {
                                0
                            },
                            ..staged.campaign
                        },
                        mission_active: true,
                        screen: Screen::Playing,
                        result: None,
                        ..staged
                    })
                },
            },
    {
        let id = match &self.result {
            Some(last) => last.mission_id.clone(),
            None => return false,
        };
        self.campaign.selected_mission_id = id;
        self.start_selected_mission(missions)
    }

    /// Folds a finished campaign run into the campaign: recovering guards move
    /// one mission closer to duty, gold changes by reward minus penalty (never
    /// below zero), fallen hired guards are benched, and a success counts
    /// toward the mission's record.
    pub fn apply_report(&mut self, report: RunReport)
        requires
            old(self).wf(),
            i64::MIN <= old(self).campaign.gold + report.reward <= i64::MAX,
            i64::MIN <= old(self).campaign.gold + report.reward - report.gold_penalty <= i64::MAX,
            report.success && old(self).campaign.records@.contains_key(report.mission_id@)
                ==> old(self).campaign.records@[report.mission_id@].completions < u32::MAX,
        ensures
            final(self).wf(),
            report_applied(*old(self), *final(self), report),
    {
        self.advance_guard_recovery();
        let total: i64 = self.campaign.gold + report.reward - report.gold_penalty;
        self.campaign.gold = if total > 0 { total } else { 0 };
        let turns: u32 = if report.success { 2 } else { 3 };
        let mut recovery = self.campaign.guard_recovery;
        let mut i: usize = 0;
        while i < report.injured_guard_ids.len()
            invariant
                i <= report.injured_guard_ids@.len(),
                turns == (if report.success { 2u32 } else { 3u32 }),
                forall|k: GuardKind| #[trigger] recovery@[k.spec_position()] == if names_kind(
                    report.injured_guard_ids@.take(i as int),
                    k,
                ) && self.campaign.spec_is_guard_hired(k) {
                    turns
                } else {
                    self.campaign.guard_recovery@[k.spec_position()]
                },
            decreases report.injured_guard_ids@.len() - i,
        {
            let kind = GuardKind::from_id(report.injured_guard_ids[i].as_str());
            proof {
                let ids = report.injured_guard_ids@;
                assert(ids.take(i + 1) =~= ids.take(i as int).push(ids[i as int]));
                assert forall|k: GuardKind| names_kind(ids.take(i + 1), k) == (names_kind(ids.take(i as int), k)
                    || GuardKind::spec_from_id(ids[i as int]@) == k) by {
                    if names_kind(ids.take(i + 1), k) {
                        let j = choose|j: int| 0 <= j < ids.take(i + 1).len() && GuardKind::spec_from_id(
                            #[trigger] ids.take(i + 1)[j]@,
                        ) == k;
                        if j < i {
                            assert(ids.take(i as int)[j] == ids.take(i + 1)[j]);
                        }
                    }
                    if names_kind(ids.take(i as int), k) {
                        let j = choose|j: int| 0 <= j < ids.take(i as int).len() && GuardKind::spec_from_id(
                            #[trigger] ids.take(i as int)[j]@,
                        ) == k;
                        assert(ids.take(i + 1)[j] == ids.take(i as int)[j]);
                    }
                    if GuardKind::spec_from_id(ids[i as int]@) == k {
                        assert(ids.take(i + 1)[i as int] == ids[i as int]);
                    }
                }
                crate::guards::lemma_guard_index(kind);
            }
            if self.campaign.is_guard_hired(kind) {
                recovery[kind.position()] = turns;
                proof {
                    assert forall|k: GuardKind| k.spec_position() == kind.spec_position() implies k == kind by {}
                }
            }
            i = i + 1;
        }
        proof {
            assert(report.injured_guard_ids@.take(report.injured_guard_ids@.len() as int) =~= report.injured_guard_ids@);
        }
        self.campaign.guard_recovery = recovery;
        if report.success {
            let previous = match self.campaign.records.get(report.mission_id.as_str()) {
                Some(record) => *record,
                None => MissionRecord { best_stars: 0, best_score: 0, best_reward: 0, completions: 0 },
            };
            let updated = MissionRecord {
                completions: previous.completions + 1,
                best_stars: if report.stars > previous.best_stars { report.stars } else { previous.best_stars },
                best_score: if report.score > previous.best_score { report.score } else { previous.best_score },
                best_reward: if report.reward > previous.best_reward { report.reward } else { previous.best_reward },
            };
            self.campaign.records.insert(report.mission_id.clone(), updated);
        }
    }

    /// Every recovering guard is one mission closer to duty.
    fn advance_guard_recovery(&mut self)
        ensures
            forall|k: GuardKind| #[trigger] final(self).campaign.guard_recovery@[k.spec_position()] == recovery_after(
                old(self).campaign.guard_recovery@[k.spec_position()],
                false,
                true,
            ),
            *final(self) == (GameSession {
                campaign: CampaignState { guard_recovery: final(self).campaign.guard_recovery, ..old(self).campaign },
                ..*old(self)
            }),
    {
        let mut recovery = self.campaign.guard_recovery;
        let mut i: usize = 0;
        while i < 6
            invariant
                i <= 6,
                forall|p: int| 0 <= p < i ==> #[trigger] recovery@[p] == recovery_after(old(self).campaign.guard_recovery@[p], false, true),
                forall|p: int| i <= p < 6 ==> #[trigger] recovery@[p] == old(self).campaign.guard_recovery@[p],
            decreases 6 - i,
        {
            if recovery[i] > 0 {
                recovery[i] = recovery[i] - 1;
            }
            i = i + 1;
        }
        proof {
            assert forall|k: GuardKind| #[trigger] recovery@[k.spec_position()] == recovery_after(
                old(self).campaign.guard_recovery@[k.spec_position()],
                false,
                true,
            ) by {
                crate::guards::lemma_guard_index(k);
            }
        }
        self.campaign.guard_recovery = recovery;
    }
}

/// A successful run marks its mission completed and keeps every other
/// mission's record as it was, so (by `lemma_unlock_is_monotone`) it never
/// locks a mission.
pub proof fn lemma_success_completes_mission(records: Map<Seq<char>, MissionRecord>, report: RunReport)
    requires
        report.success,
        records.contains_key(report.mission_id@) ==> records[report.mission_id@].completions < u32::MAX,
    ensures
        ({
            let after = records.insert(
                report.mission_id@,
                record_after_success(
                    if records.contains_key(report.mission_id@) {
                        Some(records[report.mission_id@])
                    } else {
                        None
                    },
                    report,
                ),
            );
            &&& after[report.mission_id@].completions > 0
            &&& forall|id: Seq<char>| id != report.mission_id@ && #[trigger] records.contains_key(id) ==> after.contains_key(id)
                && after[id] == records[id]
        }),
{
}

/// A mission's record only ever improves: after a successful run each best
/// is at least the previous best and at least what the run achieved, and the
/// completion count grows by one.
pub proof fn lemma_records_keep_bests(previous: MissionRecord, report: RunReport)
    requires
        previous.completions < u32::MAX,
    ensures
        ({
            let after = record_after_success(Some(previous), report);
            &&& after.completions == previous.completions + 1
            &&& after.best_stars >= previous.best_stars && after.best_stars >= report.stars
            &&& after.best_score >= previous.best_score && after.best_score >= report.score
            &&& after.best_reward >= previous.best_reward && after.best_reward >= report.reward
        }),
{
}

/// Putting a melee guard into a slot: afterwards the melee selection has no
/// empty entries, holds the guard exactly once at or before the slot, keeps
/// the other guards in their order (less the one overwritten), and the
/// leading guard is the first of the selection.
pub proof fn lemma_guard_slot_law(before: GameSession, after: GameSession, slot: int, kind: GuardKind)
    requires
        0 <= slot,
        guard_slot_assigned(before, after, slot, kind),
    ensures
        ({
            let r = id_views(after.campaign.selected_guard_ids@);
            let kept = crate::ids::drop_id(id_views(before.campaign.selected_guard_ids@), kind.spec_id());
            &&& forall|i: int| 0 <= i < r.len() ==> (#[trigger] r[i]).len() > 0
            &&& exists|p: int|
                0 <= p <= slot && p < r.len() && r[p] == kind.spec_id() && forall|i: int|
                    0 <= i < r.len() && i != p ==> #[trigger] r[i] != kind.spec_id()
            &&& crate::ids::drop_id(r, kind.spec_id()) == (if slot < kept.len() {
                crate::ids::drop_empty(kept.remove(slot))
            } else {
                crate::ids::drop_empty(kept)
            })
            &&& after.campaign.selected_guard_ids@.len() > 0
            &&& after.campaign.selected_guard_id@ == after.campaign.selected_guard_ids@[0]@
        }),
{
    crate::guards::lemma_guard_id_nonempty(kind);
    crate::ids::lemma_slot_assigned_places_once(id_views(before.campaign.selected_guard_ids@), slot, kind.spec_id());
    assert(id_views(after.campaign.selected_guard_ids@).len() == after.campaign.selected_guard_ids@.len());
}

/// Saving a repaired campaign and loading the save gives the same campaign
/// back: the loaded campaign `loaded` (repaired from the save's campaign
/// `saved`) holds the same contents as the campaign `kept` that was saved,
/// when `kept` is itself the repair of some campaign `earlier`.
pub proof fn lemma_save_then_load_round_trip(
    earlier: CampaignState,
    kept: CampaignState,
    saved: CampaignState,
    loaded: CampaignState,
    first_mission_id: Option<&str>,
)
    requires
        kept.is_normalized_from(earlier, first_mission_id),
        saved.same_contents(&kept),
        loaded.is_normalized_from(saved, first_mission_id),
    ensures
        loaded.same_contents(&kept),
{
    // The repair reads the saved roster through which kinds it names.
    assert forall|x: Seq<char>| #[trigger] crate::campaign::ids_contain(saved.hired_guard_ids@, x)
        == crate::campaign::ids_contain(kept.hired_guard_ids@, x) by {
        crate::loadout::lemma_ids_contain_views(saved.hired_guard_ids@, x);
        crate::loadout::lemma_ids_contain_views(kept.hired_guard_ids@, x);
    }
    assert(crate::roster::spec_normalized_hired(saved.hired_guard_ids@)
        == crate::roster::spec_normalized_hired(kept.hired_guard_ids@));
    // The same repair, applied to `kept` itself.
    let again = CampaignState {
        selected_mission_id: loaded.selected_mission_id,
        selected_route_choices: loaded.selected_route_choices,
        hired_guard_ids: loaded.hired_guard_ids,
        selected_guard_id: loaded.selected_guard_id,
        selected_guard_ids: loaded.selected_guard_ids,
        selected_ranged_ids: loaded.selected_ranged_ids,
        guard_stars: loaded.guard_stars,
        selected_equipment_ids: loaded.selected_equipment_ids,
        ..kept
    };
    assert(again.is_normalized_from(kept, first_mission_id));
    crate::roster::lemma_normalize_is_idempotent(earlier, kept, again, first_mission_id);
}

/// Treating a recovering guard costs 30 gold, plus a fifth of the guard's hire
/// cost, plus 15 gold for each mission of recovery it has left; a guard that is
/// not recovering has no treatment to buy.
pub proof fn lemma_treatment_cost(c: CampaignState, kind: GuardKind)
    ensures
        c.guard_recovery@[kind.spec_position()] > 0 ==> c.spec_guard_treat_cost(kind) == Some(
            (30 + kind.spec_hire_cost() / 5 + 15 * c.guard_recovery@[kind.spec_position()]) as i64,
        ),
        c.guard_recovery@[kind.spec_position()] == 0 ==> c.spec_guard_treat_cost(kind) is None,
{
}

/// Raising the level of track `id` adds one to that track's level and leaves
/// the level of every other track, and every other field, as it was; an id
/// that names no track changes nothing.
pub proof fn lemma_upgrade_raises_one_track(c: CampaignState, id: Seq<char>)
    ensures
        is_upgrade_track(id) && c.spec_upgrade_level(id) < u32::MAX ==> upgrade_added(c, id).spec_upgrade_level(id)
            == c.spec_upgrade_level(id) + 1,
        forall|t: Seq<char>| t != id ==> #[trigger] upgrade_added(c, id).spec_upgrade_level(t) == c.spec_upgrade_level(t),
        !is_upgrade_track(id) ==> upgrade_added(c, id) == c,
        (CampaignState {
            carriage_level: c.carriage_level,
            guard_level: c.guard_level,
            archer_level: c.archer_level,
            wheel_level: c.wheel_level,
            cargo_level: c.cargo_level,
            repair_level: c.repair_level,
            hubs_level: c.hubs_level,
            lantern_level: c.lantern_level,
            ..upgrade_added(c, id)
        }) == c,
{
    reveal_strlit("carriage_armor");
    reveal_strlit("guard_training");
    reveal_strlit("mounted_archer");
    reveal_strlit("reinforced_wheels");
    reveal_strlit("cargo_straps");
    reveal_strlit("repair_kit");
    reveal_strlit("spiked_hubs");
    reveal_strlit("warding_lantern");
}

/// Two campaigns with the same track levels report the same level for every id.
proof fn lemma_levels_agree(a: CampaignState, b: CampaignState)
    requires
        a.carriage_level == b.carriage_level,
        a.guard_level == b.guard_level,
        a.archer_level == b.archer_level,
        a.wheel_level == b.wheel_level,
        a.cargo_level == b.cargo_level,
        a.repair_level == b.repair_level,
        a.hubs_level == b.hubs_level,
        a.lantern_level == b.lantern_level,
    ensures
        forall|t: Seq<char>| #[trigger] a.spec_upgrade_level(t) == b.spec_upgrade_level(t),
{
}

/// After a run's report is applied, a hired guard of a kind named among the
/// fallen is benched, for two missions after a success and three after a
/// failure, and so is not available; a guard of any other kind is one mission
/// closer to recovered (never below zero).
pub proof fn lemma_fallen_guards_are_benched(before: GameSession, after: GameSession, report: RunReport, k: GuardKind)
    requires
        report_applied(before, after, report),
    ensures
        names_kind(report.injured_guard_ids@, k) && before.campaign.spec_is_guard_hired(k) ==> {
            &&& after.campaign.guard_recovery@[k.spec_position()] == (if report.success { 2u32 } else { 3u32 })
            &&& after.campaign.guard_recovery@[k.spec_position()] > 0
            &&& !after.campaign.spec_is_guard_available(k)
        },
        !(names_kind(report.injured_guard_ids@, k) && before.campaign.spec_is_guard_hired(k)) ==> {
            let turns = before.campaign.guard_recovery@[k.spec_position()];
            after.campaign.guard_recovery@[k.spec_position()] == (if turns > 0 { turns - 1 } else { 0 })
        },
        after.campaign.spec_is_guard_hired(k) == before.campaign.spec_is_guard_hired(k),
{
}

/// Hiring a melee guard that can serve at once (not recovering, and not
/// already in a melee selection whose entries are all named) keeps every
/// guard already selected: with a slot free the recruit is added after them;
/// with every slot taken it takes the last slot.
pub proof fn lemma_hired_melee_guard_takes_next_slot(before: GameSession, after: GameSession, kind: GuardKind)
    requires
        hire_applied(before, after, kind),
        !kind.spec_is_ranged(),
        before.campaign.guard_recovery@[kind.spec_position()] == 0,
        forall|i: int|
            0 <= i < before.campaign.selected_guard_ids@.len() ==> (#[trigger] before.campaign.selected_guard_ids@[i])@.len()
                > 0,
        !id_views(before.campaign.selected_guard_ids@).contains(kind.spec_id()),
    ensures
        ({
            let sel = id_views(before.campaign.selected_guard_ids@);
            let slots = before.campaign.spec_chassis_slot_count();
            &&& sel.len() < slots ==> id_views(after.campaign.selected_guard_ids@) == sel.push(kind.spec_id())
            &&& sel.len() >= slots ==> id_views(after.campaign.selected_guard_ids@) == sel.update(
                slots - 1,
                kind.spec_id(),
            )
        }),
{
    let sel = id_views(before.campaign.selected_guard_ids@);
    let id = kind.spec_id();
    crate::guards::lemma_guard_id_nonempty(kind);
    crate::loadout::lemma_ids_contain_views(after.campaign.hired_guard_ids@, id);
    assert(id_views(after.campaign.hired_guard_ids@).last() == id);
    assert(id_views(after.campaign.hired_guard_ids@).contains(id));
    assert forall|i: int| 0 <= i < sel.len() implies (#[trigger] sel[i]).len() > 0 by {
        assert(sel[i] == before.campaign.selected_guard_ids@[i]@);
    }
    crate::ids::lemma_slot_assigned_in_clean_list(sel, id);
}

/// Hiring a ranged guard that can serve at once (not recovering, and not
/// already in a ranged selection whose entries are all named) keeps every
/// guard already selected: with a slot free the recruit is added after them;
/// with every slot taken it takes the last slot.
pub proof fn lemma_hired_ranged_guard_takes_next_slot(before: GameSession, after: GameSession, kind: GuardKind)
    requires
        hire_applied(before, after, kind),
        kind.spec_is_ranged(),
        before.campaign.guard_recovery@[kind.spec_position()] == 0,
        forall|i: int|
            0 <= i < before.campaign.selected_ranged_ids@.len() ==> (#[trigger] before.campaign.selected_ranged_ids@[i])@.len()
                > 0,
        !id_views(before.campaign.selected_ranged_ids@).contains(kind.spec_id()),
    ensures
        ({
            let sel = id_views(before.campaign.selected_ranged_ids@);
            let slots = before.campaign.spec_ranged_slot_count();
            &&& sel.len() < slots ==> id_views(after.campaign.selected_ranged_ids@) == sel.push(kind.spec_id())
            &&& sel.len() >= slots ==> id_views(after.campaign.selected_ranged_ids@) == sel.update(
                slots - 1,
                kind.spec_id(),
            )
        }),
{
    let sel = id_views(before.campaign.selected_ranged_ids@);
    let id = kind.spec_id();
    crate::guards::lemma_guard_id_nonempty(kind);
    crate::loadout::lemma_ids_contain_views(after.campaign.hired_guard_ids@, id);
    assert(id_views(after.campaign.hired_guard_ids@).last() == id);
    assert(id_views(after.campaign.hired_guard_ids@).contains(id));
    assert forall|i: int| 0 <= i < sel.len() implies (#[trigger] sel[i]).len() > 0 by {
        assert(sel[i] == before.campaign.selected_ranged_ids@[i]@);
    }
    crate::ids::lemma_slot_assigned_in_clean_list(sel, id);
}

} // verus!
