//! Decisions around the session's actions: why a purchase was refused, how
//! a save payload is brought to the current version, where a finished run
//! goes, and what a gamepad press asks for.

use vstd::prelude::*;
use crate::campaign::{CampaignState, GameConfig};
use crate::guards::GuardKind;
use crate::journey::{leg_resolved, LegReward};
use crate::session::{ConfirmPrompt, GameSession, RunReport, SaveData, Screen};

verus! {

/// Why a roster purchase was refused.
#[derive(Debug, Clone, Copy, PartialEq, Eq, Structural)]
pub enum Refusal {
    /// The carriage level does not unlock the kind yet.
    Locked,
    /// The kind is already on the roster.
    AlreadyHired,
    /// The guard already has three stars.
    AtMaxStars,
    /// The campaign cannot pay.
    NotEnoughGold,
}

impl CampaignState {
    /// Why hiring `kind` would be refused; `None` when it would succeed.
    pub fn hire_refusal(&self, kind: GuardKind) -> (r: Option<Refusal>)
        ensures
            r == (if self.spec_can_hire_guard(kind) {
                None
            } else if !self.spec_is_guard_unlocked(kind) {
                Some(Refusal::Locked)
            } else if self.spec_is_guard_hired(kind) {
                Some(Refusal::AlreadyHired)
            } else {
                Some(Refusal::NotEnoughGold)
            }),
    {
        if self.can_hire_guard(kind) {
            None
        } else if !self.is_guard_unlocked(kind) {
            Some(Refusal::Locked)
        } else if self.is_guard_hired(kind) {
            Some(Refusal::AlreadyHired)
        } else {
            Some(Refusal::NotEnoughGold)
        }
    }

    /// Why raising `kind` a star would be refused; `None` when it would
    /// succeed. A kind without a next star reads as maxed out, any other
    /// refusal as a lack of gold.
    pub fn star_refusal(&self, kind: GuardKind) -> (r: Option<Refusal>)
        ensures
            ({
                let cost = kind.spec_star_upgrade_cost(self.spec_guard_star_level(kind));
                r == (if self.spec_is_guard_hired(kind) && cost is Some && self.gold >= cost->0 {
                    None
                } else if cost is None {
                    Some(Refusal::AtMaxStars)
                } else {
                    Some(Refusal::NotEnoughGold)
                })
            }),
    {
        match self.guard_star_upgrade_cost(kind) {
            None => Some(Refusal::AtMaxStars),
            Some(cost) => {
                if self.is_guard_hired(kind) && self.gold >= cost {
                    None
                } else {
                    Some(Refusal::NotEnoughGold)
                }
            },
        }
    }
}

/// A save in the current format brought up to date: stamped with the
/// game's version, given the time `now` when it carries the unknown
/// placeholder, and with its campaign repaired.
pub fn migrated_save(save: SaveData, config: &GameConfig, first_mission_id: Option<&str>, now: String) -> (r: SaveData)
    requires
        save.campaign.wf(),
    ensures
        r.version@ == config.version@,
        r.saved_at@ == (if save.saved_at@ == "1970-01-01T00:00:00Z"@ { now@ } else { save.saved_at@ }),
        r.campaign.is_normalized_from(save.campaign, first_mission_id),
{
    let mut save = save;
    save.version = config.version.clone();
    if crate::text::str_eq(save.saved_at.as_str(), "1970-01-01T00:00:00Z") {
        save.saved_at = now;
    }
    save.campaign.normalize(first_mission_id);
    save
}

/// A save made from a bare campaign payload: repaired, stamped with the
/// game's version and the time `now`.
pub fn save_from_campaign(campaign: CampaignState, config: &GameConfig, first_mission_id: Option<&str>, now: String) -> (r: SaveData)
    requires
        campaign.wf(),
    ensures
        r.version@ == config.version@,
        r.saved_at@ == now@,
        r.campaign.is_normalized_from(campaign, first_mission_id),
{
    let mut campaign = campaign;
    campaign.normalize(first_mission_id);
    SaveData { version: config.version.clone(), campaign, saved_at: now }
}

/// A save made from the old template format: a fresh campaign whose gold is
/// the old points, never below zero (the starting gold when there were
/// none), stamped with the game's version and the time `now`.
pub fn save_from_points(config: &GameConfig, first_mission_id: Option<&str>, points: Option<i64>, now: String) -> (r: SaveData)
    ensures
        r.version@ == config.version@,
        r.saved_at@ == now@,
        r.campaign.is_fresh(
            GameConfig {
                starting_gold: match points {
                    Some(p) => if p > 0 { p } else { 0 },
                    None => config.starting_gold,
                },
                ..*config
            },
            first_mission_id,
        ),
{
    let mut campaign = CampaignState::new(config, first_mission_id);
    match points {
        Some(p) => {
            campaign.gold = if p > 0 { p } else { 0 };
        },
        None => {},
    }
    SaveData { version: config.version.clone(), campaign, saved_at: now }
}

impl GameSession {
    /// Routes a finished run: an expedition leg is resolved with `choices`
    /// offered on success; a campaign run's report is applied, kept as the
    /// session's result, and the results screen opens.
    pub fn finish_run(&mut self, report: RunReport, mission_name: String, choices: [LegReward; 3])
        requires
            old(self).wf(),
            old(self).journey matches Some(j) ==> i64::MIN <= old(self).campaign.gold + crate::journey::half_toward_zero(
                j.banked_gold as int,
            ) <= i64::MAX,
            old(self).journey is None ==> i64::MIN <= old(self).campaign.gold + report.reward <= i64::MAX,
            old(self).journey is None ==> i64::MIN <= old(self).campaign.gold + report.reward - report.gold_penalty
                <= i64::MAX,
            old(self).journey is None && report.success && old(self).campaign.records@.contains_key(report.mission_id@)
                ==> old(self).campaign.records@[report.mission_id@].completions < u32::MAX,
        ensures
            old(self).journey is Some ==> *final(self) == leg_resolved(*old(self), report.success, mission_name, choices),
            old(self).journey is None ==> final(self).screen == Screen::Results && !final(self).mission_active
                && (final(self).result matches Some(last) && last.same_contents(&report))
                && crate::session::report_applied(
                *old(self),
                GameSession {
                    screen: old(self).screen,
                    mission_active: old(self).mission_active,
                    result: old(self).result,
                    ..*final(self)
                },
                report,
            ),
    {
        if self.journey.is_some() {
            self.resolve_journey_leg(report.success, mission_name, choices);
        } else {
            let last = report.duplicate();
            self.apply_report(report);
            self.mission_active = false;
            self.screen = Screen::Results;
            self.result = Some(last);
        }
    }
}

/// One frame of gamepad buttons.
#[derive(Debug, Clone, Copy, PartialEq, Eq, Structural)]
pub struct PadFrame {
    pub connected: bool,
    pub confirm: bool,
    pub cancel: bool,
    pub menu: bool,
    pub secondary: bool,
}

/// What a gamepad press asks for.
#[derive(Debug, Clone, Copy, PartialEq, Eq, Structural)]
pub enum PadAction {
    Nothing,
    DismissConfirm,
    NewCampaign,
    PauseGame,
    ResumeGame,
    OpenSettings,
    OpenMap,
    OpenLoadout,
    OpenOutfitter,
    ReturnTitle,
    CycleGuardOrder,
    ContinueCampaign,
    RequestNewCampaign,
    BeginMission,
}

/// The action of the back button on `screen`.
pub open spec fn back_action(screen: Screen, mission_active: bool) -> PadAction {
    match screen {
        Screen::Playing => PadAction::PauseGame,
        Screen::Paused => PadAction::ResumeGame,
        Screen::Results => PadAction::OpenMap,
        Screen::Settings => if mission_active { PadAction::ResumeGame } else { PadAction::OpenMap },
        Screen::Loadout | Screen::Shop | Screen::Carriages | Screen::Guards | Screen::Upgrades => PadAction::OpenMap,
        Screen::Outfitter => PadAction::OpenLoadout,
        Screen::Records => PadAction::OpenOutfitter,
        Screen::MissionMap | Screen::Codex => PadAction::ReturnTitle,
        Screen::Journey | Screen::Title => PadAction::Nothing,
    }
}

/// The action of the confirm button on `screen`.
pub open spec fn confirm_action(screen: Screen, mission_active: bool, save_exists: bool) -> PadAction {
    match screen {
        Screen::Title => if save_exists { PadAction::ContinueCampaign } else { PadAction::RequestNewCampaign },
        Screen::MissionMap => PadAction::OpenLoadout,
        Screen::Loadout => PadAction::BeginMission,
        Screen::Paused => PadAction::ResumeGame,
        Screen::Results => PadAction::OpenMap,
        Screen::Settings => if mission_active { PadAction::ResumeGame } else { PadAction::OpenMap },
        Screen::Outfitter => PadAction::OpenLoadout,
        Screen::Records => PadAction::OpenOutfitter,
        Screen::Codex => PadAction::ReturnTitle,
        _ => PadAction::Nothing,
    }
}

/// The answer to a pending confirmation: cancel dismisses it, confirm accepts
/// it, and other buttons do nothing.
pub open spec fn prompt_action(pad: PadFrame) -> PadAction {
    if pad.cancel {
        PadAction::DismissConfirm
    } else if pad.confirm {
        PadAction::NewCampaign
    } else {
        PadAction::Nothing
    }
}

/// The action of the menu button on `screen`.
pub open spec fn menu_action(screen: Screen) -> PadAction {
    match screen {
        Screen::Playing => PadAction::PauseGame,
        Screen::Paused => PadAction::ResumeGame,
        _ => PadAction::OpenSettings,
    }
}

impl GameSession {
    /// The action a frame of gamepad buttons asks for. While a confirmation
    /// is pending only its answer counts; otherwise menu goes first, then
    /// back, then the secondary button while playing, then confirm.
    pub fn pad_action(&self, pad: PadFrame, save_exists: bool) -> (r: PadAction)
        ensures
            !pad.connected ==> r == PadAction::Nothing,
            pad.connected && self.pending_confirm is Some ==> r == prompt_action(pad),
            pad.connected && self.pending_confirm is None ==> {
                let playing_secondary = pad.secondary && self.screen == Screen::Playing;
                &&& pad.menu ==> r == menu_action(self.screen)
                &&& !pad.menu && pad.cancel ==> r == back_action(self.screen, self.mission_active)
                &&& !pad.menu && !pad.cancel && playing_secondary ==> r == (if self.mission_active {
                    PadAction::CycleGuardOrder
                } else {
                    PadAction::Nothing
                })
                &&& !pad.menu && !pad.cancel && !playing_secondary && pad.confirm ==> r == confirm_action(
                    self.screen,
                    self.mission_active,
                    save_exists,
                )
                &&& !pad.menu && !pad.cancel && !playing_secondary && !pad.confirm ==> r == PadAction::Nothing
            },
    {
        if !pad.connected {
            return PadAction::Nothing;
        }
        match self.pending_confirm {
            Some(ConfirmPrompt::NewCampaign) => {
                return if pad.cancel {
                    PadAction::DismissConfirm
                } else if pad.confirm {
                    PadAction::NewCampaign
                } else {
                    PadAction::Nothing
                };
            },
            None => {},
        }
        if pad.menu {
            return match self.screen {
                Screen::Playing => PadAction::PauseGame,
                Screen::Paused => PadAction::ResumeGame,
                _ => PadAction::OpenSettings,
            };
        }
        if pad.cancel {
            return match self.screen {
                Screen::Playing => PadAction::PauseGame,
                Screen::Paused => PadAction::ResumeGame,
                Screen::Results => PadAction::OpenMap,
                Screen::Settings => if self.mission_active { PadAction::ResumeGame } else { PadAction::OpenMap },
                Screen::Loadout | Screen::Shop | Screen::Carriages | Screen::Guards | Screen::Upgrades => PadAction::OpenMap,
                Screen::Outfitter => PadAction::OpenLoadout,
                Screen::Records => PadAction::OpenOutfitter,
                Screen::MissionMap | Screen::Codex => PadAction::ReturnTitle,
                Screen::Journey | Screen::Title => PadAction::Nothing,
            };
        }
        if pad.secondary && self.screen == Screen::Playing {
            return if self.mission_active { PadAction::CycleGuardOrder } else { PadAction::Nothing };
        }
        if !pad.confirm {
            return PadAction::Nothing;
        }
        match self.screen {
            Screen::Title => if save_exists { PadAction::ContinueCampaign } else { PadAction::RequestNewCampaign },
            Screen::MissionMap => PadAction::OpenLoadout,
            Screen::Loadout => PadAction::BeginMission,
            Screen::Paused => PadAction::ResumeGame,
            Screen::Results => PadAction::OpenMap,
            Screen::Settings => if self.mission_active { PadAction::ResumeGame } else { PadAction::OpenMap },
            Screen::Outfitter => PadAction::OpenLoadout,
            Screen::Records => PadAction::OpenOutfitter,
            Screen::Codex => PadAction::ReturnTitle,
            _ => PadAction::Nothing,
        }
    }
}

} // verus!
