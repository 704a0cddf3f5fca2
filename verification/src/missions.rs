//! Mission content as the campaign rules read it, the unlock gates, route
//! choices, and the display form of mission identifiers.

use vstd::prelude::*;
use crate::text::{str_eq, push_char, push_str, push_decimal, decimal};
use crate::campaign::{CampaignState, ids_contain};
use crate::keyed::{KeyedList, keys_distinct, entries_map};

verus! {

broadcast use vstd::seq_lib::group_seq_properties;

/// A branch of a mission route: its identity, reward change and added threats.
#[derive(Debug, Clone)]
pub struct RouteChoiceDef {
    pub id: String,
    pub name: String,
    pub description: String,
    pub reward_delta: i64,
    pub enemy_add: Vec<String>,
    pub hazard_add: Vec<String>,
}

/// A campaign mission: identity, texts, unlock gates, reward and content mix.
#[derive(Debug, Clone)]
pub struct MissionDef {
    pub id: String,
    pub name: String,
    pub order: u32,
    pub mission_type: String,
    pub route: String,
    pub cargo: String,
    pub objective: String,
    pub bonus_objective: String,
    pub intro_text: String,
    pub outro_text: String,
    pub unlock_level: u32,
    pub base_reward: i64,
    pub enemy_mix: Vec<String>,
    pub hazard_mix: Vec<String>,
    pub route_choices: Vec<RouteChoiceDef>,
    pub prerequisite_missions: Vec<String>,
    pub unlock_any_missions: Vec<String>,
}

/// ASCII upper case of a character; other characters are unchanged.
pub open spec fn ascii_upper(c: char) -> char {
    if 'a' <= c && c <= 'z' {
        ((c as u32) - 32) as char
    } else {
        c
    }
}

/// A mission identifier as words: every `_` becomes a space and the first
/// character of each word is upper-cased.
pub open spec fn title_words(id: Seq<char>) -> Seq<char> {
    Seq::new(
        id.len(),
        |i: int|
            if id[i] == '_' {
                ' '
            } else if i == 0 || id[i - 1] == '_' {
                ascii_upper(id[i])
            } else {
                id[i]
            },
    )
}

fn upper(c: char) -> (r: char)
    ensures
        r == ascii_upper(c),
{
    if 'a' <= c && c <= 'z' {
        let b: u8 = c as u8;
        let u: u8 = b - 32;
        u as char
    } else {
        c
    }
}

/// A mission identifier in display form, e.g. `bandit_bend` as `Bandit Bend`.
pub fn format_mission_id(id: &str) -> (r: String)
    ensures
        r@ == title_words(id@),
{
    let n: usize = id.unicode_len();
    let mut r = String::new();
    let mut i: usize = 0;
    let mut prev_underscore = true;
    while i < n
        invariant
            n == id@.len(),
            i <= n,
            r@ =~= title_words(id@).subrange(0, i as int),
            prev_underscore == (i == 0 || id@[i - 1] == '_'),
        decreases n - i,
    {
        let c = id.get_char(i);
        let out = if c == '_' {
            ' '
        } else if prev_underscore {
            upper(c)
        } else {
            c
        };
        push_char(&mut r, out);
        prev_underscore = c == '_';
        i = i + 1;
    }
    r
}

/// Index of the first identifier in `ids` that is not completed in `c`.
pub open spec fn first_incomplete(c: CampaignState, ids: Seq<String>) -> Option<int>
    decreases ids.len(),
{
    if ids.len() == 0 {
        None
    } else if !c.spec_is_mission_completed(ids[0]@) {
        Some(0)
    } else {
        match first_incomplete(c, ids.drop_first()) {
            Some(i) => Some(i + 1),
            None => None,
        }
    }
}

proof fn lemma_first_incomplete(c: CampaignState, ids: Seq<String>)
    ensures
        match first_incomplete(c, ids) {
            Some(i) => 0 <= i < ids.len() && !c.spec_is_mission_completed(ids[i]@) && forall|j: int|
                0 <= j < i ==> c.spec_is_mission_completed(#[trigger] ids[j]@),
            None => forall|j: int| 0 <= j < ids.len() ==> c.spec_is_mission_completed(#[trigger] ids[j]@),
        },
    decreases ids.len(),
{
    if ids.len() > 0 {
        lemma_first_incomplete(c, ids.drop_first());
        assert forall|j: int| 1 <= j < ids.len() implies ids[j] == ids.drop_first()[j - 1] by {}
    }
}

/// The locked-mission caption: the first gate still closed.
pub open spec fn spec_unlock_label(c: CampaignState, m: MissionDef) -> Seq<char> {
    if c.carriage_level < m.unlock_level {
        "Carriage Level "@ + decimal(m.unlock_level as nat)
    } else if first_incomplete(c, m.prerequisite_missions@) is Some {
        "Complete "@ + title_words(m.prerequisite_missions@[first_incomplete(c, m.prerequisite_missions@)->0]@)
    } else if m.unlock_any_missions@.len() > 0 && !c.spec_any_completed(m.unlock_any_missions@) {
        "Complete "@ + title_words(m.unlock_any_missions@[0]@) + " branch"@
    } else {
        "Locked"@
    }
}

/// Index of the first route in `choices` whose identifier is `id`.
pub open spec fn first_route_index(choices: Seq<RouteChoiceDef>, id: Seq<char>) -> Option<int>
    decreases choices.len(),
{
    if choices.len() == 0 {
        None
    } else if choices[0].id@ == id {
        Some(0)
    } else {
        match first_route_index(choices.drop_first(), id) {
            Some(i) => Some(i + 1),
            None => None,
        }
    }
}

proof fn lemma_first_route_index(choices: Seq<RouteChoiceDef>, id: Seq<char>)
    ensures
        match first_route_index(choices, id) {
            Some(i) => 0 <= i < choices.len() && choices[i].id@ == id && forall|j: int|
                0 <= j < i ==> #[trigger] choices[j].id@ != id,
            None => forall|j: int| 0 <= j < choices.len() ==> #[trigger] choices[j].id@ != id,
        },
    decreases choices.len(),
{
    if choices.len() > 0 {
        lemma_first_route_index(choices.drop_first(), id);
        assert forall|j: int| 1 <= j < choices.len() implies choices[j] == choices.drop_first()[j - 1] by {}
    }
}

/// Index of the route choice the campaign has selected for `m`: the first
/// route named by the stored choice, else the mission's first route.
pub open spec fn spec_route_choice_index(c: CampaignState, m: MissionDef) -> Option<int> {
    let choices = m.route_choices@;
    if c.selected_route_choices@.contains_key(m.id@) && first_route_index(
        choices,
        c.selected_route_choices@[m.id@]@,
    ) is Some {
        first_route_index(choices, c.selected_route_choices@[m.id@]@)
    } else if choices.len() > 0 {
        Some(0)
    } else {
        None
    }
}

impl CampaignState {
    pub open spec fn spec_is_mission_completed(&self, id: Seq<char>) -> bool {
        self.records@.contains_key(id) && self.records@[id].completions > 0
    }

    pub open spec fn spec_any_completed(&self, ids: Seq<String>) -> bool {
        exists|i: int| 0 <= i < ids.len() && self.spec_is_mission_completed(#[trigger] ids[i]@)
    }

    pub open spec fn spec_all_completed(&self, ids: Seq<String>) -> bool {
        forall|i: int| 0 <= i < ids.len() ==> self.spec_is_mission_completed(#[trigger] ids[i]@)
    }

    /// Unlocked: the carriage level is reached, every prerequisite is
    /// completed, and, if the mission names branches, one of them is completed.
    pub open spec fn spec_is_mission_unlocked(&self, m: MissionDef) -> bool {
        &&& self.carriage_level >= m.unlock_level
        &&& self.spec_all_completed(m.prerequisite_missions@)
        &&& (m.unlock_any_missions@.len() == 0 || self.spec_any_completed(m.unlock_any_missions@))
    }

    /// Whether the mission `id` has been completed at least once.
    pub fn is_mission_completed(&self, id: &str) -> (r: bool)
        requires
            self.wf(),
        ensures
            r == self.spec_is_mission_completed(id@),
    {
        match self.records.get(id) {
            Some(record) => record.completions > 0,
            None => false,
        }
    }

    fn first_incomplete_index(&self, ids: &Vec<String>) -> (r: Option<usize>)
        requires
            self.wf(),
        ensures
            match r {
                Some(i) => first_incomplete(*self, ids@) == Some(i as int),
                None => first_incomplete(*self, ids@) is None,
            },
    {
        proof {
            lemma_first_incomplete(*self, ids@);
        }
        let mut i: usize = 0;
        while i < ids.len()
            invariant
                self.wf(),
                i <= ids@.len(),
                forall|j: int| 0 <= j < i ==> self.spec_is_mission_completed(#[trigger] ids@[j]@),
            decreases ids@.len() - i,
        {
            if !self.is_mission_completed(ids[i].as_str()) {
                proof {
                    lemma_first_incomplete(*self, ids@);
                    let f = first_incomplete(*self, ids@);
                    if f != Some(i as int) {
                        match f {
                            Some(k) => {
                                if k < i {
                                    assert(self.spec_is_mission_completed(ids@[k]@));
                                } else {
                                    assert(self.spec_is_mission_completed(ids@[i as int]@));
                                }
                            },
                            None => {
                                assert(self.spec_is_mission_completed(ids@[i as int]@));
                            },
                        }
                    }
                }
                return Some(i);
            }
            i = i + 1;
        }
        proof {
            lemma_first_incomplete(*self, ids@);
            match first_incomplete(*self, ids@) {
                Some(k) => {
                    assert(self.spec_is_mission_completed(ids@[k]@));
                },
                None => {},
            }
        }
        None
    }

    fn any_completed(&self, ids: &Vec<String>) -> (r: bool)
        requires
            self.wf(),
        ensures
            r == self.spec_any_completed(ids@),
    {
        let mut i: usize = 0;
        while i < ids.len()
            invariant
                self.wf(),
                i <= ids@.len(),
                forall|j: int| 0 <= j < i ==> !self.spec_is_mission_completed(#[trigger] ids@[j]@),
            decreases ids@.len() - i,
        {
            if self.is_mission_completed(ids[i].as_str()) {
                return true;
            }
            i = i + 1;
        }
        false
    }

    /// Whether the mission can be started: carriage level, prerequisites and
    /// branch requirement all met.
    pub fn is_mission_unlocked(&self, mission: &MissionDef) -> (r: bool)
        requires
            self.wf(),
        ensures
            r == self.spec_is_mission_unlocked(*mission),
    {
        if self.carriage_level < mission.unlock_level {
            return false;
        }
        let missing = self.first_incomplete_index(&mission.prerequisite_missions);
        proof {
            lemma_first_incomplete(*self, mission.prerequisite_missions@);
        }
        if missing.is_some() {
            return false;
        }
        mission.unlock_any_missions.len() == 0 || self.any_completed(&mission.unlock_any_missions)
    }

    /// Caption of a locked mission naming the first gate still closed:
    /// `Carriage Level N`, `Complete Mission Name`, `Complete Mission Name
    /// branch`, or `Locked` when every gate is met.
    pub fn mission_unlock_label(&self, mission: &MissionDef) -> (r: String)
        requires
            self.wf(),
        ensures
            r@ == spec_unlock_label(*self, *mission),
    {
        let mut r = String::new();
        if self.carriage_level < mission.unlock_level {
            push_str(&mut r, "Carriage Level ");
            push_decimal(&mut r, mission.unlock_level as u64);
            return r;
        }
        proof {
            lemma_first_incomplete(*self, mission.prerequisite_missions@);
        }
        match self.first_incomplete_index(&mission.prerequisite_missions) {
            Some(i) => {
                push_str(&mut r, "Complete ");
                let title = format_mission_id(mission.prerequisite_missions[i].as_str());
                push_str(&mut r, title.as_str());
                return r;
            },
            None => {},
        }
        if mission.unlock_any_missions.len() > 0 && !self.any_completed(&mission.unlock_any_missions) {
            push_str(&mut r, "Complete ");
            let title = format_mission_id(mission.unlock_any_missions[0].as_str());
            push_str(&mut r, title.as_str());
            push_str(&mut r, " branch");
            return r;
        }
        push_str(&mut r, "Locked");
        r
    }

    /// The route choice in effect for `mission`: the stored choice when it
    /// names one of the mission's routes, else the mission's first route.
    pub fn selected_route_choice<'a>(&self, mission: &'a MissionDef) -> (r: Option<&'a RouteChoiceDef>)
        requires
            self.wf(),
        ensures
            match spec_route_choice_index(*self, *mission) {
                Some(i) => r == Some(&mission.route_choices@[i]),
                None => r is None,
            },
    {
        match self.selected_route_choices.get(mission.id.as_str()) {
            Some(chosen) => {
                let mut i: usize = 0;
                while i < mission.route_choices.len()
                    invariant
                        i <= mission.route_choices@.len(),
                        self.selected_route_choices@.contains_key(mission.id@),
                        chosen@ == self.selected_route_choices@[mission.id@]@,
                        forall|j: int| 0 <= j < i ==> mission.route_choices@[j].id@ != chosen@,
                    decreases mission.route_choices@.len() - i,
                {
                    if str_eq(mission.route_choices[i].id.as_str(), chosen.as_str()) {
                        proof {
                            lemma_first_route_index(mission.route_choices@, chosen@);
                            match first_route_index(mission.route_choices@, chosen@) {
                                Some(k) => {
                                    if k < i {
                                        assert(mission.route_choices@[k].id@ != chosen@);
                                    }
                                    if (i as int) < k {
                                        assert(mission.route_choices@[i as int].id@ != chosen@);
                                    }
                                },
                                None => {
                                    assert(mission.route_choices@[i as int].id@ != chosen@);
                                },
                            }
                        }
                        return Some(&mission.route_choices[i]);
                    }
                    i = i + 1;
                }
            },
            None => {},
        }
        proof {
            if self.selected_route_choices@.contains_key(mission.id@) {
                lemma_first_route_index(mission.route_choices@, self.selected_route_choices@[mission.id@]@);
            }
        }
        if mission.route_choices.len() > 0 {
            Some(&mission.route_choices[0])
        } else {
            None
        }
    }

    /// Identifier of the route choice in effect for `mission`.
    pub fn selected_route_choice_id<'a>(&self, mission: &'a MissionDef) -> (r: Option<&'a str>)
        requires
            self.wf(),
        ensures
            match spec_route_choice_index(*self, *mission) {
                Some(i) => r is Some && r->0@ == mission.route_choices@[i].id@,
                None => r is None,
            },
    {
        match self.selected_route_choice(mission) {
            Some(choice) => Some(choice.id.as_str()),
            None => None,
        }
    }

    /// Stores `route_id` as the route of `mission` if it names one of its
    /// routes; returns whether it did.
    pub fn select_route_choice(&mut self, mission: &MissionDef, route_id: &str) -> (r: bool)
        requires
            old(self).wf(),
        ensures
            final(self).wf(),
            r == exists|i: int|
                0 <= i < mission.route_choices@.len() && mission.route_choices@[i].id@ == route_id@,
            r ==> final(self).selected_route_choices@ == old(self).selected_route_choices@.insert(
                mission.id@,
                final(self).selected_route_choices@[mission.id@],
            ),
            r ==> final(self).selected_route_choices@[mission.id@]@ == route_id@,
            !r ==> *final(self) == *old(self),
            *final(self) == (CampaignState { selected_route_choices: final(self).selected_route_choices, ..*old(self) }),
    {
        let mut i: usize = 0;
        let mut found = false;
        while i < mission.route_choices.len() && !found
            invariant
                i <= mission.route_choices@.len(),
                !found ==> forall|j: int| 0 <= j < i ==> mission.route_choices@[j].id@ != route_id@,
                found ==> exists|j: int|
                    0 <= j < mission.route_choices@.len() && mission.route_choices@[j].id@ == route_id@,
            decreases mission.route_choices@.len() - i, (if found { 0int } else { 1int }),
        {
            if str_eq(mission.route_choices[i].id.as_str(), route_id) {
                found = true;
            }
            i = i + 1;
        }
        if !found {
            return false;
        }
        self.selected_route_choices.insert(mission.id.clone(), route_id.to_owned());
        true
    }
}

impl KeyedList<String> {
    /// The entries whose key and value are both non-empty.
    pub open spec fn nonempty_part(m: Map<Seq<char>, String>) -> Map<Seq<char>, String> {
        Map::new(|k: Seq<char>| m.contains_key(k) && k.len() > 0 && m[k]@.len() > 0, |k: Seq<char>| m[k])
    }

    fn find_empty(&self) -> (r: Option<usize>)
        ensures
            match r {
                Some(i) => i < self.entries@.len() && (self.entries@[i as int].0@.len() == 0
                    || self.entries@[i as int].1@.len() == 0),
                None => forall|i: int|
                    0 <= i < self.entries@.len() ==> #[trigger] self.entries@[i].0@.len() > 0
                        && self.entries@[i].1@.len() > 0,
            },
    {
        let mut i: usize = 0;
        while i < self.entries.len()
            invariant
                i <= self.entries@.len(),
                forall|j: int|
                    0 <= j < i ==> #[trigger] self.entries@[j].0@.len() > 0 && self.entries@[j].1@.len() > 0,
            decreases self.entries@.len() - i,
        {
            if self.entries[i].0.as_str().unicode_len() == 0 || self.entries[i].1.as_str().unicode_len() == 0 {
                return Some(i);
            }
            i = i + 1;
        }
        None
    }

    /// Drops every entry whose key or value is empty.
    pub fn retain_nonempty(&mut self)
        requires
            old(self).wf(),
        ensures
            final(self).wf(),
            final(self)@ == Self::nonempty_part(old(self)@),
    {
        let ghost start = self@;
        loop
            invariant
                self.wf(),
                start == old(self)@,
                forall|k: Seq<char>| #[trigger] self@.contains_key(k) ==> start.contains_key(k) && self@[k] == start[k],
                forall|k: Seq<char>| #[trigger] Self::nonempty_part(start).contains_key(k) ==> self@.contains_key(k),
            decreases self.entries@.len(),
        {
            match self.find_empty() {
                Some(i) => {
                    let key = self.entries[i].0.clone();
                    proof {
                        crate::keyed::lemma_entry_value(self.entries@, i as int);
                    }
                    assert(crate::keyed::has_key(self.entries@, key@));
                    self.remove(key.as_str());
                },
                None => {
                    proof {
                        assert forall|k: Seq<char>| #[trigger] self@.contains_key(k) implies Self::nonempty_part(start).contains_key(k) by {
                            let j = choose|j: int| 0 <= j < self.entries@.len() && self.entries@[j].0@ == k;
                            crate::keyed::lemma_entry_value(self.entries@, j);
                            assert(self.entries@[j].0@.len() > 0);
                            assert(self@[k]@.len() > 0);
                        }
                        assert(self@ =~= Self::nonempty_part(start));
                    }
                    return;
                },
            }
        }
    }
}

/// Mission `i` comes first when the missions are sorted by `order`, ties
/// kept in list order.
pub open spec fn mission_first_in_order(missions: Seq<MissionDef>, i: int) -> bool {
    &&& 0 <= i < missions.len()
    &&& forall|j: int| 0 <= j < missions.len() ==> missions[i].order < #[trigger] missions[j].order || (
    missions[i].order == missions[j].order && i <= j)
}

/// Identifier of the first mission in order, the one a new campaign selects.
pub fn first_mission_id(missions: &[MissionDef]) -> (r: Option<&str>)
    ensures
        r is None <==> missions@.len() == 0,
        r matches Some(id) ==> exists|i: int| mission_first_in_order(missions@, i) && id@ == missions@[i].id@,
{
    if missions.len() == 0 {
        return None;
    }
    let mut best: usize = 0;
    let mut i: usize = 1;
    while i < missions.len()
        invariant
            1 <= i <= missions@.len(),
            best < i,
            forall|j: int| 0 <= j < i ==> missions@[best as int].order < #[trigger] missions@[j].order || (
            missions@[best as int].order == missions@[j].order && best <= j),
        decreases missions@.len() - i,
    {
        if missions[i].order < missions[best].order {
            best = i;
        }
        i = i + 1;
    }
    assert(mission_first_in_order(missions@, best as int));
    Some(missions[best].id.as_str())
}

/// Progress never locks a mission: with at least the same carriage level and
/// every completed mission still completed, an unlocked mission stays
/// unlocked.
pub proof fn lemma_unlock_is_monotone(a: CampaignState, b: CampaignState, m: MissionDef)
    requires
        a.carriage_level <= b.carriage_level,
        forall|id: Seq<char>| a.spec_is_mission_completed(id) ==> b.spec_is_mission_completed(id),
    ensures
        a.spec_is_mission_unlocked(m) ==> b.spec_is_mission_unlocked(m),
{
    if a.spec_is_mission_unlocked(m) {
        assert forall|i: int| 0 <= i < m.prerequisite_missions@.len() implies b.spec_is_mission_completed(
            #[trigger] m.prerequisite_missions@[i]@,
        ) by {
            assert(a.spec_is_mission_completed(m.prerequisite_missions@[i]@));
        }
        if m.unlock_any_missions@.len() > 0 {
            let i = choose|i: int|
                0 <= i < m.unlock_any_missions@.len() && a.spec_is_mission_completed(
                    #[trigger] m.unlock_any_missions@[i]@,
                );
            assert(b.spec_is_mission_completed(m.unlock_any_missions@[i]@));
        }
    }
}

/// The route seed of an identifier: its bytes folded in order, each step
/// multiplying by 37 and adding the byte, wrapping at 64 bits.
pub open spec fn route_seed(bytes: Seq<u8>) -> u64
    decreases bytes.len(),
{
    if bytes.len() == 0 {
        0
    } else {
        route_seed(bytes.drop_last()).wrapping_mul(37).wrapping_add(bytes.last() as u64)
    }
}

fn route_seed_of(id: &str) -> (r: u64)
    ensures
        r == route_seed(vstd::utf8::encode_utf8(id@)),
{
    let bytes = id.as_bytes();
    let mut h: u64 = 0;
    let mut i: usize = 0;
    while i < bytes.len()
        invariant
            bytes@ == vstd::utf8::encode_utf8(id@),
            i <= bytes@.len(),
            h == route_seed(bytes@.take(i as int)),
        decreases bytes@.len() - i,
    {
        assert(bytes@.take(i + 1).drop_last() =~= bytes@.take(i as int));
        h = h.wrapping_mul(37).wrapping_add(bytes[i] as u64);
        i = i + 1;
    }
    assert(bytes@.take(bytes@.len() as int) =~= bytes@);
    h
}

/// What a route run is set up with, apart from the simulation's tuning.
pub struct RouteSetup {
    pub route_name: String,
    pub enemy_mix: Vec<String>,
    pub hazard_mix: Vec<String>,
    pub base_reward: i64,
    pub seed: u64,
}

/// The route branch a run takes: the campaign's selected one, none in an
/// expedition (which ignores stored route choices).
pub open spec fn run_route_index(c: CampaignState, m: MissionDef, expedition_seed: Option<u64>) -> Option<int> {
    if expedition_seed is None {
        spec_route_choice_index(c, m)
    } else {
        None
    }
}

/// Recorded completions of a mission, zero without a record.
pub open spec fn recorded_completions(c: CampaignState, id: Seq<char>) -> int {
    if c.records@.contains_key(id) {
        c.records@[id].completions as int
    } else {
        0
    }
}

/// The campaign seed of a run: the mission's order times 10007, plus its
/// completions, plus the route seed of the chosen branch (of the empty
/// identifier without one).
pub open spec fn campaign_seed(c: CampaignState, m: MissionDef) -> int {
    m.order * 10007 + recorded_completions(c, m.id@) + match spec_route_choice_index(c, m) {
        Some(i) => route_seed(vstd::utf8::encode_utf8(m.route_choices@[i].id@)),
        None => 0,
    }
}

/// Appends copies of `more` to `out`.
fn append_ids(out: &mut Vec<String>, more: &Vec<String>)
    ensures
        crate::campaign::id_views(final(out)@) == crate::campaign::id_views(old(out)@) + crate::campaign::id_views(more@),
{
    let mut i: usize = 0;
    while i < more.len()
        invariant
            i <= more@.len(),
            crate::campaign::id_views(out@) == crate::campaign::id_views(old(out)@) + crate::campaign::id_views(
                more@.take(i as int),
            ),
        decreases more@.len() - i,
    {
        let ghost before = out@;
        let item = more[i].clone();
        proof {
            crate::ids::lemma_id_views_push(before, item);
            assert(more@.take(i + 1) =~= more@.take(i as int).push(more@[i as int]));
            crate::ids::lemma_id_views_push(more@.take(i as int), more@[i as int]);
        }
        out.push(item);
        i = i + 1;
    }
    assert(more@.take(more@.len() as int) =~= more@);
}

/// The run of `m` can be resolved without overflow: its reward sum fits an
/// `i64` and, for a campaign run, its seed fits a `u64`.
pub open spec fn route_fits(m: MissionDef, c: CampaignState, expedition_seed: Option<u64>) -> bool {
    &&& match run_route_index(c, m, expedition_seed) {
        Some(i) => i64::MIN <= m.base_reward + m.route_choices@[i].reward_delta <= i64::MAX,
        None => true,
    }
    &&& expedition_seed is None ==> campaign_seed(c, m) <= u64::MAX
}

/// `r` is the route setup of a run of `m`: the branch's name, the mixes
/// extended by the branch, the reward moved by the branch and floored at
/// zero, and the seed.
pub open spec fn route_setup_is(m: MissionDef, c: CampaignState, expedition_seed: Option<u64>, r: RouteSetup) -> bool {
    &&& match run_route_index(c, m, expedition_seed) {
        Some(i) => {
            let ch = m.route_choices@[i];
            &&& r.route_name@ == ch.name@
            &&& crate::campaign::id_views(r.enemy_mix@) == crate::campaign::id_views(m.enemy_mix@)
                + crate::campaign::id_views(ch.enemy_add@)
            &&& crate::campaign::id_views(r.hazard_mix@) == crate::campaign::id_views(m.hazard_mix@)
                + crate::campaign::id_views(ch.hazard_add@)
            &&& r.base_reward == (if m.base_reward + ch.reward_delta > 0 {
                m.base_reward + ch.reward_delta
            } else {
                0
            })
        },
        None => {
            &&& r.route_name@ == m.route@
            &&& crate::campaign::id_views(r.enemy_mix@) == crate::campaign::id_views(m.enemy_mix@)
            &&& crate::campaign::id_views(r.hazard_mix@) == crate::campaign::id_views(m.hazard_mix@)
            &&& r.base_reward == (if m.base_reward > 0 { m.base_reward } else { 0 })
        },
    }
    &&& r.seed == match expedition_seed {
        Some(s) => s as int,
        None => campaign_seed(c, m),
    }
}

/// Resolves the route branch of a run of `mission`: its name, its enemy and
/// hazard mixes extended by the branch, its base reward moved by the
/// branch (never below zero) and its seed. A campaign run takes the
/// selected branch and seeds from the mission; an expedition run takes no
/// branch and uses `expedition_seed`.
pub fn resolve_route(mission: &MissionDef, campaign: &CampaignState, expedition_seed: Option<u64>) -> (r: RouteSetup)
    requires
        campaign.wf(),
        route_fits(*mission, *campaign, expedition_seed),
    ensures
        route_setup_is(*mission, *campaign, expedition_seed, r),
{
    let choice = match expedition_seed {
        None => campaign.selected_route_choice(mission),
        Some(_) => None,
    };
    let mut enemy_mix: Vec<String> = Vec::new();
    append_ids(&mut enemy_mix, &mission.enemy_mix);
    let mut hazard_mix: Vec<String> = Vec::new();
    append_ids(&mut hazard_mix, &mission.hazard_mix);
    let route_name;
    let raw_reward: i64;
    let mut route_hash: u64 = 0;
    match choice {
        Some(ch) => {
            append_ids(&mut enemy_mix, &ch.enemy_add);
            append_ids(&mut hazard_mix, &ch.hazard_add);
            route_name = ch.name.clone();
            raw_reward = mission.base_reward + ch.reward_delta;
            route_hash = route_seed_of(ch.id.as_str());
        },
        None => {
            route_name = mission.route.clone();
            raw_reward = mission.base_reward;
        },
    }
    proof {
        assert(crate::campaign::id_views(Seq::<String>::empty()) =~= Seq::<Seq<char>>::empty());
    }
    let base_reward = if raw_reward > 0 {
        raw_reward
    } else {
        0
    };
    let seed = match expedition_seed {
        Some(s) => s,
        None => {
            let completions: u64 = match campaign.records.get(mission.id.as_str()) {
                Some(record) => record.completions as u64,
                None => 0,
            };
            mission.order as u64 * 10_007 + completions + route_hash
        },
    };
    RouteSetup { route_name, enemy_mix, hazard_mix, base_reward, seed }
}

/// The route setup of a run of `mission`, or `None` when its reward sum or
/// its seed would overflow.
pub fn try_resolve_route(mission: &MissionDef, campaign: &CampaignState, expedition_seed: Option<u64>) -> (r: Option<
    RouteSetup,
>)
    requires
        campaign.wf(),
    ensures
        r is None <==> !route_fits(*mission, *campaign, expedition_seed),
        r matches Some(s) ==> route_setup_is(*mission, *campaign, expedition_seed, s),
{
    let choice = match expedition_seed {
        None => campaign.selected_route_choice(mission),
        Some(_) => None,
    };
    match choice {
        Some(ch) => {
            if mission.base_reward.checked_add(ch.reward_delta).is_none() {
                return None;
            }
        },
        None => {},
    }
    if expedition_seed.is_none() {
        let completions: u64 = match campaign.records.get(mission.id.as_str()) {
            Some(record) => record.completions as u64,
            None => 0,
        };
        let hash: u64 = match choice {
            Some(ch) => route_seed_of(ch.id.as_str()),
            None => 0,
        };
        let base: u64 = mission.order as u64 * 10_007 + completions;
        if base.checked_add(hash).is_none() {
            return None;
        }
    }
    Some(resolve_route(mission, campaign, expedition_seed))
}

} // verus!
