//! Content checks for shipped mission data: every referenced enemy and hazard
//! exists, and the mission unlock graph is sound and fully reachable.

use vstd::prelude::*;
use crate::text::{str_eq, push_str};
use crate::kinds::{EnemyKind, HazardKind};
use crate::missions::{MissionDef, RouteChoiceDef};
use crate::campaign::{contains_id, ids_contain};

verus! {

broadcast use vstd::seq_lib::group_seq_properties;

/// `parts` joined with `sep` between neighbours.
pub open spec fn join(parts: Seq<Seq<char>>, sep: Seq<char>) -> Seq<char>
    decreases parts.len(),
{
    if parts.len() == 0 {
        Seq::empty()
    } else if parts.len() == 1 {
        parts[0]
    } else {
        join(parts.drop_last(), sep) + sep + parts.last()
    }
}

/// Joins `parts` with `sep` between neighbours.
pub fn join_strings(parts: &Vec<String>, sep: &str) -> (r: String)
    ensures
        r@ == join(crate::campaign::id_views(parts@), sep@),
{
    let ghost views = crate::campaign::id_views(parts@);
    let mut r = String::new();
    let mut i: usize = 0;
    while i < parts.len()
        invariant
            i <= parts@.len(),
            views == crate::campaign::id_views(parts@),
            r@ == join(views.take(i as int), sep@),
        decreases parts@.len() - i,
    {
        proof {
            assert(views.take(i + 1).drop_last() =~= views.take(i as int));
            assert(views.take(i + 1).last() == parts@[i as int]@);
        }
        if i > 0 {
            push_str(&mut r, sep);
        } else {
            assert(views.take(0) =~= Seq::<Seq<char>>::empty());
        }
        push_str(&mut r, parts[i].as_str());
        proof {
            if i == 0 {
                assert(views.take(1).len() == 1);
                assert(r@ =~= views.take(1)[0]);
            } else {
                assert(r@ =~= join(views.take(i as int), sep@) + sep@ + views.take(i + 1).last());
            }
        }
        i = i + 1;
    }
    assert(views.take(parts@.len() as int) =~= views);
    r
}

/// Messages for the enemy identifiers in `ids` that name no enemy kind.
pub open spec fn unknown_enemy_msgs(location: Seq<char>, ids: Seq<String>) -> Seq<Seq<char>>
    decreases ids.len(),
{
    if ids.len() == 0 {
        Seq::empty()
    } else {
        unknown_enemy_msgs(location, ids.drop_last()) + if EnemyKind::spec_from_id(ids.last()@) is None {
            seq![location + ": enemy '"@ + ids.last()@ + "'"@]
        } else {
            Seq::empty()
        }
    }
}

/// Messages for the hazard identifiers in `ids` that name no hazard kind.
pub open spec fn unknown_hazard_msgs(location: Seq<char>, ids: Seq<String>) -> Seq<Seq<char>>
    decreases ids.len(),
{
    if ids.len() == 0 {
        Seq::empty()
    } else {
        unknown_hazard_msgs(location, ids.drop_last()) + if HazardKind::spec_from_id(ids.last()@) is None {
            seq![location + ": hazard '"@ + ids.last()@ + "'"@]
        } else {
            Seq::empty()
        }
    }
}

/// Messages for the route choices of a mission, located as `mission/route`.
pub open spec fn route_choice_msgs(mission_id: Seq<char>, choices: Seq<RouteChoiceDef>) -> Seq<Seq<char>>
    decreases choices.len(),
{
    if choices.len() == 0 {
        Seq::empty()
    } else {
        let c = choices.last();
        let location = mission_id + "/"@ + c.id@;
        route_choice_msgs(mission_id, choices.drop_last()) + unknown_enemy_msgs(location, c.enemy_add@)
            + unknown_hazard_msgs(location, c.hazard_add@)
    }
}

/// Messages for one mission: its enemy mix, hazard mix, then its routes.
pub open spec fn mission_content_msgs(m: MissionDef) -> Seq<Seq<char>> {
    unknown_enemy_msgs(m.id@, m.enemy_mix@) + unknown_hazard_msgs(m.id@, m.hazard_mix@) + route_choice_msgs(
        m.id@,
        m.route_choices@,
    )
}

/// Messages for every mission, in order.
pub open spec fn content_msgs(missions: Seq<&MissionDef>) -> Seq<Seq<char>>
    decreases missions.len(),
{
    if missions.len() == 0 {
        Seq::empty()
    } else {
        content_msgs(missions.drop_last()) + mission_content_msgs(*missions.last())
    }
}

fn push_view(out: &mut Vec<String>, s: String)
    ensures
        crate::campaign::id_views(final(out)@) == crate::campaign::id_views(old(out)@).push(s@),
{
    let ghost before = out@;
    out.push(s);
    proof {
        crate::ids::lemma_id_views_push(before, out@.last());
    }
}

fn check_enemies(out: &mut Vec<String>, location: &str, ids: &Vec<String>)
    ensures
        crate::campaign::id_views(final(out)@) == crate::campaign::id_views(old(out)@) + unknown_enemy_msgs(location@, ids@),
{
    let mut i: usize = 0;
    assert(ids@.take(0) =~= Seq::<String>::empty());
    assert(crate::campaign::id_views(out@) =~= crate::campaign::id_views(old(out)@) + unknown_enemy_msgs(location@, ids@.take(0)));
    while i < ids.len()
        invariant
            i <= ids@.len(),
            crate::campaign::id_views(out@) == crate::campaign::id_views(old(out)@) + unknown_enemy_msgs(location@, ids@.take(i as int)),
        decreases ids@.len() - i,
    {
        proof {
            assert(ids@.take(i + 1).drop_last() =~= ids@.take(i as int));
            assert(ids@.take(i + 1).last() == ids@[i as int]);
        }
        let ghost before = crate::campaign::id_views(out@);
        if EnemyKind::from_id(ids[i].as_str()).is_none() {
            let mut m = String::new();
            push_str(&mut m, location);
            push_str(&mut m, ": enemy '");
            push_str(&mut m, ids[i].as_str());
            push_str(&mut m, "'");
            push_view(out, m);
        }
        proof {
            assert(crate::campaign::id_views(out@) =~= crate::campaign::id_views(old(out)@) + unknown_enemy_msgs(location@, ids@.take(i + 1)));
        }
        i = i + 1;
    }
    assert(ids@.take(ids@.len() as int) =~= ids@);
}

fn check_hazards(out: &mut Vec<String>, location: &str, ids: &Vec<String>)
    ensures
        crate::campaign::id_views(final(out)@) == crate::campaign::id_views(old(out)@) + unknown_hazard_msgs(location@, ids@),
{
    let mut i: usize = 0;
    assert(ids@.take(0) =~= Seq::<String>::empty());
    assert(crate::campaign::id_views(out@) =~= crate::campaign::id_views(old(out)@) + unknown_hazard_msgs(location@, ids@.take(0)));
    while i < ids.len()
        invariant
            i <= ids@.len(),
            crate::campaign::id_views(out@) == crate::campaign::id_views(old(out)@) + unknown_hazard_msgs(location@, ids@.take(i as int)),
        decreases ids@.len() - i,
    {
        proof {
            assert(ids@.take(i + 1).drop_last() =~= ids@.take(i as int));
            assert(ids@.take(i + 1).last() == ids@[i as int]);
        }
        if HazardKind::from_id(ids[i].as_str()).is_none() {
            let mut m = String::new();
            push_str(&mut m, location);
            push_str(&mut m, ": hazard '");
            push_str(&mut m, ids[i].as_str());
            push_str(&mut m, "'");
            push_view(out, m);
        }
        proof {
            assert(crate::campaign::id_views(out@) =~= crate::campaign::id_views(old(out)@) + unknown_hazard_msgs(location@, ids@.take(i + 1)));
        }
        i = i + 1;
    }
    assert(ids@.take(ids@.len() as int) =~= ids@);
}

fn check_mission(out: &mut Vec<String>, mission: &MissionDef)
    ensures
        crate::campaign::id_views(final(out)@) == crate::campaign::id_views(old(out)@) + mission_content_msgs(*mission),
{
    check_enemies(out, mission.id.as_str(), &mission.enemy_mix);
    check_hazards(out, mission.id.as_str(), &mission.hazard_mix);
    let ghost after_mix = crate::campaign::id_views(out@);
    let choices = &mission.route_choices;
    let mut i: usize = 0;
    assert(choices@.take(0) =~= Seq::<RouteChoiceDef>::empty());
    assert(crate::campaign::id_views(out@) =~= after_mix + route_choice_msgs(mission.id@, choices@.take(0)));
    while i < choices.len()
        invariant
            i <= choices@.len(),
            crate::campaign::id_views(out@) == after_mix + route_choice_msgs(mission.id@, choices@.take(i as int)),
        decreases choices@.len() - i,
    {
        proof {
            assert(choices@.take(i + 1).drop_last() =~= choices@.take(i as int));
            assert(choices@.take(i + 1).last() == choices@[i as int]);
        }
        let mut location = String::new();
        push_str(&mut location, mission.id.as_str());
        push_str(&mut location, "/");
        push_str(&mut location, choices[i].id.as_str());
        check_enemies(out, location.as_str(), &choices[i].enemy_add);
        check_hazards(out, location.as_str(), &choices[i].hazard_add);
        proof {
            assert(crate::campaign::id_views(out@) =~= after_mix + route_choice_msgs(mission.id@, choices@.take(i + 1)));
        }
        i = i + 1;
    }
    assert(choices@.take(choices@.len() as int) =~= choices@);
    assert(crate::campaign::id_views(out@) =~= crate::campaign::id_views(old(out)@) + mission_content_msgs(*mission));
}

/// Every enemy and hazard identifier that mission data references, in the
/// mixes and in the route choices, must name a known kind. The error lists
/// each unknown one with where it was found.
pub fn validate_mission_content(missions: &[&MissionDef]) -> (r: Result<(), String>)
    ensures
        r is Ok <==> content_msgs(missions@).len() == 0,
        r matches Err(msg) ==> msg@ == "unknown content ids -> "@ + join(content_msgs(missions@), ", "@),
{
    let mut unknown: Vec<String> = Vec::new();
    let mut i: usize = 0;
    assert(missions@.take(0) =~= Seq::<&MissionDef>::empty());
    assert(crate::campaign::id_views(unknown@) =~= content_msgs(missions@.take(0)));
    while i < missions.len()
        invariant
            i <= missions@.len(),
            crate::campaign::id_views(unknown@) == content_msgs(missions@.take(i as int)),
        decreases missions@.len() - i,
    {
        proof {
            assert(missions@.take(i + 1).drop_last() =~= missions@.take(i as int));
            assert(missions@.take(i + 1).last() == missions@[i as int]);
        }
        check_mission(&mut unknown, missions[i]);
        i = i + 1;
    }
    assert(missions@.take(missions@.len() as int) =~= missions@);
    if unknown.len() == 0 {
        Ok(())
    } else {
        let mut msg = String::new();
        push_str(&mut msg, "unknown content ids -> ");
        let joined = join_strings(&unknown, ", ");
        push_str(&mut msg, joined.as_str());
        Err(msg)
    }
}

/// Whether some mission has identifier `id`.
pub open spec fn names_mission(missions: Seq<&MissionDef>, id: Seq<char>) -> bool {
    exists|j: int| 0 <= j < missions.len() && missions[j].id@ == id
}

/// Messages for the identifiers in `ids` (referenced by mission `mission_id`)
/// that name no mission.
pub open spec fn unknown_ref_msgs(missions: Seq<&MissionDef>, mission_id: Seq<char>, ids: Seq<String>) -> Seq<Seq<char>>
    decreases ids.len(),
{
    if ids.len() == 0 {
        Seq::empty()
    } else {
        unknown_ref_msgs(missions, mission_id, ids.drop_last()) + if !names_mission(missions, ids.last()@) {
            seq![mission_id + ": references unknown mission '"@ + ids.last()@ + "'"@]
        } else {
            Seq::empty()
        }
    }
}

/// Messages for every unknown prerequisite or branch reference, mission by mission.
pub open spec fn reference_msgs(all: Seq<&MissionDef>, missions: Seq<&MissionDef>) -> Seq<Seq<char>>
    decreases missions.len(),
{
    if missions.len() == 0 {
        Seq::empty()
    } else {
        let m = missions.last();
        reference_msgs(all, missions.drop_last()) + unknown_ref_msgs(all, m.id@, m.prerequisite_missions@)
            + unknown_ref_msgs(all, m.id@, m.unlock_any_missions@)
    }
}

/// A mission unlocks once every prerequisite and, if it names branches, one
/// branch is among the completed identifiers `done`.
pub open spec fn unlockable_with(m: MissionDef, done: Set<Seq<char>>) -> bool {
    &&& forall|i: int| 0 <= i < m.prerequisite_missions@.len() ==> done.contains(#[trigger] m.prerequisite_missions@[i]@)
    &&& (m.unlock_any_missions@.len() == 0 || exists|i: int|
        0 <= i < m.unlock_any_missions@.len() && done.contains(#[trigger] m.unlock_any_missions@[i]@))
}

/// `done` holds every mission that it would unlock.
pub open spec fn closed_under(missions: Seq<&MissionDef>, done: Set<Seq<char>>) -> bool {
    forall|i: int| 0 <= i < missions.len() && unlockable_with(*missions[i], done) ==> done.contains(#[trigger] missions[i].id@)
}

/// A mission can be reached from a fresh campaign: it is in every set of
/// identifiers that holds each mission it would unlock (the least fixpoint).
pub open spec fn always_unlockable(missions: Seq<&MissionDef>, id: Seq<char>) -> bool {
    forall|done: Set<Seq<char>>| #[trigger] closed_under(missions, done) ==> done.contains(id)
}

/// Messages for the missions that can never be reached.
pub open spec fn unreachable_msgs(all: Seq<&MissionDef>, missions: Seq<&MissionDef>) -> Seq<Seq<char>>
    decreases missions.len(),
{
    if missions.len() == 0 {
        Seq::empty()
    } else {
        unreachable_msgs(all, missions.drop_last()) + if !always_unlockable(all, missions.last().id@) {
            seq![missions.last().id@ + ": unreachable (its prerequisites can never all be met)"@]
        } else {
            Seq::empty()
        }
    }
}

/// Every problem with the unlock graph: unknown references, then unreachable missions.
pub open spec fn graph_msgs(missions: Seq<&MissionDef>) -> Seq<Seq<char>> {
    reference_msgs(missions, missions) + unreachable_msgs(missions, missions)
}

/// Identifiers of the flagged missions.
pub open spec fn flagged_ids(missions: Seq<&MissionDef>, flags: Seq<bool>) -> Set<Seq<char>> {
    Set::new(|id: Seq<char>| exists|j: int| 0 <= j < flags.len() && flags[j] && missions[j].id@ == id)
}

/// Number of `true` entries.
pub open spec fn count_true(s: Seq<bool>) -> nat
    decreases s.len(),
{
    if s.len() == 0 {
        0
    } else {
        count_true(s.drop_last()) + if s.last() { 1nat } else { 0nat }
    }
}

proof fn lemma_count_true_le(s: Seq<bool>)
    ensures
        count_true(s) <= s.len(),
    decreases s.len(),
{
    if s.len() > 0 {
        lemma_count_true_le(s.drop_last());
    }
}

proof fn lemma_count_true_none(s: Seq<bool>)
    requires
        forall|j: int| 0 <= j < s.len() ==> !s[j],
    ensures
        count_true(s) == 0,
    decreases s.len(),
{
    if s.len() > 0 {
        lemma_count_true_none(s.drop_last());
    }
}

proof fn lemma_count_true_set(s: Seq<bool>, i: int)
    requires
        0 <= i < s.len(),
        !s[i],
    ensures
        count_true(s.update(i, true)) == count_true(s) + 1,
    decreases s.len(),
{
    let t = s.update(i, true);
    if i == s.len() - 1 {
        assert(t.drop_last() =~= s.drop_last());
    } else {
        assert(t.drop_last() =~= s.drop_last().update(i, true));
        lemma_count_true_set(s.drop_last(), i);
    }
}

/// Every flagged mission can be reached.
pub open spec fn flags_sound(missions: Seq<&MissionDef>, flags: Seq<bool>) -> bool {
    forall|j: int| 0 <= j < flags.len() && flags[j] ==> always_unlockable(missions, #[trigger] missions[j].id@)
}

proof fn lemma_flag_step(missions: Seq<&MissionDef>, flags: Seq<bool>, i: int)
    requires
        flags.len() == missions.len(),
        0 <= i < missions.len(),
        flags_sound(missions, flags),
        unlockable_with(*missions[i], flagged_ids(missions, flags)),
    ensures
        flags_sound(missions, flags.update(i, true)),
{
    let r = flagged_ids(missions, flags);
    assert forall|done: Set<Seq<char>>| #[trigger] closed_under(missions, done) implies done.contains(missions[i].id@) by {
        assert forall|id: Seq<char>| r.contains(id) implies done.contains(id) by {
            let j = choose|j: int| 0 <= j < flags.len() && flags[j] && missions[j].id@ == id;
            assert(always_unlockable(missions, missions[j].id@));
        }
        let m = *missions[i];
        assert forall|k: int| 0 <= k < m.prerequisite_missions@.len() implies done.contains(#[trigger] m.prerequisite_missions@[k]@) by {
            assert(r.contains(m.prerequisite_missions@[k]@));
        }
        if m.unlock_any_missions@.len() > 0 {
            let k = choose|k: int| 0 <= k < m.unlock_any_missions@.len() && r.contains(#[trigger] m.unlock_any_missions@[k]@);
            assert(done.contains(m.unlock_any_missions@[k]@));
        }
        assert(unlockable_with(m, done));
    }
    let t = flags.update(i, true);
    assert forall|j: int| 0 <= j < t.len() && t[j] implies always_unlockable(missions, #[trigger] missions[j].id@) by {
        if j != i {
            assert(flags[j]);
        }
    }
}

fn mission_known(missions: &[&MissionDef], id: &str) -> (r: bool)
    ensures
        r == names_mission(missions@, id@),
{
    let mut j: usize = 0;
    while j < missions.len()
        invariant
            j <= missions@.len(),
            forall|k: int| 0 <= k < j ==> missions@[k].id@ != id@,
        decreases missions@.len() - j,
    {
        if str_eq(missions[j].id.as_str(), id) {
            return true;
        }
        j = j + 1;
    }
    false
}

fn check_refs(out: &mut Vec<String>, missions: &[&MissionDef], mission_id: &str, ids: &Vec<String>)
    ensures
        crate::campaign::id_views(final(out)@) == crate::campaign::id_views(old(out)@) + unknown_ref_msgs(missions@, mission_id@, ids@),
{
    let mut i: usize = 0;
    assert(ids@.take(0) =~= Seq::<String>::empty());
    assert(crate::campaign::id_views(out@) =~= crate::campaign::id_views(old(out)@) + unknown_ref_msgs(missions@, mission_id@, ids@.take(0)));
    while i < ids.len()
        invariant
            i <= ids@.len(),
            crate::campaign::id_views(out@) == crate::campaign::id_views(old(out)@) + unknown_ref_msgs(missions@, mission_id@, ids@.take(i as int)),
        decreases ids@.len() - i,
    {
        proof {
            assert(ids@.take(i + 1).drop_last() =~= ids@.take(i as int));
            assert(ids@.take(i + 1).last() == ids@[i as int]);
        }
        if !mission_known(missions, ids[i].as_str()) {
            let mut m = String::new();
            push_str(&mut m, mission_id);
            push_str(&mut m, ": references unknown mission '");
            push_str(&mut m, ids[i].as_str());
            push_str(&mut m, "'");
            push_view(out, m);
        }
        proof {
            assert(crate::campaign::id_views(out@) =~= crate::campaign::id_views(old(out)@) + unknown_ref_msgs(missions@, mission_id@, ids@.take(i + 1)));
        }
        i = i + 1;
    }
    assert(ids@.take(ids@.len() as int) =~= ids@);
}

fn flagged_contains(missions: &[&MissionDef], flags: &Vec<bool>, id: &str) -> (r: bool)
    requires
        flags@.len() == missions@.len(),
    ensures
        r == flagged_ids(missions@, flags@).contains(id@),
{
    let mut j: usize = 0;
    while j < flags.len()
        invariant
            flags@.len() == missions@.len(),
            j <= flags@.len(),
            forall|k: int| 0 <= k < j ==> !(flags@[k] && missions@[k].id@ == id@),
        decreases flags@.len() - j,
    {
        if flags[j] && str_eq(missions[j].id.as_str(), id) {
            return true;
        }
        j = j + 1;
    }
    false
}

fn unlockable_now(missions: &[&MissionDef], flags: &Vec<bool>, m: &MissionDef) -> (r: bool)
    requires
        flags@.len() == missions@.len(),
    ensures
        r == unlockable_with(*m, flagged_ids(missions@, flags@)),
{
    let done = Ghost(flagged_ids(missions@, flags@));
    let mut i: usize = 0;
    while i < m.prerequisite_missions.len()
        invariant
            flags@.len() == missions@.len(),
            done@ == flagged_ids(missions@, flags@),
            i <= m.prerequisite_missions@.len(),
            forall|k: int| 0 <= k < i ==> done@.contains(#[trigger] m.prerequisite_missions@[k]@),
        decreases m.prerequisite_missions@.len() - i,
    {
        if !flagged_contains(missions, flags, m.prerequisite_missions[i].as_str()) {
            return false;
        }
        i = i + 1;
    }
    if m.unlock_any_missions.len() == 0 {
        return true;
    }
    let mut k: usize = 0;
    while k < m.unlock_any_missions.len()
        invariant
            flags@.len() == missions@.len(),
            done@ == flagged_ids(missions@, flags@),
            k <= m.unlock_any_missions@.len(),
            forall|q: int| 0 <= q < m.prerequisite_missions@.len() ==> done@.contains(#[trigger] m.prerequisite_missions@[q]@),
            forall|q: int| 0 <= q < k ==> !done@.contains(#[trigger] m.unlock_any_missions@[q]@),
        decreases m.unlock_any_missions@.len() - k,
    {
        if flagged_contains(missions, flags, m.unlock_any_missions[k].as_str()) {
            assert(done@.contains(m.unlock_any_missions@[k as int]@));
            return true;
        }
        k = k + 1;
    }
    false
}

/// Flags every mission that can be reached, by repeating passes that flag
/// each unflagged mission its flagged predecessors unlock, until a pass
/// changes nothing.
fn reachable_flags(missions: &[&MissionDef]) -> (flags: Vec<bool>)
    ensures
        flags@.len() == missions@.len(),
        forall|id: Seq<char>| flagged_ids(missions@, flags@).contains(id) <==> always_unlockable(missions@, id),
{
    let n = missions.len();
    let mut flags: Vec<bool> = Vec::new();
    let mut q: usize = 0;
    while q < n
        invariant
            q <= n,
            n == missions@.len(),
            flags@.len() == q,
            forall|j: int| 0 <= j < q ==> !flags@[j],
        decreases n - q,
    {
        flags.push(false);
        q = q + 1;
    }
    let mut count: usize = 0;
    proof {
        lemma_count_true_none(flags@);
    }
    loop
        invariant
            n == missions@.len(),
            flags@.len() == n,
            count as int == count_true(flags@),
            flags_sound(missions@, flags@),
        decreases n - count,
    {
        let ghost start = flags@;
        let start_count = count;
        proof {
            lemma_count_true_le(flags@);
        }
        let mut changed = false;
        let mut i: usize = 0;
        while i < n
            invariant
                n == missions@.len(),
                flags@.len() == n,
                count as int == count_true(flags@),
                flags_sound(missions@, flags@),
                i <= n,
                start.len() == n,
                start_count as int == count_true(start),
                !changed ==> flags@ == start,
                changed ==> count > start_count,
                count <= n,
                !changed ==> forall|j: int| 0 <= j < i ==> flagged_ids(missions@, flags@).contains(#[trigger] missions@[j].id@)
                    || !unlockable_with(*missions@[j], flagged_ids(missions@, flags@)),
            decreases n - i,
        {
            if flagged_contains(missions, &flags, missions[i].id.as_str()) {
                i = i + 1;
                continue;
            }
            if unlockable_now(missions, &flags, missions[i]) {
                proof {
                    assert(!flags@[i as int]) by {
                        if flags@[i as int] {
                            assert(flagged_ids(missions@, flags@).contains(missions@[i as int].id@));
                        }
                    }
                    lemma_flag_step(missions@, flags@, i as int);
                    lemma_count_true_set(flags@, i as int);
                    lemma_count_true_le(flags@.update(i as int, true));
                }
                flags.set(i, true);
                count = count + 1;
                changed = true;
            }
            i = i + 1;
        }
        if !changed {
            proof {
                let r = flagged_ids(missions@, flags@);
                assert(closed_under(missions@, r));
                assert forall|id: Seq<char>| r.contains(id) <==> always_unlockable(missions@, id) by {
                    if r.contains(id) {
                        let j = choose|j: int| 0 <= j < flags@.len() && flags@[j] && missions@[j].id@ == id;
                        assert(always_unlockable(missions@, missions@[j].id@));
                    }
                    if always_unlockable(missions@, id) {
                        assert(closed_under(missions@, r));
                    }
                }
            }
            return flags;
        }
    }
}

/// The unlock graph must be sound: every prerequisite and branch reference
/// names a mission, and every mission can eventually be unlocked from a fresh
/// campaign (carriage-level gates are always satisfiable, so only completion
/// prerequisites count). The error lists each problem found.
pub fn validate_mission_reachability(missions: &[&MissionDef]) -> (r: Result<(), String>)
    ensures
        r is Ok <==> graph_msgs(missions@).len() == 0,
        r matches Err(msg) ==> msg@ == "mission graph invalid -> "@ + join(graph_msgs(missions@), "; "@),
{
    let mut errors: Vec<String> = Vec::new();
    let mut i: usize = 0;
    assert(missions@.take(0) =~= Seq::<&MissionDef>::empty());
    assert(crate::campaign::id_views(errors@) =~= reference_msgs(missions@, missions@.take(0)));
    while i < missions.len()
        invariant
            i <= missions@.len(),
            crate::campaign::id_views(errors@) == reference_msgs(missions@, missions@.take(i as int)),
        decreases missions@.len() - i,
    {
        proof {
            assert(missions@.take(i + 1).drop_last() =~= missions@.take(i as int));
            assert(missions@.take(i + 1).last() == missions@[i as int]);
        }
        check_refs(&mut errors, missions, missions[i].id.as_str(), &missions[i].prerequisite_missions);
        check_refs(&mut errors, missions, missions[i].id.as_str(), &missions[i].unlock_any_missions);
        i = i + 1;
    }
    assert(missions@.take(missions@.len() as int) =~= missions@);
    let ghost refs = crate::campaign::id_views(errors@);
    let flags = reachable_flags(missions);
    let mut k: usize = 0;
    assert(crate::campaign::id_views(errors@) =~= refs + unreachable_msgs(missions@, missions@.take(0)));
    while k < missions.len()
        invariant
            k <= missions@.len(),
            flags@.len() == missions@.len(),
            forall|id: Seq<char>| flagged_ids(missions@, flags@).contains(id) <==> always_unlockable(missions@, id),
            crate::campaign::id_views(errors@) == refs + unreachable_msgs(missions@, missions@.take(k as int)),
        decreases missions@.len() - k,
    {
        proof {
            assert(missions@.take(k + 1).drop_last() =~= missions@.take(k as int));
            assert(missions@.take(k + 1).last() == missions@[k as int]);
        }
        if !flagged_contains(missions, &flags, missions[k].id.as_str()) {
            let mut m = String::new();
            push_str(&mut m, missions[k].id.as_str());
            push_str(&mut m, ": unreachable (its prerequisites can never all be met)");
            push_view(&mut errors, m);
        }
        proof {
            assert(crate::campaign::id_views(errors@) =~= refs + unreachable_msgs(missions@, missions@.take(k + 1)));
        }
        k = k + 1;
    }
    assert(missions@.take(missions@.len() as int) =~= missions@);
    if errors.len() == 0 {
        Ok(())
    } else {
        let mut msg = String::new();
        push_str(&mut msg, "mission graph invalid -> ");
        let joined = join_strings(&errors, "; ");
        push_str(&mut msg, joined.as_str());
        Err(msg)
    }
}

/// The first problem found with the mission data at startup, unless an
/// earlier error is already being reported: content identifiers are checked
/// before the unlock graph.
pub fn validate_startup_data(missions: &[&MissionDef], startup_error: Option<String>) -> (r: Option<String>)
    ensures
        startup_error is Some ==> r == startup_error,
        startup_error is None ==> (r is None <==> content_msgs(missions@).len() == 0 && graph_msgs(missions@).len()
            == 0),
        startup_error is None && content_msgs(missions@).len() > 0 ==> (r matches Some(msg) && msg@
            == "unknown content ids -> "@ + join(content_msgs(missions@), ", "@)),
        startup_error is None && content_msgs(missions@).len() == 0 && graph_msgs(missions@).len() > 0 ==> (r matches Some(
            msg,
        ) && msg@ == "mission graph invalid -> "@ + join(graph_msgs(missions@), "; "@)),
{
    if startup_error.is_some() {
        return startup_error;
    }
    match validate_mission_content(missions) {
        Err(err) => {
            return Some(err);
        },
        Ok(()) => {},
    }
    match validate_mission_reachability(missions) {
        Err(err) => Some(err),
        Ok(()) => None,
    }
}

} // verus!
