//! Guard kinds: identifiers, roster facts, prices and star-upgrade costs.

use vstd::prelude::*;
use crate::text::str_eq;

verus! {

/// The six hireable guard kinds: three melee, three ranged.
#[derive(Debug, Clone, Copy, PartialEq, Eq, Structural)]
pub enum GuardKind {
    Swordsman,
    ShieldGuard,
    Spearman,
    Archer,
    CrossbowGuard,
    Mage,
}

impl GuardKind {
    /// Save-file identifier of the kind.
    pub open spec fn spec_id(self) -> Seq<char> {
        match self {
            GuardKind::Swordsman => "swordsman"@,
            GuardKind::ShieldGuard => "shield_guard"@,
            GuardKind::Spearman => "spearman"@,
            GuardKind::Archer => "archer"@,
            GuardKind::CrossbowGuard => "crossbow_guard"@,
            GuardKind::Mage => "mage"@,
        }
    }

    /// The kind an identifier names; unknown identifiers fall back to the swordsman.
    pub open spec fn spec_from_id(id: Seq<char>) -> GuardKind {
        if id == "shield_guard"@ {
            GuardKind::ShieldGuard
        } else if id == "spearman"@ {
            GuardKind::Spearman
        } else if id == "archer"@ {
            GuardKind::Archer
        } else if id == "crossbow_guard"@ {
            GuardKind::CrossbowGuard
        } else if id == "mage"@ {
            GuardKind::Mage
        } else {
            GuardKind::Swordsman
        }
    }

    pub open spec fn spec_is_ranged(self) -> bool {
        self is Archer || self is CrossbowGuard || self is Mage
    }

    /// Position of the kind in the roster order of `all`.
    pub open spec fn spec_position(self) -> int {
        match self {
            GuardKind::Swordsman => 0,
            GuardKind::ShieldGuard => 1,
            GuardKind::Spearman => 2,
            GuardKind::Archer => 3,
            GuardKind::CrossbowGuard => 4,
            GuardKind::Mage => 5,
        }
    }

    /// Position of the kind in the roster order of `all`.
    pub fn position(self) -> (r: usize)
        ensures
            r as int == self.spec_position(),
    {
        match self {
            GuardKind::Swordsman => 0,
            GuardKind::ShieldGuard => 1,
            GuardKind::Spearman => 2,
            GuardKind::Archer => 3,
            GuardKind::CrossbowGuard => 4,
            GuardKind::Mage => 5,
        }
    }

    pub open spec fn spec_all() -> Seq<GuardKind> {
        seq![
            GuardKind::Swordsman,
            GuardKind::ShieldGuard,
            GuardKind::Spearman,
            GuardKind::Archer,
            GuardKind::CrossbowGuard,
            GuardKind::Mage,
        ]
    }

    pub open spec fn spec_unlock_level(self) -> u32 {
        match self {
            GuardKind::Swordsman => 1,
            GuardKind::ShieldGuard => 2,
            GuardKind::Spearman => 3,
            GuardKind::Archer => 1,
            GuardKind::CrossbowGuard => 2,
            GuardKind::Mage => 3,
        }
    }

    pub open spec fn spec_hire_cost(self) -> i64 {
        match self {
            GuardKind::Swordsman => 0,
            GuardKind::ShieldGuard => 120,
            GuardKind::Spearman => 170,
            GuardKind::Archer => 0,
            GuardKind::CrossbowGuard => 135,
            GuardKind::Mage => 190,
        }
    }

    /// Gold to raise a guard from `stars` to `stars + 1`; none from three stars.
    pub open spec fn spec_star_upgrade_cost(self, stars: u8) -> Option<i64> {
        if stars == 1 {
            Some(
                match self {
                    GuardKind::Swordsman | GuardKind::Archer => 90,
                    GuardKind::ShieldGuard | GuardKind::CrossbowGuard => 120,
                    GuardKind::Spearman | GuardKind::Mage => 145,
                },
            )
        } else if stars == 2 {
            Some(
                match self {
                    GuardKind::Swordsman | GuardKind::Archer => 160,
                    GuardKind::ShieldGuard | GuardKind::CrossbowGuard => 205,
                    GuardKind::Spearman | GuardKind::Mage => 240,
                },
            )
        } else {
            None
        }
    }

    pub fn all() -> (r: [GuardKind; 6])
        ensures
            r@ == Self::spec_all(),
    {
        let r = [
            GuardKind::Swordsman,
            GuardKind::ShieldGuard,
            GuardKind::Spearman,
            GuardKind::Archer,
            GuardKind::CrossbowGuard,
            GuardKind::Mage,
        ];
        assert(r@ =~= Self::spec_all());
        r
    }

    pub fn melee_all() -> (r: [GuardKind; 3])
        ensures
            r@ == seq![GuardKind::Swordsman, GuardKind::ShieldGuard, GuardKind::Spearman],
    {
        let r = [GuardKind::Swordsman, GuardKind::ShieldGuard, GuardKind::Spearman];
        assert(r@ =~= seq![GuardKind::Swordsman, GuardKind::ShieldGuard, GuardKind::Spearman]);
        r
    }

    pub fn ranged_all() -> (r: [GuardKind; 3])
        ensures
            r@ == seq![GuardKind::Archer, GuardKind::CrossbowGuard, GuardKind::Mage],
    {
        let r = [GuardKind::Archer, GuardKind::CrossbowGuard, GuardKind::Mage];
        assert(r@ =~= seq![GuardKind::Archer, GuardKind::CrossbowGuard, GuardKind::Mage]);
        r
    }

    pub fn from_id(id: &str) -> (k: GuardKind)
        ensures
            k == Self::spec_from_id(id@),
    {
        if str_eq(id, "shield_guard") {
            GuardKind::ShieldGuard
        } else if str_eq(id, "spearman") {
            GuardKind::Spearman
        } else if str_eq(id, "archer") {
            GuardKind::Archer
        } else if str_eq(id, "crossbow_guard") {
            GuardKind::CrossbowGuard
        } else if str_eq(id, "mage") {
            GuardKind::Mage
        } else {
            GuardKind::Swordsman
        }
    }

    pub fn id(self) -> (r: &'static str)
        ensures
            r@ == self.spec_id(),
    {
        match self {
            GuardKind::Swordsman => "swordsman",
            GuardKind::ShieldGuard => "shield_guard",
            GuardKind::Spearman => "spearman",
            GuardKind::Archer => "archer",
            GuardKind::CrossbowGuard => "crossbow_guard",
            GuardKind::Mage => "mage",
        }
    }

    pub fn label(self) -> (r: &'static str)
        ensures
            r@ == match self {
                GuardKind::Swordsman => "Swordsman"@,
                GuardKind::ShieldGuard => "Shield Guard"@,
                GuardKind::Spearman => "Spearman"@,
                GuardKind::Archer => "Archer"@,
                GuardKind::CrossbowGuard => "Crossbow Guard"@,
                GuardKind::Mage => "Mage"@,
            },
    {
        match self {
            GuardKind::Swordsman => "Swordsman",
            GuardKind::ShieldGuard => "Shield Guard",
            GuardKind::Spearman => "Spearman",
            GuardKind::Archer => "Archer",
            GuardKind::CrossbowGuard => "Crossbow Guard",
            GuardKind::Mage => "Mage",
        }
    }

    pub fn description(self) -> (r: &'static str)
        ensures
            r@ == match self {
                GuardKind::Swordsman => "Balanced melee guard with reliable damage and speed."@,
                GuardKind::ShieldGuard => "Tough defender that pulls enemies off the carriage."@,
                GuardKind::Spearman => "Longer reach and extra damage against charging wolves."@,
                GuardKind::Archer => "Fast ranged guard that can mount the carriage and pick off weak enemies."@,
                GuardKind::CrossbowGuard => "Slow ranged guard with heavy bolts that punish armored targets."@,
                GuardKind::Mage => "Arcane ranged guard with splash damage and late-star support magic."@,
            },
    {
        match self {
            GuardKind::Swordsman => "Balanced melee guard with reliable damage and speed.",
            GuardKind::ShieldGuard => "Tough defender that pulls enemies off the carriage.",
            GuardKind::Spearman => "Longer reach and extra damage against charging wolves.",
            GuardKind::Archer => "Fast ranged guard that can mount the carriage and pick off weak enemies.",
            GuardKind::CrossbowGuard => "Slow ranged guard with heavy bolts that punish armored targets.",
            GuardKind::Mage => "Arcane ranged guard with splash damage and late-star support magic.",
        }
    }

    pub fn unlock_level(self) -> (r: u32)
        ensures
            r == self.spec_unlock_level(),
    {
        match self {
            GuardKind::Swordsman => 1,
            GuardKind::ShieldGuard => 2,
            GuardKind::Spearman => 3,
            GuardKind::Archer => 1,
            GuardKind::CrossbowGuard => 2,
            GuardKind::Mage => 3,
        }
    }

    pub fn hire_cost(self) -> (r: i64)
        ensures
            r == self.spec_hire_cost(),
    {
        match self {
            GuardKind::Swordsman => 0,
            GuardKind::ShieldGuard => 120,
            GuardKind::Spearman => 170,
            GuardKind::Archer => 0,
            GuardKind::CrossbowGuard => 135,
            GuardKind::Mage => 190,
        }
    }

    pub fn is_ranged(self) -> (r: bool)
        ensures
            r == self.spec_is_ranged(),
    {
        match self {
            GuardKind::Archer | GuardKind::CrossbowGuard | GuardKind::Mage => true,
            _ => false,
        }
    }

    pub fn is_melee(self) -> (r: bool)
        ensures
            r == !self.spec_is_ranged(),
    {
        !self.is_ranged()
    }

    pub fn star_upgrade_cost(self, current_stars: u8) -> (r: Option<i64>)
        ensures
            r == self.spec_star_upgrade_cost(current_stars),
    {
        if current_stars == 1 {
            Some(
                match self {
                    GuardKind::Swordsman | GuardKind::Archer => 90,
                    GuardKind::ShieldGuard | GuardKind::CrossbowGuard => 120,
                    GuardKind::Spearman | GuardKind::Mage => 145,
                },
            )
        } else if current_stars == 2 {
            Some(
                match self {
                    GuardKind::Swordsman | GuardKind::Archer => 160,
                    GuardKind::ShieldGuard | GuardKind::CrossbowGuard => 205,
                    GuardKind::Spearman | GuardKind::Mage => 240,
                },
            )
        } else {
            None
        }
    }

    /// One-line ability text for a kind at a star level (three and above read
    /// as three stars).
    pub fn ability_summary(self, stars: u8) -> (r: &'static str)
        ensures
            r@ == Self::spec_ability_summary(self, stars),
    {
        match self {
            GuardKind::Swordsman => if stars == 1 { "1*: Reliable melee attacks." } else if stars == 2 { "2*: Faster sword recovery." } else { "3*: Cleave damages a second nearby enemy." },
            GuardKind::ShieldGuard => if stars == 1 { "1*: High armor and threat." } else if stars == 2 { "2*: Stronger threat pull." } else { "3*: Shield Wall reduces nearby carriage damage." },
            GuardKind::Spearman => if stars == 1 { "1*: Long reach, good against wolves." } else if stars == 2 { "2*: Wider brace range." } else { "3*: Heavy brace damage against charging enemies." },
            GuardKind::Archer => if stars == 1 { "1*: Quick mounted arrows." } else if stars == 2 { "2*: Quicker reload." } else { "3*: Piercing shot can hit a second target." },
            GuardKind::CrossbowGuard => if stars == 1 { "1*: Slow heavy bolts." } else if stars == 2 { "2*: Armor-piercing undead bolts." } else { "3*: Pinning shots slow targets." },
            GuardKind::Mage => if stars == 1 { "1*: Magic bolts ignore some armor." } else if stars == 2 { "2*: Splash damage around the target." } else { "3*: Healing charm restores an injured guard." },
        }
    }

    pub open spec fn spec_ability_summary(self, stars: u8) -> Seq<char> {
        match self {
            GuardKind::Swordsman => if stars == 1 { "1*: Reliable melee attacks."@ } else if stars == 2 { "2*: Faster sword recovery."@ } else { "3*: Cleave damages a second nearby enemy."@ },
            GuardKind::ShieldGuard => if stars == 1 { "1*: High armor and threat."@ } else if stars == 2 { "2*: Stronger threat pull."@ } else { "3*: Shield Wall reduces nearby carriage damage."@ },
            GuardKind::Spearman => if stars == 1 { "1*: Long reach, good against wolves."@ } else if stars == 2 { "2*: Wider brace range."@ } else { "3*: Heavy brace damage against charging enemies."@ },
            GuardKind::Archer => if stars == 1 { "1*: Quick mounted arrows."@ } else if stars == 2 { "2*: Quicker reload."@ } else { "3*: Piercing shot can hit a second target."@ },
            GuardKind::CrossbowGuard => if stars == 1 { "1*: Slow heavy bolts."@ } else if stars == 2 { "2*: Armor-piercing undead bolts."@ } else { "3*: Pinning shots slow targets."@ },
            GuardKind::Mage => if stars == 1 { "1*: Magic bolts ignore some armor."@ } else if stars == 2 { "2*: Splash damage around the target."@ } else { "3*: Healing charm restores an injured guard."@ },
        }
    }
}

/// Every kind's identifier names that kind again: `from_id(id(k)) == k`.
pub proof fn lemma_guard_id_round_trip(k: GuardKind)
    ensures
        GuardKind::spec_from_id(k.spec_id()) == k,
{
    reveal_strlit("swordsman");
    reveal_strlit("shield_guard");
    reveal_strlit("spearman");
    reveal_strlit("archer");
    reveal_strlit("crossbow_guard");
    reveal_strlit("mage");
    assert(k.spec_id() != "spearman"@ || k == GuardKind::Spearman) by {
        if k.spec_id() == "spearman"@ && k != GuardKind::Spearman {
            assert(k.spec_id()[2] == "spearman"@[2]);
        }
    }
    assert(k.spec_id() != "archer"@ || k == GuardKind::Archer) by {
        if k.spec_id() == "archer"@ && k != GuardKind::Archer {
            assert(k.spec_id()[0] == "archer"@[0]);
            assert(k.spec_id()[1] == "archer"@[1]);
        }
    }
    assert(k.spec_id() != "crossbow_guard"@ || k == GuardKind::CrossbowGuard) by {
        if k.spec_id() == "crossbow_guard"@ && k != GuardKind::CrossbowGuard {
            assert(k.spec_id()[0] == "crossbow_guard"@[0]);
        }
    }
    assert(k.spec_id() != "mage"@ || k == GuardKind::Mage) by {
        if k.spec_id() == "mage"@ && k != GuardKind::Mage {
            assert(k.spec_id()[0] == "mage"@[0]);
        }
    }
    assert(k.spec_id() != "shield_guard"@ || k == GuardKind::ShieldGuard) by {
        if k.spec_id() == "shield_guard"@ && k != GuardKind::ShieldGuard {
            assert(k.spec_id()[1] == "shield_guard"@[1]);
        }
    }
}

/// Every kind's identifier is non-empty.
pub proof fn lemma_guard_id_nonempty(k: GuardKind)
    ensures
        k.spec_id().len() > 0,
{
    reveal_strlit("swordsman");
    reveal_strlit("shield_guard");
    reveal_strlit("spearman");
    reveal_strlit("archer");
    reveal_strlit("crossbow_guard");
    reveal_strlit("mage");
}

/// Distinct kinds have distinct identifiers.
pub proof fn lemma_guard_ids_distinct(a: GuardKind, b: GuardKind)
    ensures
        a.spec_id() == b.spec_id() ==> a == b,
{
    lemma_guard_id_round_trip(a);
    lemma_guard_id_round_trip(b);
}

/// A kind is found at its index in the roster order.
pub proof fn lemma_guard_index(k: GuardKind)
    ensures
        0 <= k.spec_position() < 6,
        GuardKind::spec_all()[k.spec_position()] == k,
        GuardKind::spec_all().len() == 6,
{
}

/// Each guard can be raised from one to two and from two to three stars, the
/// second raise costing more than the first, and never past three stars.
pub proof fn lemma_star_raises_grow_costlier(kind: GuardKind)
    ensures
        kind.spec_star_upgrade_cost(1) is Some,
        kind.spec_star_upgrade_cost(2) is Some,
        kind.spec_star_upgrade_cost(1)->0 > 0,
        kind.spec_star_upgrade_cost(2)->0 > kind.spec_star_upgrade_cost(1)->0,
        forall|stars: u8| stars >= 3 ==> (#[trigger] kind.spec_star_upgrade_cost(stars)) is None,
{
}

} // verus!
