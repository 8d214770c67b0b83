//! The per-turn decisions: target stickiness, the build-order cascade,
//! and the two command strings.

use crate::geom::{find_nearest, first_nearest_idx};
use crate::text::{int_str, push_i32};
use crate::world::{
    barrack_ids, bowman_barrack_ids, first_allied_queen, first_site_at_position, has_queen,
    knight_barrack_ids, resolved_positions, tower_ids, unclaimed_ids, ConstructionSite, GameState,
};
use vstd::prelude::*;

verus! {

/// The structure the build cascade can pick.
#[derive(Debug, Clone, Copy, PartialEq, Eq, Structural)]
pub enum BuildChoice {
    BarracksArcher,
    BarracksKnight,
    Tower,
}

/// The wire keyword for a structure choice.
pub open spec fn keyword_str(c: BuildChoice) -> Seq<char> {
    match c {
        BuildChoice::BarracksArcher => seq![
            'B', 'A', 'R', 'R', 'A', 'C', 'K', 'S', '-', 'A', 'R', 'C', 'H', 'E', 'R',
        ],
        BuildChoice::BarracksKnight => seq![
            'B', 'A', 'R', 'R', 'A', 'C', 'K', 'S', '-', 'K', 'N', 'I', 'G', 'H', 'T',
        ],
        BuildChoice::Tower => seq!['T', 'O', 'W', 'E', 'R'],
    }
}

/// The build-order cascade, a pure function of the current structure
/// counts, evaluated top to bottom: an archer barracks while none is
/// owned, then a knight barracks while none is owned, then a tower while
/// none is owned, then an archer barracks while archers trail knights
/// under the barrack cap of four, and a tower in every remaining case.
pub open spec fn build_choice(cs: Seq<ConstructionSite>) -> BuildChoice {
    if bowman_barrack_ids(cs).len() == 0 {
        BuildChoice::BarracksArcher
    } else if knight_barrack_ids(cs).len() == 0 {
        BuildChoice::BarracksKnight
    } else if tower_ids(cs).len() == 0 {
        BuildChoice::Tower
    } else if bowman_barrack_ids(cs).len() < knight_barrack_ids(cs).len() && barrack_ids(cs).len()
        < 4 {
        BuildChoice::BarracksArcher
    } else {
        BuildChoice::Tower
    }
}

/// The current target still refers to a site in the unclaimed,
/// construction-free set.
pub open spec fn target_qualifies(s: GameState) -> bool {
    match s.target {
        Some(t) => unclaimed_ids(s.construction_sites@).contains(t),
        None => false,
    }
}

/// The target a recomputation settles on: the id of the first site at
/// the position nearest to the queen among the unclaimed,
/// construction-free sites, with `0` as the fallback when no candidate
/// exists or the position resolves to no site.
pub open spec fn recomputed_target(s: GameState) -> i32 {
    let ps = resolved_positions(s.sites@, unclaimed_ids(s.construction_sites@));
    if ps.len() == 0 {
        0
    } else {
        let queen = first_allied_queen(s.units@)->Some_0;
        let p = ps[first_nearest_idx(queen.position, ps)];
        match first_site_at_position(s.sites@, p) {
            Some(site) => site.site_id,
            None => 0,
        }
    }
}

/// The target after one update: kept while it still qualifies, else
/// recomputed.
pub open spec fn new_target(s: GameState) -> i32 {
    match s.target {
        Some(t) => if unclaimed_ids(s.construction_sites@).contains(t) {
            t
        } else {
            recomputed_target(s)
        },
        None => recomputed_target(s),
    }
}

/// The build command line: `BUILD <site_id> <KEYWORD>`.
pub open spec fn build_cmd(id: i32, c: BuildChoice) -> Seq<char> {
    seq!['B', 'U', 'I', 'L', 'D', ' '] + int_str(id as int) + seq![' '] + keyword_str(c)
}

/// The train command line: `TRAIN` followed by ` <site_id>` per barracks.
pub open spec fn train_cmd(ids: Seq<i32>) -> Seq<char> {
    seq!['T', 'R', 'A', 'I', 'N'] + train_ids_str(ids)
}

/// The ` <site_id>` tail of the train command, in list order.
pub open spec fn train_ids_str(ids: Seq<i32>) -> Seq<char>
    decreases ids.len(),
{
    if ids.len() == 0 {
        Seq::empty()
    } else {
        train_ids_str(ids.drop_last()) + seq![' '] + int_str(ids.last() as int)
    }
}

impl GameState {
    /// Keep the current movement target while it still refers to an
    /// unclaimed, construction-free site; otherwise lock onto the
    /// unclaimed, construction-free site nearest to the queen, falling
    /// back to site id `0` when no candidate exists or the nearest
    /// position resolves to no site. Returns the target in force after
    /// the update; no other field changes.
    ///
    /// Two deliberate blemishes of the resolution: the fallback `0` can
    /// coincide with a real site id, and the nearest position is
    /// resolved to the first site standing at it, which on a snapshot
    /// with duplicated positions can be a different site than the
    /// candidate, one that no longer qualifies.
    pub fn update_target(&mut self) -> (r: i32)
        requires
            has_queen(*old(self)),
        ensures
            r == new_target(*old(self)),
            *final(self) == (GameState { target: Some(new_target(*old(self))), ..*old(self) }),
    {
        let mut stale: bool = true;
        match self.target {
            Some(t) => {
                let unclaimed = self.get_sites_id_without_construction();
                let mut i: usize = 0;
                let mut seen: bool = false;
                while i < unclaimed.len()
                    invariant
                        i <= unclaimed@.len(),
                        seen <==> exists|j: int| 0 <= j < i && unclaimed@[j] == t,
                    decreases unclaimed@.len() - i,
                {
                    if unclaimed[i] == t {
                        seen = true;
                    }
                    i += 1;
                }
                proof {
                    assert(seen <==> unclaimed@.contains(t));
                }
                stale = !seen;
            },
            None => {},
        }
        if stale {
            let queen_pos = self.get_queen().position;
            let pos = self.get_sites_pos_without_construction();
            let target = find_nearest(queen_pos, pos);
            self.target = match target {
                Some(p) => match self.get_site_id_by_position(p) {
                    Some(site) => Some(site.site_id),
                    None => Some(0),
                },
                None => Some(0),
            };
        }
        match self.target {
            Some(t) => t,
            None => {
                // unreachable: a stale target was just recomputed, and a
                // fresh one is Some by the stickiness invariant
                proof {
                    assert(false);
                }
                0
            },
        }
    }
}

impl GameState {
    /// Pick the structure for this turn by the build cascade, lock the
    /// movement target, and emit the `BUILD <site_id> <KEYWORD>` line.
    /// Beyond the target update nothing changes.
    pub fn choose_what_to_build(&mut self) -> (r: String)
        requires
            has_queen(*old(self)),
        ensures
            r@ == build_cmd(new_target(*old(self)), build_choice(old(self).construction_sites@)),
            *final(self) == (GameState { target: Some(new_target(*old(self))), ..*old(self) }),
    {
        let choice: BuildChoice;
        if self.get_barrack_bowman_id().len() < 1 {
            choice = BuildChoice::BarracksArcher;
        } else if self.get_barrack_knight_id().len() < 1 {
            choice = BuildChoice::BarracksKnight;
        } else if self.get_tower_id().len() < 1 {
            choice = BuildChoice::Tower;
        } else if self.get_barrack_bowman_id().len() < self.get_barrack_knight_id().len()
            && self.get_barrack_id().len() < 4 {
            choice = BuildChoice::BarracksArcher;
        } else {
            choice = BuildChoice::Tower;
        }
        proof {
            assert(choice == build_choice(self.construction_sites@));
        }
        let target = self.update_target();
        let keyword: &'static str = match choice {
            BuildChoice::BarracksArcher => "BARRACKS-ARCHER",
            BuildChoice::BarracksKnight => "BARRACKS-KNIGHT",
            BuildChoice::Tower => "TOWER",
        };
        proof {
            reveal_strlit("BARRACKS-ARCHER");
            reveal_strlit("BARRACKS-KNIGHT");
            reveal_strlit("TOWER");
            assert("BARRACKS-ARCHER"@ =~= keyword_str(BuildChoice::BarracksArcher));
            assert("BARRACKS-KNIGHT"@ =~= keyword_str(BuildChoice::BarracksKnight));
            assert("TOWER"@ =~= keyword_str(BuildChoice::Tower));
        }
        let mut line = String::new();
        line.append("BUILD ");
        proof {
            reveal_strlit("BUILD ");
            assert("BUILD "@ =~= seq!['B', 'U', 'I', 'L', 'D', ' ']);
        }
        push_i32(&mut line, target);
        line.append(" ");
        proof {
            reveal_strlit(" ");
            assert(" "@ =~= seq![' ']);
        }
        line.append(keyword);
        proof {
            assert(line@ =~= build_cmd(
                new_target(*old(self)),
                build_choice(old(self).construction_sites@),
            ));
        }
        line
    }

    /// Emit the training line: `TRAIN` alone when no allied barracks is
    /// owned, else `TRAIN` followed by every allied barracks id in
    /// snapshot order.
    pub fn choose_what_to_train(&self) -> (r: String)
        ensures
            r@ == train_cmd(barrack_ids(self.construction_sites@)),
    {
        let ids = self.get_barrack_id();
        let mut line = String::new();
        line.append("TRAIN");
        proof {
            reveal_strlit("TRAIN");
            assert("TRAIN"@ =~= seq!['T', 'R', 'A', 'I', 'N']);
        }
        let mut i: usize = 0;
        while i < ids.len()
            invariant
                i <= ids@.len(),
                ids@ == barrack_ids(self.construction_sites@),
                line@ == seq!['T', 'R', 'A', 'I', 'N'] + train_ids_str(ids@.take(i as int)),
            decreases ids@.len() - i,
        {
            proof {
                assert(ids@.take(i as int + 1).drop_last() =~= ids@.take(i as int));
                assert(ids@.take(i as int + 1).last() == ids@[i as int]);
            }
            line.append(" ");
            proof {
                reveal_strlit(" ");
                assert(" "@ =~= seq![' ']);
            }
            push_i32(&mut line, ids[i]);
            proof {
                assert(line@ =~= seq!['T', 'R', 'A', 'I', 'N'] + train_ids_str(
                    ids@.take(i as int + 1),
                ));
            }
            i += 1;
        }
        proof {
            assert(ids@.take(ids@.len() as int) =~= ids@);
            assert(line@ =~= train_cmd(barrack_ids(self.construction_sites@)));
        }
        line
    }
}

/// Updating the target twice on an unchanged snapshot settles on the
/// same id as updating it once; in particular, while the current target
/// still refers to an unclaimed site, an update keeps both the target
/// and the whole state exactly as they are.
pub proof fn lemma_update_target_idempotent(s: GameState)
    ensures
        new_target((GameState { target: Some(new_target(s)), ..s })) == new_target(s),
        target_qualifies(s) ==> Some(new_target(s)) == s.target,
        target_qualifies(s) ==> (GameState { target: Some(new_target(s)), ..s }) == s,
{
    let s2 = GameState { target: Some(new_target(s)), ..s };
    assert(unclaimed_ids(s2.construction_sites@) == unclaimed_ids(s.construction_sites@));
    assert(recomputed_target(s2) == recomputed_target(s));
}

/// While no allied archer barracks is owned, the cascade picks an archer
/// barracks, whatever the other counts are.
pub proof fn lemma_build_archer_first(cs: Seq<ConstructionSite>)
    requires
        bowman_barrack_ids(cs).len() == 0,
    ensures
        build_choice(cs) == BuildChoice::BarracksArcher,
{
}

/// With at least one archer and one knight barracks owned but no tower,
/// the cascade picks a tower.
pub proof fn lemma_build_tower_when_none(cs: Seq<ConstructionSite>)
    requires
        bowman_barrack_ids(cs).len() >= 1,
        knight_barrack_ids(cs).len() >= 1,
        tower_ids(cs).len() == 0,
    ensures
        build_choice(cs) == BuildChoice::Tower,
{
}

/// With both barrack kinds owned, archers at least matching knights and
/// the barrack total at the cap of four or above, the cascade falls
/// through to a tower.
pub proof fn lemma_build_tower_fallback(cs: Seq<ConstructionSite>)
    requires
        knight_barrack_ids(cs).len() >= 1,
        bowman_barrack_ids(cs).len() >= knight_barrack_ids(cs).len(),
        barrack_ids(cs).len() >= 4,
    ensures
        build_choice(cs) == BuildChoice::Tower,
{
}

} // verus!
