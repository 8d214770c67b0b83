//! The per-turn world snapshot: sites, the construction overlay, units,
//! and the queries the decision engine runs over them.

use crate::geom::Position;
use vstd::prelude::*;

verus! {

/// Who controls an entity.
#[derive(Debug, Clone, Copy, PartialEq, Eq, Structural)]
pub enum Owner {
    Unclaimed,
    Allied,
    Opponent,
}

/// What stands on a site.
#[derive(Debug, Clone, Copy, PartialEq, Eq, Structural)]
pub enum StructureType {
    NoStructure,
    Tower,
    Barrack,
}

/// Kind of a mobile unit.
#[derive(Debug, Clone, Copy, PartialEq, Eq, Structural)]
pub enum UnitType {
    Queen,
    Knight,
    Bowman,
    Giant,
}

/// The owner a wire code stands for; codes outside `{-1, 0, 1}` are a
/// protocol violation.
pub open spec fn owner_of_code(code: int) -> Option<Owner> {
    if code == -1 {
        Some(Owner::Unclaimed)
    } else if code == 0 {
        Some(Owner::Allied)
    } else if code == 1 {
        Some(Owner::Opponent)
    } else {
        None
    }
}

/// The structure type a wire code stands for; codes outside `{-1, 1, 2}`
/// are a protocol violation.
pub open spec fn structure_of_code(code: int) -> Option<StructureType> {
    if code == -1 {
        Some(StructureType::NoStructure)
    } else if code == 1 {
        Some(StructureType::Tower)
    } else if code == 2 {
        Some(StructureType::Barrack)
    } else {
        None
    }
}

/// The unit type a wire code stands for; codes outside `{-1, 0, 1, 2}`
/// are a protocol violation.
pub open spec fn unit_of_code(code: int) -> Option<UnitType> {
    if code == -1 {
        Some(UnitType::Queen)
    } else if code == 0 {
        Some(UnitType::Knight)
    } else if code == 1 {
        Some(UnitType::Bowman)
    } else if code == 2 {
        Some(UnitType::Giant)
    } else {
        None
    }
}

impl Owner {
    /// Decode the owner field of the wire protocol.
    pub fn from_code(code: i32) -> (r: Option<Owner>)
        ensures
            r == owner_of_code(code as int),
    {
        match code {
            -1 => Some(Owner::Unclaimed),
            0 => Some(Owner::Allied),
            1 => Some(Owner::Opponent),
            _ => None,
        }
    }
}

impl StructureType {
    /// Decode the structure-type field of the wire protocol.
    pub fn from_code(code: i32) -> (r: Option<StructureType>)
        ensures
            r == structure_of_code(code as int),
    {
        match code {
            -1 => Some(StructureType::NoStructure),
            1 => Some(StructureType::Tower),
            2 => Some(StructureType::Barrack),
            _ => None,
        }
    }
}

impl UnitType {
    /// Decode the unit-type field of the wire protocol.
    pub fn from_code(code: i32) -> (r: Option<UnitType>)
        ensures
            r == unit_of_code(code as int),
    {
        match code {
            -1 => Some(UnitType::Queen),
            0 => Some(UnitType::Knight),
            1 => Some(UnitType::Bowman),
            2 => Some(UnitType::Giant),
            _ => None,
        }
    }
}

/// A fixed spatial slot where a structure may be built. Created once at
/// match start and never mutated afterwards.
#[derive(Debug, Clone, Copy, PartialEq, Eq, Structural)]
pub struct Site {
    pub site_id: i32,
    pub position: Position,
    pub radius: i32,
}

/// The per-turn ownership and structure overlay on one site. Rebuilt in
/// full from each snapshot.
#[derive(Debug, Clone, Copy)]
pub struct ConstructionSite {
    pub site_id: i32,
    pub structure_type: StructureType,
    pub owner: Owner,
    pub ignore_1: i32,
    pub ignore_2: i32,
    pub param_1: i32,
    pub param_2: i32,
}

/// A mobile unit observed this turn.
#[derive(Debug, Clone, Copy)]
pub struct Unit {
    pub position: Position,
    pub owner: Owner,
    pub unit_type: UnitType,
    pub health: i32,
}

/// The engine's full working set for one turn. Only `target` survives
/// across turns; everything else is rebuilt from the snapshot.
#[derive(Debug, Clone)]
pub struct GameState {
    pub num_sites: i32,
    pub gold: i32,
    pub touched_site: i32,
    pub sites: Vec<Site>,
    pub construction_sites: Vec<ConstructionSite>,
    pub num_units: i32,
    pub units: Vec<Unit>,
    pub target: Option<i32>,
}

/// A site that is still a target candidate: unclaimed and
/// construction-free, with no structure of any kind standing on it.
pub open spec fn is_unclaimed(c: ConstructionSite) -> bool {
    c.owner == Owner::Unclaimed && c.structure_type == StructureType::NoStructure
}

/// An allied barracks that produces bowmen.
pub open spec fn is_bowman_barrack(c: ConstructionSite) -> bool {
    c.structure_type == StructureType::Barrack && c.owner == Owner::Allied && c.param_2 == 1
}

/// An allied barracks that produces knights.
pub open spec fn is_knight_barrack(c: ConstructionSite) -> bool {
    c.structure_type == StructureType::Barrack && c.owner == Owner::Allied && c.param_2 == 0
}

/// An allied barracks of any kind.
pub open spec fn is_allied_barrack(c: ConstructionSite) -> bool {
    c.structure_type == StructureType::Barrack && c.owner == Owner::Allied
}

/// An allied tower.
pub open spec fn is_allied_tower(c: ConstructionSite) -> bool {
    c.structure_type == StructureType::Tower && c.owner == Owner::Allied
}

/// Site ids of the unclaimed, construction-free entries, in snapshot
/// order.
pub open spec fn unclaimed_ids(cs: Seq<ConstructionSite>) -> Seq<i32>
    decreases cs.len(),
{
    if cs.len() == 0 {
        Seq::empty()
    } else if is_unclaimed(cs.last()) {
        unclaimed_ids(cs.drop_last()).push(cs.last().site_id)
    } else {
        unclaimed_ids(cs.drop_last())
    }
}

/// Site ids of the allied bowman barracks, in snapshot order.
pub open spec fn bowman_barrack_ids(cs: Seq<ConstructionSite>) -> Seq<i32>
    decreases cs.len(),
{
    if cs.len() == 0 {
        Seq::empty()
    } else if is_bowman_barrack(cs.last()) {
        bowman_barrack_ids(cs.drop_last()).push(cs.last().site_id)
    } else {
        bowman_barrack_ids(cs.drop_last())
    }
}

/// Site ids of the allied knight barracks, in snapshot order.
pub open spec fn knight_barrack_ids(cs: Seq<ConstructionSite>) -> Seq<i32>
    decreases cs.len(),
{
    if cs.len() == 0 {
        Seq::empty()
    } else if is_knight_barrack(cs.last()) {
        knight_barrack_ids(cs.drop_last()).push(cs.last().site_id)
    } else {
        knight_barrack_ids(cs.drop_last())
    }
}

/// Site ids of all allied barracks, in snapshot order.
pub open spec fn barrack_ids(cs: Seq<ConstructionSite>) -> Seq<i32>
    decreases cs.len(),
{
    if cs.len() == 0 {
        Seq::empty()
    } else if is_allied_barrack(cs.last()) {
        barrack_ids(cs.drop_last()).push(cs.last().site_id)
    } else {
        barrack_ids(cs.drop_last())
    }
}

/// Site ids of the allied towers, in snapshot order.
pub open spec fn tower_ids(cs: Seq<ConstructionSite>) -> Seq<i32>
    decreases cs.len(),
{
    if cs.len() == 0 {
        Seq::empty()
    } else if is_allied_tower(cs.last()) {
        tower_ids(cs.drop_last()).push(cs.last().site_id)
    } else {
        tower_ids(cs.drop_last())
    }
}

/// The first site carrying the given id, in list order.
pub open spec fn first_site_with_id(sites: Seq<Site>, id: i32) -> Option<Site>
    decreases sites.len(),
{
    if sites.len() == 0 {
        None
    } else {
        let r = first_site_with_id(sites.drop_last(), id);
        if r is Some {
            r
        } else if sites.last().site_id == id {
            Some(sites.last())
        } else {
            None
        }
    }
}

/// The first site standing at exactly the given position, in list order.
pub open spec fn first_site_at_position(sites: Seq<Site>, pos: Position) -> Option<Site>
    decreases sites.len(),
{
    if sites.len() == 0 {
        None
    } else {
        let r = first_site_at_position(sites.drop_last(), pos);
        if r is Some {
            r
        } else if sites.last().position == pos {
            Some(sites.last())
        } else {
            None
        }
    }
}

/// The first allied queen, in list order.
pub open spec fn first_allied_queen(units: Seq<Unit>) -> Option<Unit>
    decreases units.len(),
{
    if units.len() == 0 {
        None
    } else {
        let r = first_allied_queen(units.drop_last());
        if r is Some {
            r
        } else if units.last().unit_type == UnitType::Queen && units.last().owner == Owner::Allied {
            Some(units.last())
        } else {
            None
        }
    }
}

/// Positions of the unclaimed, construction-free sites, resolved id by
/// id against the site list, keeping only the ids that resolve, in id
/// order.
pub open spec fn resolved_positions(sites: Seq<Site>, ids: Seq<i32>) -> Seq<Position>
    decreases ids.len(),
{
    if ids.len() == 0 {
        Seq::empty()
    } else {
        let rest = resolved_positions(sites, ids.drop_last());
        match first_site_with_id(sites, ids.last()) {
            Some(site) => rest.push(site.position),
            None => rest,
        }
    }
}

/// The snapshot contains an allied queen; every decision is anchored on
/// her position, so her absence is fatal to the engine.
pub open spec fn has_queen(s: GameState) -> bool {
    first_allied_queen(s.units@) is Some
}

impl GameState {
    /// The allied queen of this turn's snapshot, first in list order.
    pub fn get_queen(&self) -> (r: &Unit)
        requires
            has_queen(*self),
        ensures
            first_allied_queen(self.units@) == Some(*r),
    {
        let mut found: Option<usize> = None;
        let mut i: usize = 0;
        while i < self.units.len()
            invariant
                i <= self.units@.len(),
                match found {
                    Some(k) => k < i && first_allied_queen(self.units@.take(i as int)) == Some(
                        self.units@[k as int],
                    ),
                    None => first_allied_queen(self.units@.take(i as int)) is None,
                },
            decreases self.units@.len() - i,
        {
            proof {
                assert(self.units@.take(i as int + 1).drop_last() =~= self.units@.take(i as int));
                assert(self.units@.take(i as int + 1).last() == self.units@[i as int]);
            }
            if found.is_none() {
                let u = &self.units[i];
                if matches!(u.unit_type, UnitType::Queen) && matches!(u.owner, Owner::Allied) {
                    found = Some(i);
                }
            }
            i += 1;
        }
        proof {
            assert(self.units@.take(self.units@.len() as int) =~= self.units@);
        }
        match found {
            Some(k) => &self.units[k],
            None => {
                // unreachable: the precondition promises a queen
                proof {
                    assert(false);
                }
                &self.units[0]
            },
        }
    }

    /// The first site carrying the given id, if any.
    pub fn get_site_id(&self, id: i32) -> (r: Option<&Site>)
        ensures
            match r {
                Some(s) => first_site_with_id(self.sites@, id) == Some(*s),
                None => first_site_with_id(self.sites@, id) is None,
            },
    {
        let mut found: Option<usize> = None;
        let mut i: usize = 0;
        while i < self.sites.len()
            invariant
                i <= self.sites@.len(),
                match found {
                    Some(k) => k < i && first_site_with_id(self.sites@.take(i as int), id) == Some(
                        self.sites@[k as int],
                    ),
                    None => first_site_with_id(self.sites@.take(i as int), id) is None,
                },
            decreases self.sites@.len() - i,
        {
            proof {
                assert(self.sites@.take(i as int + 1).drop_last() =~= self.sites@.take(i as int));
                assert(self.sites@.take(i as int + 1).last() == self.sites@[i as int]);
            }
            if found.is_none() && self.sites[i].site_id == id {
                found = Some(i);
            }
            i += 1;
        }
        proof {
            assert(self.sites@.take(self.sites@.len() as int) =~= self.sites@);
        }
        match found {
            Some(k) => Some(&self.sites[k]),
            None => None,
        }
    }

    /// The first site standing at exactly the given position, if any.
    pub fn get_site_id_by_position(&self, pos: Position) -> (r: Option<&Site>)
        ensures
            match r {
                Some(s) => first_site_at_position(self.sites@, pos) == Some(*s),
                None => first_site_at_position(self.sites@, pos) is None,
            },
    {
        let mut found: Option<usize> = None;
        let mut i: usize = 0;
        while i < self.sites.len()
            invariant
                i <= self.sites@.len(),
                match found {
                    Some(k) => k < i && first_site_at_position(self.sites@.take(i as int), pos)
                        == Some(self.sites@[k as int]),
                    None => first_site_at_position(self.sites@.take(i as int), pos) is None,
                },
            decreases self.sites@.len() - i,
        {
            proof {
                assert(self.sites@.take(i as int + 1).drop_last() =~= self.sites@.take(i as int));
                assert(self.sites@.take(i as int + 1).last() == self.sites@[i as int]);
            }
            if found.is_none() && self.sites[i].position == pos {
                found = Some(i);
            }
            i += 1;
        }
        proof {
            assert(self.sites@.take(self.sites@.len() as int) =~= self.sites@);
        }
        match found {
            Some(k) => Some(&self.sites[k]),
            None => None,
        }
    }

    /// Ids of the sites that are unclaimed and construction-free, in
    /// snapshot order.
    pub fn get_sites_id_without_construction(&self) -> (r: Vec<i32>)
        ensures
            r@ == unclaimed_ids(self.construction_sites@),
    {
        let mut out: Vec<i32> = Vec::new();
        let mut i: usize = 0;
        while i < self.construction_sites.len()
            invariant
                i <= self.construction_sites@.len(),
                out@ == unclaimed_ids(self.construction_sites@.take(i as int)),
            decreases self.construction_sites@.len() - i,
        {
            proof {
                assert(self.construction_sites@.take(i as int + 1).drop_last()
                    =~= self.construction_sites@.take(i as int));
                assert(self.construction_sites@.take(i as int + 1).last()
                    == self.construction_sites@[i as int]);
            }
            let c = self.construction_sites[i];
            if matches!(c.owner, Owner::Unclaimed)
                && matches!(c.structure_type, StructureType::NoStructure) {
                out.push(c.site_id);
            }
            i += 1;
        }
        proof {
            assert(self.construction_sites@.take(self.construction_sites@.len() as int)
                =~= self.construction_sites@);
        }
        out
    }

    /// Positions of the unclaimed, construction-free sites whose ids
    /// resolve against the site list, in snapshot order.
    pub fn get_sites_pos_without_construction(&self) -> (r: Vec<Position>)
        ensures
            r@ == resolved_positions(self.sites@, unclaimed_ids(self.construction_sites@)),
    {
        let ids = self.get_sites_id_without_construction();
        let mut out: Vec<Position> = Vec::new();
        let mut i: usize = 0;
        while i < ids.len()
            invariant
                i <= ids@.len(),
                ids@ == unclaimed_ids(self.construction_sites@),
                out@ == resolved_positions(self.sites@, ids@.take(i as int)),
            decreases ids@.len() - i,
        {
            proof {
                assert(ids@.take(i as int + 1).drop_last() =~= ids@.take(i as int));
                assert(ids@.take(i as int + 1).last() == ids@[i as int]);
            }
            match self.get_site_id(ids[i]) {
                Some(site) => {
                    out.push(site.position);
                },
                None => {},
            }
            i += 1;
        }
        proof {
            assert(ids@.take(ids@.len() as int) =~= ids@);
        }
        out
    }

    /// Ids of the allied bowman barracks, in snapshot order.
    pub fn get_barrack_bowman_id(&self) -> (r: Vec<i32>)
        ensures
            r@ == bowman_barrack_ids(self.construction_sites@),
    {
        let mut out: Vec<i32> = Vec::new();
        let mut i: usize = 0;
        while i < self.construction_sites.len()
            invariant
                i <= self.construction_sites@.len(),
                out@ == bowman_barrack_ids(self.construction_sites@.take(i as int)),
            decreases self.construction_sites@.len() - i,
        {
            proof {
                assert(self.construction_sites@.take(i as int + 1).drop_last()
                    =~= self.construction_sites@.take(i as int));
                assert(self.construction_sites@.take(i as int + 1).last()
                    == self.construction_sites@[i as int]);
            }
            let c = self.construction_sites[i];
            if matches!(c.structure_type, StructureType::Barrack) && matches!(c.owner, Owner::Allied)
                && c.param_2 == 1 {
                out.push(c.site_id);
            }
            i += 1;
        }
        proof {
            assert(self.construction_sites@.take(self.construction_sites@.len() as int)
                =~= self.construction_sites@);
        }
        out
    }

    /// Ids of the allied knight barracks, in snapshot order.
    pub fn get_barrack_knight_id(&self) -> (r: Vec<i32>)
        ensures
            r@ == knight_barrack_ids(self.construction_sites@),
    {
        let mut out: Vec<i32> = Vec::new();
        let mut i: usize = 0;
        while i < self.construction_sites.len()
            invariant
                i <= self.construction_sites@.len(),
                out@ == knight_barrack_ids(self.construction_sites@.take(i as int)),
            decreases self.construction_sites@.len() - i,
        {
            proof {
                assert(self.construction_sites@.take(i as int + 1).drop_last()
                    =~= self.construction_sites@.take(i as int));
                assert(self.construction_sites@.take(i as int + 1).last()
                    == self.construction_sites@[i as int]);
            }
            let c = self.construction_sites[i];
            if matches!(c.structure_type, StructureType::Barrack) && matches!(c.owner, Owner::Allied)
                && c.param_2 == 0 {
                out.push(c.site_id);
            }
            i += 1;
        }
        proof {
            assert(self.construction_sites@.take(self.construction_sites@.len() as int)
                =~= self.construction_sites@);
        }
        out
    }

    /// Ids of all allied barracks, in snapshot order.
    pub fn get_barrack_id(&self) -> (r: Vec<i32>)
        ensures
            r@ == barrack_ids(self.construction_sites@),
    {
        let mut out: Vec<i32> = Vec::new();
        let mut i: usize = 0;
        while i < self.construction_sites.len()
            invariant
                i <= self.construction_sites@.len(),
                out@ == barrack_ids(self.construction_sites@.take(i as int)),
            decreases self.construction_sites@.len() - i,
        {
            proof {
                assert(self.construction_sites@.take(i as int + 1).drop_last()
                    =~= self.construction_sites@.take(i as int));
                assert(self.construction_sites@.take(i as int + 1).last()
                    == self.construction_sites@[i as int]);
            }
            let c = self.construction_sites[i];
            if matches!(c.structure_type, StructureType::Barrack) && matches!(c.owner, Owner::Allied) {
                out.push(c.site_id);
            }
            i += 1;
        }
        proof {
            assert(self.construction_sites@.take(self.construction_sites@.len() as int)
                =~= self.construction_sites@);
        }
        out
    }

    /// Ids of the allied towers, in snapshot order.
    pub fn get_tower_id(&self) -> (r: Vec<i32>)
        ensures
            r@ == tower_ids(self.construction_sites@),
    {
        let mut out: Vec<i32> = Vec::new();
        let mut i: usize = 0;
        while i < self.construction_sites.len()
            invariant
                i <= self.construction_sites@.len(),
                out@ == tower_ids(self.construction_sites@.take(i as int)),
            decreases self.construction_sites@.len() - i,
        {
            proof {
                assert(self.construction_sites@.take(i as int + 1).drop_last()
                    =~= self.construction_sites@.take(i as int));
                assert(self.construction_sites@.take(i as int + 1).last()
                    == self.construction_sites@[i as int]);
            }
            let c = self.construction_sites[i];
            if matches!(c.structure_type, StructureType::Tower) && matches!(c.owner, Owner::Allied) {
                out.push(c.site_id);
            }
            i += 1;
        }
        proof {
            assert(self.construction_sites@.take(self.construction_sites@.len() as int)
                =~= self.construction_sites@);
        }
        out
    }
}

} // verus!
