use vstd::prelude::*;
use crate::grid::TilePosition;

verus! {

/// A point hazard fixed to one tile. Its view is that tile.
#[derive(Clone, Copy, Debug, PartialEq, Eq, Structural)]
pub struct Fire {
    position: TilePosition,
}

impl View for Fire {
    type V = TilePosition;

    closed spec fn view(&self) -> TilePosition {
        self.position
    }
}

impl Fire {
    /// A hazard on the tile `position`.
    pub fn new(position: TilePosition) -> (fire: Fire)
        ensures
            fire@ == position,
    {
        Fire { position }
    }

    /// The tile the hazard sits on.
    pub fn position(&self) -> (p: TilePosition)
        ensures
            p == self@,
    {
        self.position
    }
}

/// The hazards of a level, in the order in which the level lists them. The
/// set is fixed once built. Its view is the sequence of their tiles.
#[derive(Debug)]
pub struct HazardRegistry {
    points: Vec<Fire>,
}

impl View for HazardRegistry {
    type V = Seq<TilePosition>;

    closed spec fn view(&self) -> Seq<TilePosition> {
        Seq::new(self.points@.len(), |i: int| self.points@[i]@)
    }
}

impl HazardRegistry {
    /// A registry of one hazard per listed tile. Tiles are not checked
    /// against tile codes: a hazard may sit on a wall.
    pub fn new(positions: &Vec<TilePosition>) -> (registry: HazardRegistry)
        ensures
            registry@ == positions@,
    {
        let mut points: Vec<Fire> = Vec::new();
        let mut i: usize = 0;
        while i < positions.len()
            invariant
                0 <= i <= positions@.len(),
                points@.len() == i,
                forall|k: int| 0 <= k < i ==> (#[trigger] points@[k])@ == positions@[k],
            decreases positions@.len() - i,
        {
            points.push(Fire::new(positions[i]));
            i += 1;
        }
        let registry = HazardRegistry { points };
        assert(registry@ =~= positions@);
        registry
    }

    /// Number of hazards.
    pub fn len(&self) -> (n: usize)
        ensures
            n == self@.len(),
    {
        self.points.len()
    }

    /// The hazard at `index` in listing order, if there is one.
    pub fn get(&self, index: usize) -> (fire: Option<Fire>)
        ensures
            match fire {
                Some(f) => index < self@.len() && f@ == self@[index as int],
                None => index >= self@.len(),
            },
    {
        if index < self.points.len() {
            Some(self.points[index])
        } else {
            None
        }
    }

    /// All hazards, for reading in listing order.
    pub fn points(&self) -> (points: &Vec<Fire>)
        ensures
            points@.len() == self@.len(),
            forall|i: int| 0 <= i < points@.len() ==> (#[trigger] points@[i])@ == self@[i],
    {
        &self.points
    }
}

} // verus!
