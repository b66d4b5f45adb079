//! The entity store, as far as the scene needs it: entities with a position
//! and a look are put into it, and their positions are read from it.

use vstd::prelude::*;
use vstd::multiset::Multiset;
use legion::IntoQuery;
use legion::World;
use crate::components::{Marker, Render};
use crate::geometry::Point;

verus! {

/// `legion::World`, the entity store. Nothing of its inside is seen here.
#[verifier::external_type_specification]
#[verifier::external_body]
pub struct ExWorld(legion::World);

/// The position and the look of each entity of the store that has both, an
/// entity counted once.
pub uninterp spec fn renderables(world: World) -> Multiset<(Point, Render)>;

/// The positions at which an entity with a look stands.
pub open spec fn occupied_positions(entities: Multiset<(Point, Render)>) -> Set<Point> {
    Set::new(|p: Point| exists|r: Render| entities.count((p, r)) > 0)
}

/// Calls `legion::World::push` with a marker, a position and a look as the
/// components of one new entity. The store then holds that entity beside
/// those it held; no other entity changes.
#[verifier::external_body]
pub(crate) fn push_entity<M: Marker + Send + Sync + 'static>(
    ecs: &mut World,
    marker: M,
    pos: Point,
    render: Render,
)
    ensures
        renderables(*final(ecs)) == renderables(*old(ecs)).insert((pos, render)),
{
    ecs.push((marker, pos, render));
}

/// Runs legion's query for the entities that have a position and a look, with
/// `legion::query::Query::iter`, and hands out the position of each. A
/// position is in the result if and only if such an entity stands there; in
/// what order they come is left open.
#[verifier::external_body]
pub(crate) fn entity_points(ecs: &World) -> (points: Vec<Point>)
    ensures
        points@.to_set() == occupied_positions(renderables(*ecs)),
{
    let mut query = <(&Point, &Render)>::query();
    query.iter(ecs).map(|(pos, _)| *pos).collect()
}

} // verus!
