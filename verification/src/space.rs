//! The bounded point store: what it holds, how it is filled, and which
//! handles it gives up when it is trimmed.

use bevy::ecs::entity::Entity;
use bevy::math::Vec3;
use std::collections::VecDeque;
use vstd::prelude::*;

verus! {

/// Bevy's entity identifier. The store carries it as an opaque handle to the
/// visual that stands for a point; nothing is claimed about its contents.
#[verifier::external_type_specification]
#[verifier::external_body]
pub struct ExEntity(Entity);

/// Bevy's three-component vector. The store carries it as the position of a
/// point; nothing is claimed about its contents.
#[verifier::external_type_specification]
#[verifier::external_body]
pub struct ExVec3(Vec3);

/// One point of the cloud: where a ray hit, and the handle of the visual
/// that shows it. The store does not own the visual; it hands the handle
/// back when the point leaves, for the caller to dispose of.
#[derive(Clone, Copy, Debug, PartialEq)]
pub struct PointEntry {
    pub position: Vec3,
    pub handle: Entity,
}

/// The handles of `entries`, in the same order.
pub open spec fn handles_of(entries: Seq<PointEntry>) -> Seq<Entity> {
    entries.map_values(|entry: PointEntry| entry.handle)
}

/// The positions of `entries`, in the same order.
pub open spec fn positions_of(entries: Seq<PointEntry>) -> Seq<Vec3> {
    entries.map_values(|entry: PointEntry| entry.position)
}

/// The entries made of `points` and `entities`, place by place: there is one
/// position for each handle.
pub open spec fn entries_of(points: Seq<Vec3>, entities: Seq<Entity>) -> Seq<PointEntry>
    recommends
        points.len() == entities.len(),
{
    Seq::new(entities.len(), |i: int| PointEntry { position: points[i], handle: entities[i] })
}

/// How many entries a store of `len` entries holds beyond `limit`.
pub open spec fn excess(len: nat, limit: nat) -> nat {
    if len > limit {
        (len - limit) as nat
    } else {
        0
    }
}

/// The entries that a first-in, first-out store gives up when trimmed to
/// `limit`: the oldest ones, oldest first.
pub open spec fn fifo_evicted(entries: Seq<PointEntry>, limit: nat) -> Seq<PointEntry> {
    entries.take(excess(entries.len(), limit) as int)
}

/// The entries that a first-in, first-out store keeps when trimmed to
/// `limit`: the newest ones, in insertion order.
pub open spec fn fifo_kept(entries: Seq<PointEntry>, limit: nat) -> Seq<PointEntry> {
    entries.skip(excess(entries.len(), limit) as int)
}

/// A retention strategy for the point cloud.
///
/// A store holds the points that were added and not yet given up. Adding
/// never drops anything; only `trim` does, and the strategy decides which
/// points go. Whatever it decides, `retention_is_sound` binds it.
pub trait PointStorage {
    /// The entries held, in insertion order: the oldest first.
    spec fn entries(&self) -> Seq<PointEntry>;

    /// The most entries that the store holds once it is trimmed.
    spec fn limit(&self) -> nat;

    /// The retention policy: whether trimming a store that holds `before`,
    /// under `limit`, may keep `kept` and give up the handles `evicted`.
    spec fn retains(
        before: Seq<PointEntry>,
        limit: nat,
        kept: Seq<PointEntry>,
        evicted: Seq<Entity>,
    ) -> bool;

    /// What every policy owes: a trimmed store is within its limit and holds
    /// no entry that was not there, each handle is either kept or given up
    /// and none is made up, and a store that is within its limit already is
    /// left as it is.
    proof fn retention_is_sound(
        before: Seq<PointEntry>,
        limit: nat,
        kept: Seq<PointEntry>,
        evicted: Seq<Entity>,
    )
        requires
            Self::retains(before, limit, kept, evicted),
        ensures
            kept.len() <= limit,
            kept.to_multiset().subset_of(before.to_multiset()),
            handles_of(before).to_multiset() == handles_of(kept).to_multiset().add(
                evicted.to_multiset(),
            ),
            before.len() <= limit ==> kept == before && evicted == Seq::<Entity>::empty(),
    ;

    /// Adds one entry for each handle in `entities`, with the position at
    /// the same place in `points`, in order, after the entries already held.
    fn add_points(&mut self, points: &[Vec3], entities: &[Entity])
        requires
            points@.len() == entities@.len(),
        ensures
            final(self).entries() == old(self).entries() + entries_of(points@, entities@),
            final(self).limit() == old(self).limit(),
    ;

    /// Brings the store within its limit and returns the handles of the
    /// entries it gave up, for the caller to dispose of.
    fn trim(&mut self) -> (evicted: Vec<Entity>)
        ensures
            Self::retains(old(self).entries(), old(self).limit(), final(self).entries(), evicted@),
            final(self).entries().len() <= final(self).limit(),
            final(self).limit() == old(self).limit(),
    ;
}

/// First-in, first-out storage: entries in insertion order, of which a trim
/// keeps the newest `limit`.
pub struct VecStorage {
    pub points: VecDeque<PointEntry>,
    pub limit: usize,
}

impl View for VecStorage {
    type V = Seq<PointEntry>;

    open spec fn view(&self) -> Seq<PointEntry> {
        self.points@
    }
}

impl PointStorage for VecStorage {
    open spec fn entries(&self) -> Seq<PointEntry> {
        self@
    }

    open spec fn limit(&self) -> nat {
        self.limit as nat
    }

    open spec fn retains(
        before: Seq<PointEntry>,
        limit: nat,
        kept: Seq<PointEntry>,
        evicted: Seq<Entity>,
    ) -> bool {
        &&& evicted == handles_of(fifo_evicted(before, limit))
        &&& kept == fifo_kept(before, limit)
    }

    proof fn retention_is_sound(
        before: Seq<PointEntry>,
        limit: nat,
        kept: Seq<PointEntry>,
        evicted: Seq<Entity>,
    ) {
        assert(handles_of(before) =~= evicted + handles_of(kept));
        vstd::seq_lib::lemma_multiset_commutative(evicted, handles_of(kept));
        assert(before =~= fifo_evicted(before, limit) + kept);
        vstd::seq_lib::lemma_multiset_commutative(fifo_evicted(before, limit), kept);
    }

    /// Appends the entries.
    fn add_points(&mut self, points: &[Vec3], entities: &[Entity])
        ensures
            final(self)@ == old(self)@ + entries_of(points@, entities@),
            final(self).limit == old(self).limit,
    {
        let mut i: usize = 0;
        while i < entities.len()
            invariant
                i <= entities.len(),
                points@.len() == entities@.len(),
                self.limit == old(self).limit,
                self.points@ == old(self).points@ + entries_of(points@, entities@).take(i as int),
            decreases entities.len() - i,
        {
            self.points.push_back(PointEntry { position: points[i], handle: entities[i] });
            i = i + 1;
        }
    }

    /// Removes entries from the front, the oldest first, until no more than
    /// `limit` are left, and returns their handles in the order in which they
    /// left.
    fn trim(&mut self) -> (evicted: Vec<Entity>)
        ensures
            evicted@ == handles_of(fifo_evicted(old(self)@, old(self).limit as nat)),
            final(self)@ == fifo_kept(old(self)@, old(self).limit as nat),
            final(self)@.len() <= final(self).limit,
            final(self).limit == old(self).limit,
    {
        let mut evicted: Vec<Entity> = Vec::new();
        let cur_len: usize = self.points.len();
        if cur_len > self.limit {
            let excess_elements: usize = cur_len - self.limit;
            let mut i: usize = 0;
            while i < excess_elements
                invariant
                    i <= excess_elements <= old(self).points@.len(),
                    self.limit == old(self).limit,
                    evicted@ == handles_of(old(self).points@.take(i as int)),
                    self.points@ == old(self).points@.skip(i as int),
                decreases excess_elements - i,
            {
                if let Some(oldest) = self.points.pop_front() {
                    evicted.push(oldest.handle);
                }
                i = i + 1;
            }
        }
        assert(evicted@ =~= handles_of(fifo_evicted(old(self).points@, old(self).limit as nat)));
        assert(self.points@ =~= fifo_kept(old(self).points@, old(self).limit as nat));
        evicted
    }
}

/// The point cloud of one simulation, kept by the strategy `S`.
pub struct Space<S: PointStorage> {
    pub accelerator: S,
}

impl<S: PointStorage> View for Space<S> {
    type V = Seq<PointEntry>;

    open spec fn view(&self) -> Seq<PointEntry> {
        self.accelerator.entries()
    }
}

impl<S: PointStorage> Space<S> {
    /// The most entries that the cloud holds once it is trimmed.
    pub open spec fn limit(&self) -> nat {
        self.accelerator.limit()
    }

    /// Adds one entry for each handle in `entities`, with the position at
    /// the same place in `points`, in order, after the entries already held.
    pub fn add_points(&mut self, points: &[Vec3], entities: &[Entity])
        requires
            points@.len() == entities@.len(),
        ensures
            final(self)@ == old(self)@ + entries_of(points@, entities@),
            final(self).limit() == old(self).limit(),
    {
        self.accelerator.add_points(points, entities);
    }

    /// Brings the cloud within its limit and returns the handles of the
    /// entries it gave up, for the caller to dispose of.
    pub fn trim(&mut self) -> (evicted: Vec<Entity>)
        ensures
            S::retains(old(self)@, old(self).limit(), final(self)@, evicted@),
            final(self)@.len() <= final(self).limit(),
            final(self).limit() == old(self).limit(),
    {
        self.accelerator.trim()
    }
}

/// The shots of one tick that hit something, in the order in which they were
/// resolved. A shot that hit nothing is not among them.
pub open spec fn hits(resolved: Seq<Option<PointEntry>>) -> Seq<PointEntry> {
    resolved.filter_map(|shot: Option<PointEntry>| shot)
}

/// How many of the `pending` shots one tick takes up: all of them, or
/// `max_shots_per_frame` if there are more.
pub fn shots_to_resolve(pending: usize, max_shots_per_frame: u32) -> (count: usize)
    ensures
        count == vstd::math::min(pending as int, max_shots_per_frame as int),
{
    let ceiling: usize = max_shots_per_frame as usize;
    if pending < ceiling {
        pending
    } else {
        ceiling
    }
}

/// Settles one tick's shots on the cloud. `resolved` holds, for each shot
/// in the order in which it was fired, what the ray hit: the position, with
/// the handle of the visual made for it, or `None` where it hit nothing.
///
/// The hits enter the cloud in that order; a miss adds nothing and takes up
/// no room. The cloud is then trimmed, and the handles it gave up are
/// returned for the caller to dispose of.
pub fn lidar_new_points<S: PointStorage>(
    space: &mut Space<S>,
    resolved: &[Option<PointEntry>],
) -> (despawn: Vec<Entity>)
    ensures
        S::retains(old(space)@ + hits(resolved@), old(space).limit(), final(space)@, despawn@),
        final(space)@.len() <= final(space).limit(),
        final(space)@.len() + despawn@.len() == old(space)@.len() + hits(resolved@).len(),
        final(space).limit() == old(space).limit(),
{
    let mut new_points: Vec<Vec3> = Vec::new();
    let mut new_entities: Vec<Entity> = Vec::new();
    let mut i: usize = 0;
    while i < resolved.len()
        invariant
            i <= resolved.len(),
            new_points@ == positions_of(hits(resolved@.take(i as int))),
            new_entities@ == handles_of(hits(resolved@.take(i as int))),
        decreases resolved.len() - i,
    {
        proof {
            lemma_hits_grow(resolved@, i as int);
        }
        if let Some(hit) = resolved[i] {
            new_points.push(hit.position);
            new_entities.push(hit.handle);
        }
        i = i + 1;
    }
    assert(resolved@.take(i as int) =~= resolved@);
    assert(entries_of(new_points@, new_entities@) =~= hits(resolved@));
    space.add_points(new_points.as_slice(), new_entities.as_slice());
    let ghost filled = space@;
    let despawn = space.trim();
    proof {
        S::retention_is_sound(filled, space.limit(), space@, despawn@);
        handles_of(filled).to_multiset_ensures();
        handles_of(space@).to_multiset_ensures();
        despawn@.to_multiset_ensures();
    }
    despawn
}

/// Resolving one more shot extends the hits by that shot if it hit
/// something, and leaves them as they were if it did not.
proof fn lemma_hits_grow(resolved: Seq<Option<PointEntry>>, i: int)
    requires
        0 <= i < resolved.len(),
    ensures
        resolved[i] matches Some(hit) ==> {
            &&& hits(resolved.take(i + 1)) == hits(resolved.take(i)).push(hit)
            &&& positions_of(hits(resolved.take(i + 1))) == positions_of(
                hits(resolved.take(i)),
            ).push(hit.position)
            &&& handles_of(hits(resolved.take(i + 1))) == handles_of(hits(resolved.take(i))).push(
                hit.handle,
            )
        },
        resolved[i] is None ==> hits(resolved.take(i + 1)) == hits(resolved.take(i)),
{
    resolved.lemma_filter_map_take_succ(|shot: Option<PointEntry>| shot, i);
}

/// The hits of two runs of shots, one resolved after the other, are the hits
/// of the first run followed by the hits of the second.
pub proof fn lemma_hits_concat(earlier: Seq<Option<PointEntry>>, later: Seq<Option<PointEntry>>)
    ensures
        hits(earlier + later) == hits(earlier) + hits(later),
    decreases later.len(),
{
    if later.len() > 0 {
        lemma_hits_concat(earlier, later.drop_last());
        assert((earlier + later).drop_last() =~= earlier + later.drop_last());
    }
}

/// A shot that hit nothing leaves no trace: strike it from the tick's shots,
/// and the same hits, in the same order, reach the cloud.
pub proof fn lemma_miss_is_discarded(resolved: Seq<Option<PointEntry>>, i: int)
    requires
        0 <= i < resolved.len(),
        resolved[i] is None,
    ensures
        hits(resolved.remove(i)) == hits(resolved),
{
    let before = resolved.take(i);
    let miss = seq![resolved[i]];
    let after = resolved.skip(i + 1);
    assert(resolved =~= before + miss + after);
    lemma_hits_concat(before + miss, after);
    lemma_hits_concat(before, miss);
    lemma_hits_concat(before, after);
    assert(hits(miss) =~= Seq::<PointEntry>::empty()) by {
        Seq::lemma_filter_map_singleton(resolved[i], |shot: Option<PointEntry>| shot);
    }
}

/// A first-in, first-out trim cuts the entries in two without reordering
/// them: what it gives up, then what it keeps, is what was held. It keeps as
/// many as the limit allows and no more.
pub proof fn lemma_fifo_splits(entries: Seq<PointEntry>, limit: nat)
    ensures
        fifo_evicted(entries, limit) + fifo_kept(entries, limit) == entries,
        fifo_evicted(entries, limit).len() == excess(entries.len(), limit),
        fifo_kept(entries, limit).len() == entries.len() - excess(entries.len(), limit),
        fifo_kept(entries, limit).len() <= limit,
{
}

/// Trimming in between changes nothing in the end: a first-in, first-out
/// store that is trimmed, filled and trimmed again keeps what it would keep
/// had it been filled first and trimmed once, and has given up the same
/// entries in the same order. So the entries that leave are always the oldest
/// of all that are held, whichever tick added them.
pub proof fn lemma_fifo_trims_compose(held: Seq<PointEntry>, added: Seq<PointEntry>, limit: nat)
    ensures
        fifo_kept(fifo_kept(held, limit) + added, limit) == fifo_kept(held + added, limit),
        fifo_evicted(held, limit) + fifo_evicted(fifo_kept(held, limit) + added, limit)
            == fifo_evicted(held + added, limit),
{
}

/// A first-in, first-out store with no room gives up every entry, in the
/// order in which it took them, and keeps none.
pub proof fn lemma_fifo_without_room(entries: Seq<PointEntry>)
    ensures
        fifo_evicted(entries, 0) == entries,
        fifo_kept(entries, 0) == Seq::<PointEntry>::empty(),
{
}

/// Trimming twice in a row is trimming once: whatever the policy, the second
/// trim gives up nothing and keeps what the first one kept.
pub proof fn lemma_second_trim_is_idle<S: PointStorage>(
    before: Seq<PointEntry>,
    limit: nat,
    kept: Seq<PointEntry>,
    evicted: Seq<Entity>,
    kept_again: Seq<PointEntry>,
    evicted_again: Seq<Entity>,
)
    requires
        S::retains(before, limit, kept, evicted),
        S::retains(kept, limit, kept_again, evicted_again),
    ensures
        evicted_again == Seq::<Entity>::empty(),
        kept_again == kept,
{
    S::retention_is_sound(before, limit, kept, evicted);
    S::retention_is_sound(kept, limit, kept_again, evicted_again);
}

} // verus!
