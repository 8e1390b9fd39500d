//! Entities and their components, and how the entity store is queried:
//! counting the entities a query matches and locating the unique match.

use vstd::prelude::*;

verus! {

/// Marker tag carried by the one player entity. It has no data; it only
/// identifies the entity among all entities in the store.
#[derive(Clone, Copy, PartialEq, Eq, Structural)]
pub struct Player;

/// Default visual marker attached to the player when it is spawned. The
/// logic never reads it; it is carried so the spawned entity is complete.
#[derive(Clone, Copy, PartialEq, Eq, Structural)]
pub struct Sprite;

/// Three integer coordinates. Positions move in whole steps, so whole
/// units are all the logic needs.
#[derive(Clone, Copy, PartialEq, Eq, Structural)]
pub struct Vec3 {
    pub x: i64,
    pub y: i64,
    pub z: i64,
}

impl Vec3 {
    pub fn new(x: i64, y: i64, z: i64) -> (v: Vec3)
        ensures
            v == (Vec3 { x, y, z }),
    {
        Vec3 { x, y, z }
    }
}

/// Position and scale of an entity.
#[derive(Clone, Copy, PartialEq, Eq, Structural)]
pub struct Transform {
    pub translation: Vec3,
    pub scale: Vec3,
}

/// An entity is a bundle of optional components; `None` means the entity
/// does not carry that component.
#[derive(Clone, Copy)]
pub struct Entity {
    pub sprite: Option<Sprite>,
    pub transform: Option<Transform>,
    pub player: Option<Player>,
}

/// The entity carries the player tag, so the player-count query matches it.
pub open spec fn has_player(e: Entity) -> bool {
    e.player is Some
}

/// The entity carries both the player tag and a transform, so the movement
/// and position queries match it.
pub open spec fn is_movable_player(e: Entity) -> bool {
    e.player is Some && e.transform is Some
}

/// How many entities in the store carry the player tag.
pub open spec fn count_players(s: Seq<Entity>) -> nat
    decreases s.len(),
{
    if s.len() == 0 {
        0
    } else {
        count_players(s.drop_last()) + (if has_player(s.last()) {
            1nat
        } else {
            0nat
        })
    }
}

/// How many entities in the store the movement query matches.
pub open spec fn count_movable(s: Seq<Entity>) -> nat
    decreases s.len(),
{
    if s.len() == 0 {
        0
    } else {
        count_movable(s.drop_last()) + (if is_movable_player(s.last()) {
            1nat
        } else {
            0nat
        })
    }
}

/// Index of an entity carrying the player tag; meaningful once at least one
/// exists, and unique once exactly one does.
pub open spec fn player_index(s: Seq<Entity>) -> int {
    choose|i: int| 0 <= i < s.len() && has_player(s[i])
}

/// Index of an entity the movement query matches; meaningful once at least
/// one exists, and unique once exactly one does.
pub open spec fn movable_index(s: Seq<Entity>) -> int {
    choose|i: int| 0 <= i < s.len() && is_movable_player(s[i])
}

/// Appending one entity raises each count by one exactly when the new
/// entity matches the corresponding query.
pub proof fn lemma_count_push(s: Seq<Entity>, e: Entity)
    ensures
        count_players(s.push(e)) == count_players(s) + (if has_player(e) {
            1nat
        } else {
            0nat
        }),
        count_movable(s.push(e)) == count_movable(s) + (if is_movable_player(e) {
            1nat
        } else {
            0nat
        }),
{
    assert(s.push(e).drop_last() =~= s);
}

/// Extending a prefix by the next entity of the store raises each count as
/// that entity dictates.
pub proof fn lemma_count_take_step(s: Seq<Entity>, i: int)
    requires
        0 <= i < s.len(),
    ensures
        count_players(s.take(i + 1)) == count_players(s.take(i)) + (if has_player(s[i]) {
            1nat
        } else {
            0nat
        }),
        count_movable(s.take(i + 1)) == count_movable(s.take(i)) + (if is_movable_player(s[i]) {
            1nat
        } else {
            0nat
        }),
{
    assert(s.take(i + 1).drop_last() =~= s.take(i));
    assert(s.take(i + 1).last() == s[i]);
}

/// A store with no players has no player at any index.
pub proof fn lemma_count_players_zero(s: Seq<Entity>)
    requires
        count_players(s) == 0,
    ensures
        forall|i: int| 0 <= i < s.len() ==> !has_player(s[i]),
    decreases s.len(),
{
    if s.len() > 0 {
        lemma_count_players_zero(s.drop_last());
        assert forall|i: int| 0 <= i < s.len() implies !has_player(s[i]) by {
            if i < s.len() - 1 {
                assert(s.drop_last()[i] == s[i]);
                assert(!has_player(s.drop_last()[i]));
            } else {
                assert(s[i] == s.last());
            }
        }
    }
}

/// A store with no movable players has none at any index.
pub proof fn lemma_count_movable_zero(s: Seq<Entity>)
    requires
        count_movable(s) == 0,
    ensures
        forall|i: int| 0 <= i < s.len() ==> !is_movable_player(s[i]),
    decreases s.len(),
{
    if s.len() > 0 {
        lemma_count_movable_zero(s.drop_last());
        assert forall|i: int| 0 <= i < s.len() implies !is_movable_player(s[i]) by {
            if i < s.len() - 1 {
                assert(s.drop_last()[i] == s[i]);
                assert(!is_movable_player(s.drop_last()[i]));
            } else {
                assert(s[i] == s.last());
            }
        }
    }
}

/// With exactly one player in the store, any index holding a player is the
/// same index, and `player_index` names it.
pub proof fn lemma_one_player_unique(s: Seq<Entity>)
    requires
        count_players(s) == 1,
    ensures
        0 <= player_index(s) < s.len(),
        has_player(s[player_index(s)]),
        forall|i: int| 0 <= i < s.len() && has_player(s[i]) ==> i == player_index(s),
    decreases s.len(),
{
    let last = s.len() - 1;
    if has_player(s.last()) {
        lemma_count_players_zero(s.drop_last());
        assert(has_player(s[last]));
        assert(exists|i: int| 0 <= i < s.len() && has_player(s[i]));
        assert forall|i: int| 0 <= i < s.len() && has_player(s[i]) implies i == last by {
            if i < last {
                assert(s.drop_last()[i] == s[i]);
                assert(!has_player(s.drop_last()[i]));
            }
        }
        assert(has_player(s[player_index(s)]));
    } else {
        lemma_one_player_unique(s.drop_last());
        let j = player_index(s.drop_last());
        assert(s.drop_last()[j] == s[j]);
        assert(has_player(s[j]));
        assert(exists|i: int| 0 <= i < s.len() && has_player(s[i]));
        assert forall|i: int| 0 <= i < s.len() && has_player(s[i]) implies i == j by {
            assert(!has_player(s[last]));
            assert(s.drop_last()[i] == s[i]);
            assert(has_player(s.drop_last()[i]));
        }
        assert(has_player(s[player_index(s)]));
    }
}

/// With exactly one movable player in the store, any index the movement
/// query matches is the same index, and `movable_index` names it.
pub proof fn lemma_one_movable_unique(s: Seq<Entity>)
    requires
        count_movable(s) == 1,
    ensures
        0 <= movable_index(s) < s.len(),
        is_movable_player(s[movable_index(s)]),
        forall|i: int| 0 <= i < s.len() && is_movable_player(s[i]) ==> i == movable_index(s),
    decreases s.len(),
{
    let last = s.len() - 1;
    if is_movable_player(s.last()) {
        lemma_count_movable_zero(s.drop_last());
        assert(is_movable_player(s[last]));
        assert(exists|i: int| 0 <= i < s.len() && is_movable_player(s[i]));
        assert forall|i: int| 0 <= i < s.len() && is_movable_player(s[i]) implies i == last by {
            if i < last {
                assert(s.drop_last()[i] == s[i]);
                assert(!is_movable_player(s.drop_last()[i]));
            }
        }
        assert(is_movable_player(s[movable_index(s)]));
    } else {
        lemma_one_movable_unique(s.drop_last());
        let j = movable_index(s.drop_last());
        assert(s.drop_last()[j] == s[j]);
        assert(is_movable_player(s[j]));
        assert(exists|i: int| 0 <= i < s.len() && is_movable_player(s[i]));
        assert forall|i: int| 0 <= i < s.len() && is_movable_player(s[i]) implies i == j by {
            assert(!is_movable_player(s[last]));
            assert(s.drop_last()[i] == s[i]);
            assert(is_movable_player(s.drop_last()[i]));
        }
        assert(is_movable_player(s[movable_index(s)]));
    }
}

/// When the store holds exactly one player and the movement query matches
/// exactly one entity, they are the same entity: every movable player is a
/// player, so the two indices agree.
pub proof fn lemma_unique_indices_agree(s: Seq<Entity>)
    requires
        count_players(s) == 1,
        count_movable(s) == 1,
    ensures
        player_index(s) == movable_index(s),
{
    lemma_one_player_unique(s);
    lemma_one_movable_unique(s);
    assert(has_player(s[movable_index(s)]));
}

/// Two stores whose entities match the queries pointwise alike have the
/// same counts: the counts read only the presence of components.
pub proof fn lemma_count_congruent(s: Seq<Entity>, t: Seq<Entity>)
    requires
        s.len() == t.len(),
        forall|i: int| 0 <= i < s.len() ==> #[trigger] has_player(s[i]) == has_player(t[i]),
        forall|i: int|
            0 <= i < s.len() ==> #[trigger] is_movable_player(s[i]) == is_movable_player(t[i]),
    ensures
        count_players(s) == count_players(t),
        count_movable(s) == count_movable(t),
    decreases s.len(),
{
    if s.len() > 0 {
        assert(forall|i: int|
            0 <= i < s.len() - 1 ==> s[i] == #[trigger] s.drop_last()[i]);
        assert(forall|i: int|
            0 <= i < t.len() - 1 ==> t[i] == #[trigger] t.drop_last()[i]);
        lemma_count_congruent(s.drop_last(), t.drop_last());
        assert(has_player(s.last()) == has_player(t[s.len() - 1]));
        assert(is_movable_player(s.last()) == is_movable_player(t[s.len() - 1]));
    }
}

} // verus!
