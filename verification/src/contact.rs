//! The contact classifier: out of all active contact manifolds touching the
//! player, pick the standing-on surface normal best aligned with world-up,
//! or report that the player is airborne.

use crate::vec2::V2;
use crate::vec2::dot_scaled;
use crate::vec2::dot_scaled_spec;
use crate::vec2::neg;
use crate::vec2::neg_spec;
use crate::vec2::up_vector;
use crate::vec2::v2_bounded;
use crate::vec2::world_up;
use vstd::prelude::*;

verus! {

/// One contact manifold as the physics engine reports it: the separating
/// normal and the handles of the two bodies the manifold connects.
#[derive(Clone, Debug)]
pub struct Manifold {
    pub first_body: Option<u64>,
    pub second_body: Option<u64>,
    pub normal: V2,
}

/// One contact pair: its manifolds, and the engine's flag saying whether any
/// contact of the pair is actually active this frame.
#[derive(Clone, Debug)]
pub struct ContactPair {
    pub has_any_active_contact: bool,
    pub manifolds: Vec<Manifold>,
}

/// A manifold whose normal is small enough for dot products.
pub open spec fn manifold_wf(m: Manifold) -> bool {
    v2_bounded(m.normal)
}

/// Every manifold of the pair is well formed.
pub open spec fn pair_wf(c: ContactPair) -> bool {
    forall|i: int| 0 <= i < c.manifolds@.len() ==> manifold_wf(c.manifolds@[i])
}

/// Every pair of the contact set is well formed.
pub open spec fn contacts_wf(cs: Seq<ContactPair>) -> bool {
    forall|i: int| 0 <= i < cs.len() ==> pair_wf(cs[i])
}

/// The manifold's normal oriented to point away from the surface under the
/// player: negated when the player is the manifold's first body, kept as
/// reported when it is the second, discarded when the manifold does not
/// involve the player.
pub open spec fn oriented_normal_spec(m: Manifold, player: u64) -> Option<V2> {
    if m.first_body == Some(player) {
        Some(neg_spec(m.normal))
    } else if m.second_body == Some(player) {
        Some(m.normal)
    } else {
        None
    }
}

/// Orients one manifold's normal toward the player's side.
pub fn oriented_normal(m: &Manifold, player: u64) -> (r: Option<V2>)
    requires
        manifold_wf(*m),
    ensures
        r == oriented_normal_spec(*m, player),
        r matches Some(n) ==> v2_bounded(n),
{
    let first_is_player: bool = match m.first_body {
        Some(b) => b == player,
        None => false,
    };
    let second_is_player: bool = match m.second_body {
        Some(b) => b == player,
        None => false,
    };
    if first_is_player {
        Some(neg(&m.normal))
    } else if second_is_player {
        Some(m.normal)
    } else {
        None
    }
}

/// Oriented normals gathered from a run of manifolds, kept in order.
pub open spec fn manifold_normals(ms: Seq<Manifold>, player: u64) -> Seq<V2>
    decreases ms.len(),
{
    if ms.len() == 0 {
        Seq::empty()
    } else {
        manifold_normals(ms.drop_last(), player) + (match oriented_normal_spec(
            ms.last(),
            player,
        ) {
            Some(n) => seq![n],
            None => Seq::empty(),
        })
    }
}

/// The candidate standing-on normals of a contact set: the oriented normal
/// of every manifold of every pair with an active contact, kept in order.
/// Pairs without an active contact are excluded before ranking.
pub open spec fn candidate_normals(cs: Seq<ContactPair>, player: u64) -> Seq<V2>
    decreases cs.len(),
{
    if cs.len() == 0 {
        Seq::empty()
    } else {
        candidate_normals(cs.drop_last(), player) + (if cs.last().has_any_active_contact {
            manifold_normals(cs.last().manifolds@, player)
        } else {
            Seq::empty()
        })
    }
}

/// The first-encountered candidate whose alignment with world-up is maximal:
/// a later candidate replaces the selection only when strictly better, so
/// ties keep the earlier candidate.
pub open spec fn best_normal(s: Seq<V2>) -> Option<V2>
    decreases s.len(),
{
    if s.len() == 0 {
        None
    } else {
        match best_normal(s.drop_last()) {
            None => Some(s.last()),
            Some(b) => if dot_scaled_spec(s.last(), world_up()) > dot_scaled_spec(
                b,
                world_up(),
            ) {
                Some(s.last())
            } else {
                Some(b)
            },
        }
    }
}

/// The grounding result for a whole contact set.
pub open spec fn ground_normal_spec(cs: Seq<ContactPair>, player: u64) -> Option<V2> {
    best_normal(candidate_normals(cs, player))
}

proof fn lemma_manifold_normals_step(ms: Seq<Manifold>, player: u64, j: int)
    requires
        0 <= j < ms.len(),
    ensures
        manifold_normals(ms.take(j + 1), player) == manifold_normals(ms.take(j), player)
            + (match oriented_normal_spec(ms[j], player) {
            Some(n) => seq![n],
            None => Seq::<V2>::empty(),
        }),
{
    assert(ms.take(j + 1).drop_last() =~= ms.take(j));
    assert(ms.take(j + 1).last() == ms[j]);
}

proof fn lemma_candidate_normals_step(cs: Seq<ContactPair>, player: u64, i: int)
    requires
        0 <= i < cs.len(),
    ensures
        candidate_normals(cs.take(i + 1), player) == candidate_normals(cs.take(i), player) + (
        if cs[i].has_any_active_contact {
            manifold_normals(cs[i].manifolds@, player)
        } else {
            Seq::<V2>::empty()
        }),
{
    assert(cs.take(i + 1).drop_last() =~= cs.take(i));
    assert(cs.take(i + 1).last() == cs[i]);
}

proof fn lemma_best_normal_push(s: Seq<V2>, n: V2)
    ensures
        best_normal(s.push(n)) == (match best_normal(s) {
            None => Some(n),
            Some(b) => if dot_scaled_spec(n, world_up()) > dot_scaled_spec(b, world_up()) {
                Some(n)
            } else {
                Some(b)
            },
        }),
{
    assert(s.push(n).drop_last() =~= s);
    assert(s.push(n).last() == n);
}

/// Computes the grounding result: the first-encountered candidate normal
/// with maximal alignment toward world-up, or `None` when no active manifold
/// involves the player.
pub fn classify_ground(contacts: &Vec<ContactPair>, player: u64) -> (r: Option<V2>)
    requires
        contacts_wf(contacts@),
    ensures
        r == ground_normal_spec(contacts@, player),
        r matches Some(n) ==> v2_bounded(n),
{
    let up: V2 = up_vector();
    let mut best: Option<V2> = None;
    let mut i: usize = 0;
    while i < contacts.len()
        invariant
            i <= contacts@.len(),
            contacts_wf(contacts@),
            up == world_up(),
            v2_bounded(up),
            best == best_normal(candidate_normals(contacts@.take(i as int), player)),
            best matches Some(b) ==> v2_bounded(b),
        decreases contacts@.len() - i,
    {
        let pair: &ContactPair = &contacts[i];
        if pair.has_any_active_contact {
            let ghost sofar: Seq<V2> = candidate_normals(contacts@.take(i as int), player);
            let mut j: usize = 0;
            while j < pair.manifolds.len()
                invariant
                    j <= pair.manifolds@.len(),
                    pair_wf(*pair),
                    up == world_up(),
                    v2_bounded(up),
                    best == best_normal(sofar + manifold_normals(
                        pair.manifolds@.take(j as int),
                        player,
                    )),
                    best matches Some(b) ==> v2_bounded(b),
                decreases pair.manifolds@.len() - j,
            {
                let ghost seen: Seq<V2> = sofar + manifold_normals(
                    pair.manifolds@.take(j as int),
                    player,
                );
                proof {
                    lemma_manifold_normals_step(pair.manifolds@, player, j as int);
                }
                match oriented_normal(&pair.manifolds[j], player) {
                    Some(n) => {
                        proof {
                            assert(sofar + manifold_normals(
                                pair.manifolds@.take(j as int + 1),
                                player,
                            ) =~= seen.push(n));
                            lemma_best_normal_push(seen, n);
                        }
                        match &best {
                            None => {
                                best = Some(n);
                            },
                            Some(b) => {
                                if dot_scaled(&n, &up) > dot_scaled(b, &up) {
                                    best = Some(n);
                                }
                            },
                        }
                    },
                    None => {
                        proof {
                            assert(sofar + manifold_normals(
                                pair.manifolds@.take(j as int + 1),
                                player,
                            ) =~= seen);
                        }
                    },
                }
                j = j + 1;
            }
            proof {
                lemma_candidate_normals_step(contacts@, player, i as int);
                assert(pair.manifolds@.take(pair.manifolds@.len() as int) =~= pair.manifolds@);
                assert(sofar + manifold_normals(pair.manifolds@, player) == candidate_normals(
                    contacts@.take(i as int + 1),
                    player,
                ));
            }
        } else {
            proof {
                lemma_candidate_normals_step(contacts@, player, i as int);
                assert(candidate_normals(contacts@.take(i as int), player) + Seq::<V2>::empty()
                    =~= candidate_normals(contacts@.take(i as int), player));
            }
        }
        i = i + 1;
    }
    proof {
        assert(contacts@.take(contacts@.len() as int) =~= contacts@);
    }
    best
}

/// The selection is sound: a grounding result exists exactly when there is a
/// candidate, it is itself one of the candidates, and no candidate is
/// strictly better aligned with world-up.
pub proof fn lemma_best_normal_is_max(s: Seq<V2>)
    ensures
        (best_normal(s) is None) <==> s.len() == 0,
        best_normal(s) matches Some(b) ==> s.contains(b) && forall|i: int|
            0 <= i < s.len() ==> dot_scaled_spec(s[i], world_up()) <= dot_scaled_spec(
                b,
                world_up(),
            ),
    decreases s.len(),
{
    if s.len() > 0 {
        lemma_best_normal_is_max(s.drop_last());
        let b = best_normal(s)->Some_0;
        if s.len() == 1 {
            assert(b == s[0]);
            assert(s.contains(b));
        } else {
            let prev = best_normal(s.drop_last())->Some_0;
            assert(s.drop_last().contains(prev));
            let k = choose|k: int| 0 <= k < s.drop_last().len() && s.drop_last()[k] == prev;
            assert(s[k] == prev);
            if b == s.last() {
                assert(s[s.len() - 1] == b);
                assert(s.contains(b));
            } else {
                assert(b == prev);
                assert(s.contains(b));
            }
            assert forall|i: int| 0 <= i < s.len() implies dot_scaled_spec(s[i], world_up())
                <= dot_scaled_spec(b, world_up()) by {
                if i < s.len() - 1 {
                    assert(s.drop_last()[i] == s[i]);
                }
            }
        }
    }
}

/// Classification has no hidden state: two grounding results computed from
/// the same contact set are the same.
pub proof fn lemma_classifier_deterministic(
    cs: Seq<ContactPair>,
    player: u64,
    first: Option<V2>,
    second: Option<V2>,
)
    requires
        first == ground_normal_spec(cs, player),
        second == ground_normal_spec(cs, player),
    ensures
        first == second,
{
}

} // verus!
