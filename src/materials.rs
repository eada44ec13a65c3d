use vstd::prelude::*;

verus! {

/// A constant-radiance emitter: whatever reaches it ends there, lit white.
#[derive(Debug, Clone, Copy, PartialEq, Eq, Structural)]
pub struct Light {}

impl Light {
    pub fn new() -> (r: Light)
        ensures
            r == (Light {}),
    {
        Light {}
    }
}

/// Which of the scattering models a scene object uses.
#[derive(Debug, Clone, Copy, PartialEq, Eq, Structural)]
pub enum MaterialKind {
    Lambertian,
    Metal,
    Glass,
    Texture,
    Light,
}

/// Positions, in increasing order, of the emitters among `kinds`.
pub open spec fn light_positions(kinds: Seq<MaterialKind>) -> Seq<usize>
    decreases kinds.len(),
{
    if kinds.len() == 0 {
        Seq::empty()
    } else {
        let rest = light_positions(kinds.drop_last());
        if kinds.last() == MaterialKind::Light {
            rest.push((kinds.len() - 1) as usize)
        } else {
            rest
        }
    }
}

/// Picks out the emitters of a scene, given the material kind of each of its objects in
/// order: the result lists their positions, in the scene's order.
pub fn find_lights(kinds: &Vec<MaterialKind>) -> (r: Vec<usize>)
    ensures
        r@ == light_positions(kinds@),
{
    let mut lights: Vec<usize> = Vec::new();
    let mut i: usize = 0;
    while i < kinds.len()
        invariant
            i <= kinds@.len(),
            lights@ == light_positions(kinds@.subrange(0, i as int)),
        decreases kinds@.len() - i,
    {
        let ghost seen = kinds@.subrange(0, i as int);
        let ghost next = kinds@.subrange(0, i + 1);
        assert(next.drop_last() =~= seen);
        if kinds[i] == MaterialKind::Light {
            lights.push(i);
        }
        i += 1;
    }
    assert(kinds@.subrange(0, kinds@.len() as int) =~= kinds@);
    lights
}

/// The positions that `find_lights` reports are exactly those of the emitters, each once,
/// in increasing order.
pub proof fn lemma_light_positions(kinds: Seq<MaterialKind>)
    requires
        kinds.len() <= usize::MAX,
    ensures
        forall|i: int|
            0 <= i < light_positions(kinds).len() ==> {
                let p = #[trigger] light_positions(kinds)[i];
                p < kinds.len() && kinds[p as int] == MaterialKind::Light
            },
        forall|i: int, j: int|
            0 <= i < j < light_positions(kinds).len() ==> light_positions(kinds)[i]
                < light_positions(kinds)[j],
        forall|k: int|
            0 <= k < kinds.len() && kinds[k] == MaterialKind::Light ==> light_positions(
                kinds,
            ).contains(k as usize),
    decreases kinds.len(),
{
    if kinds.len() > 0 {
        let init = kinds.drop_last();
        lemma_light_positions(init);
        let rest = light_positions(init);
        let all = light_positions(kinds);
        assert forall|i: int| 0 <= i < rest.len() implies rest[i] < kinds.len() - 1 && kinds[rest[i]
            as int] == MaterialKind::Light by {
            assert(init[rest[i] as int] == kinds[rest[i] as int]);
        }
        assert forall|i: int| 0 <= i < all.len() implies {
            let p = #[trigger] all[i];
            p < kinds.len() && kinds[p as int] == MaterialKind::Light
        } by {
            if i < rest.len() {
                assert(all[i] == rest[i]);
            }
        }
        assert forall|i: int, j: int| 0 <= i < j < all.len() implies all[i] < all[j] by {
            assert(all[i] == rest[i]);
            if j < rest.len() {
                assert(all[j] == rest[j]);
            }
        }
        assert forall|k: int|
            0 <= k < kinds.len() && kinds[k] == MaterialKind::Light implies light_positions(
                kinds,
            ).contains(k as usize) by {
            if k < kinds.len() - 1 {
                assert(init[k] == kinds[k]);
                let w = choose|w: int| 0 <= w < rest.len() && rest[w] == k as usize;
                assert(light_positions(kinds)[w] == k as usize);
            } else {
                assert(all[all.len() - 1] == k as usize);
            }
        }
    }
}

} // verus!
