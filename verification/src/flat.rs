//! Facts about flattened runs.
//!
//! The dispatch engine and the byte bridge both turn an array into one flat
//! run: of scalars in component order, or of bytes in encoding order.
//! These lemmas relate such runs built element by element to the runs the
//! contracts speak of.

use vstd::prelude::*;

verus! {

/// Mapping a flattened run equals flattening the run of mapped elements:
/// when `h` is `f` followed by mapping `g` over each element's run, the
/// flattening of `f` mapped by `g` is the flattening of `h`.
pub proof fn lemma_map_of_flat_map<A, B, C>(
    s: Seq<A>,
    f: spec_fn(A) -> Seq<B>,
    g: spec_fn(B) -> C,
    h: spec_fn(A) -> Seq<C>,
)
    requires
        forall|i: int| 0 <= i < s.len() ==> h(s[i]) == f(s[i]).map_values(g),
    ensures
        s.flat_map(f).map_values(g) == s.flat_map(h),
    decreases s.len(),
{
    if s.len() == 0 {
        assert(s.map_values(f) =~= Seq::<Seq<B>>::empty());
        assert(s.map_values(h) =~= Seq::<Seq<C>>::empty());
        assert(s.flat_map(f).map_values(g) =~= s.flat_map(h));
    } else {
        let t = s.drop_last();
        let x = s.last();
        assert(forall|i: int| 0 <= i < t.len() ==> t[i] == s[i]);
        lemma_map_of_flat_map(t, f, g, h);
        t.lemma_flat_map_push(f, x);
        t.lemma_flat_map_push(h, x);
        assert(t.push(x) =~= s);
        assert((t.flat_map(f) + f(x)).map_values(g) =~= t.flat_map(f).map_values(g) + f(
            x,
        ).map_values(g));
        assert(h(x) == f(x).map_values(g));
        assert(s.flat_map(f).map_values(g) =~= s.flat_map(h));
    }
}

/// Flattening singleton runs is mapping: when each element's run under `f`
/// is the singleton of its image under `g`, flattening `f` is mapping `g`.
pub proof fn lemma_flat_map_singletons<A, B>(s: Seq<A>, f: spec_fn(A) -> Seq<B>, g: spec_fn(A) -> B)
    requires
        forall|i: int| 0 <= i < s.len() ==> f(s[i]) == seq![g(s[i])],
    ensures
        s.flat_map(f) == s.map_values(g),
    decreases s.len(),
{
    if s.len() == 0 {
        assert(s.map_values(f) =~= Seq::<Seq<B>>::empty());
        assert(s.flat_map(f) =~= s.map_values(g));
    } else {
        let t = s.drop_last();
        let x = s.last();
        assert(forall|i: int| 0 <= i < t.len() ==> t[i] == s[i]);
        lemma_flat_map_singletons(t, f, g);
        t.lemma_flat_map_push(f, x);
        assert(t.push(x) =~= s);
        assert(f(x) == seq![g(x)]);
        assert(t.map_values(g) + seq![g(x)] =~= s.map_values(g));
        assert(s.flat_map(f) =~= s.map_values(g));
    }
}

} // verus!
