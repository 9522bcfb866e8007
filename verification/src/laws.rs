//! What holds of every run of releases.
//!
//! A merge function is an executable closure, and Verus knows of a call of it
//! only what the closure promises. The laws below speak of a merge function
//! through a mathematical operation `op` that it computes: whenever a call
//! `reduce(global, local)` returns, `global` holds `op(old global, local)`.

use vstd::prelude::*;
use vstd::seq_lib::lemma_fold_left_permutation;

verus! {

/// The global value after the locals in `locals` have been released, one after
/// the other and each exactly once, into a cell that started with `init`:
/// `op(.. op(op(init, locals[0]), locals[1]) .., locals[n - 1])`.
pub open spec fn merged<G, L>(op: spec_fn(G, L) -> G, init: G, locals: Seq<L>) -> G {
    locals.fold_left(init, op)
}

/// Exactly-once merge, one release at a time.
///
/// Let `reduce` compute `op`, and let the global value be `before`, the result
/// of releasing `released` into `init`. If one release with the local value
/// `local` takes the global value from `before` to `after` (the relation that
/// `GlobalCell::release` ensures, and `Lease::release_into` for a lease that
/// is still active), then `after` is the result of releasing `released`
/// followed by `local`: the new local has gone in once, and nothing else has
/// changed.
pub proof fn lemma_release_extends_merged<G, L, F: Fn(&mut G, &L)>(
    reduce: F,
    op: spec_fn(G, L) -> G,
    init: G,
    released: Seq<L>,
    before: G,
    local: L,
    after: G,
)
    requires
        forall|g: &mut G, l: &L| call_ensures(reduce, (g, l), ()) ==> *final(g) == op(*g, *l),
        before == merged(op, init, released),
        exists|g: &mut G|
            *g == before && *final(g) == after && call_ensures(reduce, (g, &local), ()),
    ensures
        after == merged(op, init, released.push(local)),
{
    // The fold over `released.push(local)` peels off `local` and folds the rest.
    assert(released.push(local).drop_last() == released);
}

/// Order-independence.
///
/// Let `op` take any two locals in either order with the same result, and let
/// `first` and `second` hold the same locals, each as often as the other, in
/// whatever order. Then releasing `first` and releasing `second` into the same
/// initial value end in the same global value.
pub proof fn lemma_merged_order_independent<G, L>(
    op: spec_fn(G, L) -> G,
    init: G,
    first: Seq<L>,
    second: Seq<L>,
)
    requires
        forall|g: G, x: L, y: L| #[trigger] op(op(g, x), y) == op(op(g, y), x),
        first.to_multiset() == second.to_multiset(),
    ensures
        merged(op, init, first) == merged(op, init, second),
{
    lemma_fold_left_permutation(first, second, op, init);
}

} // verus!
