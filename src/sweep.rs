use vstd::prelude::*;

use crate::classes::CalculateTemperature;
use crate::conditions::{BoundaryCondition, SetupConditions};
use crate::formula::{update_spec, Balance, Information, NodeUpdate};
use crate::grid::{class_at, classify, coord_x, coord_y, coord_z, cube, lemma_coords, Side};
use crate::setup::BoundaryConditions;

verus! {

/// The six neighbours of the node stored at `idx`, read from `prev`; a
/// neighbour outside the grid reads as `outside`.
pub open spec fn info_spec<T>(prev: Seq<T>, n: int, idx: int, outside: T) -> Information<T> {
    let x = coord_x(idx, n);
    let y = coord_y(idx, n);
    let z = coord_z(idx, n);
    Information {
        i_back: if x == 0 { outside } else { prev[idx - n * n] },
        i_front: if x == n - 1 { outside } else { prev[idx + n * n] },
        j_back: if y == 0 { outside } else { prev[idx - n] },
        j_front: if y == n - 1 { outside } else { prev[idx + n] },
        k_back: if z == 0 { outside } else { prev[idx - 1] },
        k_front: if z == n - 1 { outside } else { prev[idx + 1] },
    }
}

/// How the node stored at `idx` is updated from the field `prev`.
pub open spec fn node_spec<T: Copy>(
    setup: SetupConditions<T>,
    prev: Seq<T>,
    n: int,
    idx: int,
    outside: T,
) -> NodeUpdate<T> {
    let c = class_at(idx, n);
    update_spec(
        c,
        setup.x_condition(c.x),
        setup.y_condition(c.y),
        setup.z_condition(c.z),
        info_spec(prev, n, idx, outside),
    )
}

/// Whether `v` is a value that the update `u` may produce: the fixed value,
/// or a result of the balance formula.
pub open spec fn produces<T, F: Fn(Balance<T>) -> T>(formula: F, u: NodeUpdate<T>, v: T) -> bool {
    match u {
        NodeUpdate::Fixed(t) => v == t,
        NodeUpdate::Balance(b) => call_ensures(formula, (b,), v),
    }
}

/// Whether `next` is one Jacobi sweep of `prev`: every node's value is
/// produced by its update, which reads the previous field only.
pub open spec fn swept<T: Copy, F: Fn(Balance<T>) -> T>(
    setup: SetupConditions<T>,
    prev: Seq<T>,
    n: int,
    outside: T,
    formula: F,
    next: Seq<T>,
) -> bool {
    &&& next.len() == prev.len()
    &&& forall|idx: int|
        0 <= idx < next.len() ==> #[trigger] produces(
            formula,
            node_spec(setup, prev, n, idx, outside),
            next[idx],
        )
}

/// The formula gives one result for each balance.
pub open spec fn deterministic<T, F: Fn(Balance<T>) -> T>(formula: F) -> bool {
    forall|b: Balance<T>, v1: T, v2: T|
        call_ensures(formula, (b,), v1) && call_ensures(formula, (b,), v2) ==> v1 == v2
}

pub open spec fn accepts_all<T, F: Fn(Balance<T>) -> T>(formula: F) -> bool {
    forall|b: Balance<T>| call_requires(formula, (b,))
}

/// Gathers the six neighbours of the node `(x, y, z)` stored at `idx`.
pub fn information<T: Copy>(
    prev: &Vec<T>,
    n: usize,
    idx: usize,
    x: usize,
    y: usize,
    z: usize,
    outside: T,
) -> (r: Information<T>)
    requires
        2 <= n,
        prev@.len() == cube(n as int),
        idx < prev@.len(),
        x == coord_x(idx as int, n as int),
        y == coord_y(idx as int, n as int),
        z == coord_z(idx as int, n as int),
    ensures
        r == info_spec(prev@, n as int, idx as int, outside),
{
    let len = prev.len();
    proof {
        lemma_coords(idx as int, n as int);
        assert(n * n <= n * n * n) by (nonlinear_arith)
            requires
                1 <= n,
        ;
    }
    let nn = n * n;
    let i_back = if x == 0 { outside } else { prev[idx - nn] };
    let i_front = if x == n - 1 { outside } else { prev[idx + nn] };
    let j_back = if y == 0 { outside } else { prev[idx - n] };
    let j_front = if y == n - 1 { outside } else { prev[idx + n] };
    let k_back = if z == 0 { outside } else { prev[idx - 1] };
    let k_front = if z == n - 1 { outside } else { prev[idx + 1] };
    Information { i_front, i_back, j_front, j_back, k_front, k_back }
}

/// The new value of the node stored at `idx`.
fn node_value<T: Copy, F: Fn(Balance<T>) -> T>(
    bcs: &BoundaryConditions<T>,
    prev: &Vec<T>,
    n: usize,
    idx: usize,
    outside: T,
    formula: &F,
) -> (r: T)
    requires
        bcs.wf(),
        2 <= n,
        prev@.len() == cube(n as int),
        idx < prev@.len(),
        accepts_all(*formula),
    ensures
        produces(*formula, node_spec(bcs.setup(), prev@, n as int, idx as int, outside), r),
{
    let len = prev.len();
    proof {
        lemma_coords(idx as int, n as int);
        assert(n * n <= n * n * n) by (nonlinear_arith)
            requires
                1 <= n,
        ;
    }
    let nn = n * n;
    let x = idx / nn;
    let y = (idx / n) % n;
    let z = idx % n;
    let c = classify(x, y, z, n);
    let info = information(prev, n, idx, x, y, z, outside);
    match bcs.calculate(c, info) {
        NodeUpdate::Fixed(t) => t,
        NodeUpdate::Balance(b) => formula(b),
    }
}

/// One Jacobi sweep over a field of `n` nodes per axis: each node's new value
/// comes from its class rule applied to the previous field only. Balances
/// are evaluated by `formula`; a neighbour outside the grid reads `outside`.
pub fn sweep<T: Copy, F: Fn(Balance<T>) -> T>(
    bcs: &BoundaryConditions<T>,
    prev: &Vec<T>,
    n: usize,
    outside: T,
    formula: &F,
) -> (r: Vec<T>)
    requires
        bcs.wf(),
        2 <= n,
        prev@.len() == cube(n as int),
        accepts_all(*formula),
    ensures
        swept(bcs.setup(), prev@, n as int, outside, *formula, r@),
{
    let len = prev.len();
    let mut next: Vec<T> = Vec::with_capacity(len);
    let mut idx: usize = 0;
    while idx < len
        invariant
            bcs.wf(),
            2 <= n,
            len == prev@.len(),
            prev@.len() == cube(n as int),
            accepts_all(*formula),
            idx <= len,
            next@.len() == idx,
            forall|j: int|
                0 <= j < idx ==> #[trigger] produces(
                    *formula,
                    node_spec(bcs.setup(), prev@, n as int, j, outside),
                    next@[j],
                ),
        decreases len - idx,
    {
        let v = node_value(bcs, prev, n, idx, outside, formula);
        next.push(v);
        idx = idx + 1;
    }
    next
}

/// Whether `order` lists every position of a field of `len` nodes exactly
/// once.
pub open spec fn is_permutation(order: Seq<usize>, len: int) -> bool {
    &&& order.len() == len
    &&& forall|t: int| 0 <= t < len ==> #[trigger] order[t] < len
    &&& forall|s: int, t: int| 0 <= s < t < len ==> #[trigger] order[s] != #[trigger] order[t]
    &&& forall|idx: int| 0 <= idx < len ==> #[trigger] lists(order, idx)
}

/// Whether position `idx` appears in `order`.
pub open spec fn lists(order: Seq<usize>, idx: int) -> bool {
    exists|t: int| 0 <= t < order.len() && order[t] == idx
}

/// The same sweep, evaluating the nodes in the order that `order` lists them.
pub fn sweep_in_order<T: Copy, F: Fn(Balance<T>) -> T>(
    bcs: &BoundaryConditions<T>,
    prev: &Vec<T>,
    n: usize,
    outside: T,
    formula: &F,
    order: &Vec<usize>,
) -> (r: Vec<T>)
    requires
        bcs.wf(),
        2 <= n,
        prev@.len() == cube(n as int),
        accepts_all(*formula),
        is_permutation(order@, prev@.len() as int),
    ensures
        swept(bcs.setup(), prev@, n as int, outside, *formula, r@),
{
    let len = prev.len();
    let mut next: Vec<T> = Vec::with_capacity(len);
    let mut i: usize = 0;
    while i < len
        invariant
            i <= len,
            next@.len() == i,
        decreases len - i,
    {
        next.push(outside);
        i = i + 1;
    }
    let mut t: usize = 0;
    while t < len
        invariant
            bcs.wf(),
            2 <= n,
            len == prev@.len(),
            prev@.len() == cube(n as int),
            accepts_all(*formula),
            is_permutation(order@, len as int),
            t <= len,
            next@.len() == len,
            forall|s: int|
                0 <= s < t ==> #[trigger] produces(
                    *formula,
                    node_spec(bcs.setup(), prev@, n as int, order@[s] as int, outside),
                    next@[order@[s] as int],
                ),
        decreases len - t,
    {
        let idx = order[t];
        let v = node_value(bcs, prev, n, idx, outside, formula);
        next.set(idx, v);
        proof {
            assert forall|s: int| 0 <= s < t + 1 implies #[trigger] produces(
                *formula,
                node_spec(bcs.setup(), prev@, n as int, order@[s] as int, outside),
                next@[order@[s] as int],
            ) by {
                if s < t {
                    assert(order@[s] != order@[t as int]);
                }
            }
        }
        t = t + 1;
    }
    proof {
        assert forall|idx: int| 0 <= idx < next@.len() implies #[trigger] produces(
            *formula,
            node_spec(bcs.setup(), prev@, n as int, idx, outside),
            next@[idx],
        ) by {
            assert(lists(order@, idx));
            let s = choose|s: int| 0 <= s < order@.len() && order@[s] == idx;
            assert(produces(
                *formula,
                node_spec(bcs.setup(), prev@, n as int, order@[s] as int, outside),
                next@[order@[s] as int],
            ));
        }
    }
    next
}

/// A sweep does not depend on the order in which the nodes are evaluated:
/// with a formula that gives one result per balance, any two fields that are
/// each a sweep of the same previous field are equal.
pub proof fn lemma_sweep_order_independent<T: Copy, F: Fn(Balance<T>) -> T>(
    setup: SetupConditions<T>,
    prev: Seq<T>,
    n: int,
    outside: T,
    formula: F,
    a: Seq<T>,
    b: Seq<T>,
)
    requires
        deterministic(formula),
        swept(setup, prev, n, outside, formula, a),
        swept(setup, prev, n, outside, formula, b),
    ensures
        a == b,
{
    assert forall|idx: int| 0 <= idx < a.len() implies a[idx] == b[idx] by {
        let u = node_spec(setup, prev, n, idx, outside);
        assert(produces(formula, u, a[idx]));
        assert(produces(formula, u, b[idx]));
    }
    assert(a =~= b);
}

/// A field that holds `t` everywhere.
pub open spec fn uniform<T>(s: Seq<T>, t: T) -> bool {
    forall|i: int| 0 <= i < s.len() ==> s[i] == t
}

/// A balance of an interior node whose six neighbours all hold `t`.
pub open spec fn uniform_interior<T>(b: Balance<T>, t: T) -> bool {
    &&& b.class.x == Side::Middle
    &&& b.class.y == Side::Middle
    &&& b.class.z == Side::Middle
    &&& b.info == (Information {
        i_front: t,
        i_back: t,
        j_front: t,
        j_back: t,
        k_front: t,
        k_back: t,
    })
}

/// Uniform equilibrium: with all six faces held at `t` and a previous field
/// that is `t` everywhere, one sweep changes nothing, given a balance formula
/// that returns the common value of a uniform interior neighbourhood (as it
/// does with no heat generation). The error between the two fields is then
/// zero after the first sweep.
pub proof fn lemma_dirichlet_equilibrium<T: Copy, F: Fn(Balance<T>) -> T>(
    setup: SetupConditions<T>,
    prev: Seq<T>,
    n: int,
    outside: T,
    formula: F,
    next: Seq<T>,
    t: T,
)
    requires
        2 <= n,
        prev.len() == cube(n),
        setup.right_boundary == (BoundaryCondition::Temperature { temperature: t }),
        setup.left_boundary == (BoundaryCondition::Temperature { temperature: t }),
        setup.top_boundary == (BoundaryCondition::Temperature { temperature: t }),
        setup.bot_boundary == (BoundaryCondition::Temperature { temperature: t }),
        setup.front_boundary == (BoundaryCondition::Temperature { temperature: t }),
        setup.back_boundary == (BoundaryCondition::Temperature { temperature: t }),
        uniform(prev, t),
        forall|b: Balance<T>, v: T| uniform_interior(b, t) && call_ensures(formula, (b,), v) ==> v
            == t,
        swept(setup, prev, n, outside, formula, next),
    ensures
        next == prev,
{
    assert forall|idx: int| 0 <= idx < next.len() implies next[idx] == prev[idx] by {
        lemma_coords(idx, n);
        let u = node_spec(setup, prev, n, idx, outside);
        assert(produces(formula, u, next[idx]));
        let c = class_at(idx, n);
        if c.x == Side::Middle && c.y == Side::Middle && c.z == Side::Middle {
            assert(info_spec(prev, n, idx, outside) == Information {
                i_front: t,
                i_back: t,
                j_front: t,
                j_back: t,
                k_front: t,
                k_back: t,
            });
        }
    }
    assert(next =~= prev);
}

} // verus!
