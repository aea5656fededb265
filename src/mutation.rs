use vstd::prelude::*;

use crate::genetic_code::{lemma_bases_round_trip, lemma_stop_bases, Base, Codon};
use vstd::seq_lib::{lemma_seq_contains_after_push, lemma_seq_empty_contains_nothing};

verus! {

/// The predicate "differs from `b`".
pub open spec fn other_than(b: Base) -> spec_fn(Base) -> bool {
    |x: Base| x != b
}

/// The predicate "holds no stop codon".
pub open spec fn stop_free() -> spec_fn(Seq<Codon>) -> bool {
    |p: Seq<Codon>| forall|j: int| 0 <= j < p.len() ==> !(#[trigger] p[j]).is_stop()
}

/// The orders in which the differing positions may be changed one at a time:
/// every permutation of the positions flagged true, in a fixed listing order.
pub open spec fn change_orders(d0: bool, d1: bool, d2: bool) -> Seq<Seq<usize>> {
    match (d0, d1, d2) {
        (false, false, false) => seq![],
        (true, false, false) => seq![seq![0usize]],
        (false, true, false) => seq![seq![1usize]],
        (false, false, true) => seq![seq![2usize]],
        (true, true, false) => seq![seq![0usize, 1usize], seq![1usize, 0usize]],
        (true, false, true) => seq![seq![0usize, 2usize], seq![2usize, 0usize]],
        (false, true, true) => seq![seq![1usize, 2usize], seq![2usize, 1usize]],
        (true, true, true) => seq![
            seq![0usize, 1usize, 2usize],
            seq![2usize, 1usize, 0usize],
            seq![1usize, 2usize, 0usize],
            seq![0usize, 2usize, 1usize],
            seq![2usize, 0usize, 1usize],
            seq![1usize, 0usize, 2usize],
        ],
    }
}

impl Codon {
    /// The three bases other than the one at position `i`, in the order A, C, G, T.
    pub open spec fn replacement_bases(self, i: int) -> Seq<Base> {
        Base::all().filter(other_than(self.base_at(i)))
    }

    /// The codons reached by changing the base at position `i` alone.
    pub open spec fn one_hit_mutants_at(self, i: int) -> Seq<Codon> {
        Seq::new(3, |k: int| self.with_base(i, self.replacement_bases(i)[k]))
    }

    /// The nine codons one base change away, position 0 first.
    pub open spec fn one_hit_mutants(self) -> Seq<Codon> {
        self.one_hit_mutants_at(0) + self.one_hit_mutants_at(1) + self.one_hit_mutants_at(2)
    }

    pub open spec fn differs_at(self, other: Codon, i: int) -> bool {
        self.base_at(i) != other.base_at(i)
    }

    /// The change at position `i`: `None` where the bases agree.
    pub open spec fn base_change(self, other: Codon, i: int) -> Option<(Base, Base)> {
        if self.differs_at(other, i) {
            Some((self.base_at(i), other.base_at(i)))
        } else {
            None
        }
    }

    /// The number of positions at which the two codons differ.
    pub open spec fn base_changes(self, other: Codon) -> nat {
        (if self.differs_at(other, 0) { 1nat } else { 0nat }) + (if self.differs_at(other, 1) {
            1nat
        } else {
            0nat
        }) + (if self.differs_at(other, 2) { 1nat } else { 0nat })
    }

    /// The codon that takes `other`'s base at the positions in `taken`, and
    /// keeps its own elsewhere.
    pub open spec fn blend(self, other: Codon, taken: Seq<usize>) -> Codon {
        Codon::from_bases(
            if taken.contains(0usize) { other.base_at(0) } else { self.base_at(0) },
            if taken.contains(1usize) { other.base_at(1) } else { self.base_at(1) },
            if taken.contains(2usize) { other.base_at(2) } else { self.base_at(2) },
        )
    }

    /// The path from `self` that changes the positions in `order` to `other`'s
    /// bases one at a time: `order.len() + 1` codons, `self` first.
    pub open spec fn pathway(self, other: Codon, order: Seq<usize>) -> Seq<Codon> {
        Seq::new((order.len() + 1) as nat, |j: int| self.blend(other, order.take(j)))
    }

    pub open spec fn orders_to(self, other: Codon) -> Seq<Seq<usize>> {
        change_orders(self.differs_at(other, 0), self.differs_at(other, 1), self.differs_at(other, 2))
    }

    /// Every ordering's path, stop codons or not.
    pub open spec fn candidate_pathways(self, other: Codon) -> Seq<Seq<Codon>> {
        Seq::new(self.orders_to(other).len(), |k: int| self.pathway(other, self.orders_to(other)[k]))
    }

    /// The single-step mutation pathways from `self` to `other` that never pass
    /// through a stop codon; none where either end is a stop codon.
    pub open spec fn mutation_pathways(self, other: Codon) -> Seq<Seq<Codon>> {
        if self.is_stop() || other.is_stop() {
            Seq::empty()
        } else {
            self.candidate_pathways(other).filter(stop_free())
        }
    }

    /// The replacement bases, written out.
    pub proof fn lemma_replacement_bases(self, i: int)
        ensures
            self.replacement_bases(i) == match self.base_at(i) {
                Base::A => seq![Base::C, Base::G, Base::T],
                Base::C => seq![Base::A, Base::G, Base::T],
                Base::G => seq![Base::A, Base::C, Base::T],
                Base::T => seq![Base::A, Base::C, Base::G],
            },
    {
        reveal_with_fuel(Seq::filter, 5);
        let all = Base::all();
        assert(all.drop_last() =~= seq![Base::A, Base::C, Base::G]);
        assert(all.drop_last().drop_last() =~= seq![Base::A, Base::C]);
        assert(all.drop_last().drop_last().drop_last() =~= seq![Base::A]);
        assert(all.drop_last().drop_last().drop_last().drop_last() =~= Seq::<Base>::empty());
        assert(self.replacement_bases(i) =~= match self.base_at(i) {
            Base::A => seq![Base::C, Base::G, Base::T],
            Base::C => seq![Base::A, Base::G, Base::T],
            Base::G => seq![Base::A, Base::C, Base::T],
            Base::T => seq![Base::A, Base::C, Base::G],
        });
    }

    /// The three codons that differ from `self` at position `i` only.
    pub fn one_hit_mutants_by_position_(&self, i: usize) -> (r: Vec<Codon>)
        requires
            i < 3,
        ensures
            r@ == self.one_hit_mutants_at(i as int),
    {
        let bases = self.to_bases_();
        let base = bases[i];
        let all: [Base; 4] = [Base::A, Base::C, Base::G, Base::T];
        assert(all@ =~= Base::all());
        let mut r: Vec<Codon> = Vec::new();
        let mut j: usize = 0;
        while j < 4
            invariant
                j <= 4,
                all@ == Base::all(),
                base == self.base_at(i as int),
                bases@ == seq![self.bases().0, self.bases().1, self.bases().2],
                i < 3,
                r@.len() == Base::all().take(j as int).filter(other_than(base)).len(),
                forall|k: int|
                    0 <= k < r@.len() ==> #[trigger] r@[k] == self.with_base(
                        i as int,
                        Base::all().take(j as int).filter(other_than(base))[k],
                    ),
            decreases 4 - j,
        {
            let b = all[j];
            proof {
                reveal(Seq::filter);
                assert(Base::all().take(j + 1).drop_last() =~= Base::all().take(j as int));
            }
            if b != base {
                let b0 = if i == 0 { b } else { bases[0] };
                let b1 = if i == 1 { b } else { bases[1] };
                let b2 = if i == 2 { b } else { bases[2] };
                r.push(Codon::from_bases_(b0, b1, b2).unwrap());
            }
            j += 1;
        }
        proof {
            assert(Base::all().take(4) =~= Base::all());
            reveal_with_fuel(Seq::filter, 5);
        }
        assert(r@ =~= self.one_hit_mutants_at(i as int));
        r
    }

    /// The nine codons that differ from `self` at one position; none repeats.
    pub fn one_hit_mutants_(&self) -> (r: Vec<Codon>)
        ensures
            r@ == self.one_hit_mutants(),
    {
        let mut r = self.one_hit_mutants_by_position_(0);
        let mut second = self.one_hit_mutants_by_position_(1);
        let mut third = self.one_hit_mutants_by_position_(2);
        r.append(&mut second);
        r.append(&mut third);
        r
    }

    /// For each position, the pair of bases where the two codons differ.
    pub fn base_change_by_position_(&self, other: &Self) -> (r: Vec<Option<(Base, Base)>>)
        ensures
            r@.len() == 3,
            forall|i: int| 0 <= i < 3 ==> #[trigger] r@[i] == self.base_change(*other, i),
    {
        let bases1 = self.to_bases_();
        let bases2 = other.to_bases_();
        let mut r: Vec<Option<(Base, Base)>> = Vec::new();
        let mut i: usize = 0;
        while i < 3
            invariant
                i <= 3,
                r@.len() == i,
                bases1@ == seq![self.bases().0, self.bases().1, self.bases().2],
                bases2@ == seq![other.bases().0, other.bases().1, other.bases().2],
                forall|k: int| 0 <= k < i ==> #[trigger] r@[k] == self.base_change(*other, k),
            decreases 3 - i,
        {
            let b1 = bases1[i];
            let b2 = bases2[i];
            if b1 == b2 {
                r.push(None);
            } else {
                r.push(Some((b1, b2)));
            }
            i += 1;
        }
        r
    }

    /// The number of positions at which the two codons differ.
    pub fn count_base_changes_(&self, other: &Self) -> (r: usize)
        ensures
            r == self.base_changes(*other),
    {
        let changes = self.base_change_by_position_(other);
        let mut count: usize = 0;
        if changes[0].is_some() {
            count += 1;
        }
        if changes[1].is_some() {
            count += 1;
        }
        if changes[2].is_some() {
            count += 1;
        }
        count
    }
    /// Builds `self.pathway(*other, order@)`.
    fn build_pathway(&self, other: &Self, order: &Vec<usize>) -> (r: Vec<Codon>)
        requires
            order@.len() <= 3,
            forall|j: int| 0 <= j < order@.len() ==> #[trigger] order@[j] < 3,
        ensures
            r@ == self.pathway(*other, order@),
    {
        let other_bases = other.to_bases_();
        let mut path: Vec<Codon> = Vec::new();
        path.push(*self);
        proof {
            assert(order@.take(0) =~= Seq::<usize>::empty());
            lemma_bases_round_trip(*self, Base::A, Base::A, Base::A);
        }
        let mut j: usize = 0;
        while j < order.len()
            invariant
                j <= order@.len(),
                order@.len() <= 3,
                forall|t: int| 0 <= t < order@.len() ==> #[trigger] order@[t] < 3,
                other_bases@ == seq![other.bases().0, other.bases().1, other.bases().2],
                path@.len() == j + 1,
                forall|t: int| 0 <= t <= j ==> #[trigger] path@[t] == self.blend(*other, order@.take(t)),
            decreases order@.len() - j,
        {
            let last = path[j];
            let bases = last.to_bases_();
            let p = order[j];
            let b0 = if p == 0 { other_bases[0] } else { bases[0] };
            let b1 = if p == 1 { other_bases[1] } else { bases[1] };
            let b2 = if p == 2 { other_bases[2] } else { bases[2] };
            let next = Codon::from_bases_(b0, b1, b2).unwrap();
            proof {
                let prev = order@.take(j as int);
                let cur = order@.take(j + 1);
                assert(cur =~= prev.push(p));
                lemma_bases_round_trip(last, b0, b1, b2);
                lemma_bases_round_trip(next, b0, b1, b2);
                assert forall|q: usize| #[trigger] cur.contains(q) == (prev.contains(q) || q == p) by {
                    lemma_seq_contains_after_push(prev, p, q);
                }
                let bl = self.blend(*other, prev);
                lemma_bases_round_trip(
                    bl,
                    if prev.contains(0usize) { other.base_at(0) } else { self.base_at(0) },
                    if prev.contains(1usize) { other.base_at(1) } else { self.base_at(1) },
                    if prev.contains(2usize) { other.base_at(2) } else { self.base_at(2) },
                );
                assert(next == self.blend(*other, cur));
            }
            path.push(next);
            j += 1;
        }
        assert(path@ =~= self.pathway(*other, order@));
        path
    }

    /// The single-step mutation pathways from `self` to `other` that avoid stop
    /// codons, each listing its codons from `self` to `other`.
    pub fn list_mutation_pathways_(&self, other: &Self) -> (r: Vec<Vec<Codon>>)
        ensures
            r@.map_values(|p: Vec<Codon>| p@) == self.mutation_pathways(*other),
    {
        if self.is_stop_codon_() || other.is_stop_codon_() {
            let r: Vec<Vec<Codon>> = Vec::new();
            assert(r@.map_values(|p: Vec<Codon>| p@) =~= Seq::<Seq<Codon>>::empty());
            return r;
        }
        let changes = self.base_change_by_position_(other);
        let orders = change_orders_exec(changes[0].is_some(), changes[1].is_some(), changes[2].is_some());
        let ghost cands = self.candidate_pathways(*other);
        let mut paths: Vec<Vec<Codon>> = Vec::new();
        let mut k: usize = 0;
        while k < orders.len()
            invariant
                k <= orders@.len(),
                orders@.len() == self.orders_to(*other).len(),
                forall|t: int| 0 <= t < orders@.len() ==> #[trigger] orders@[t]@ == self.orders_to(*other)[t],
                forall|t: int, u: int| 0 <= t < orders@.len() && 0 <= u < orders@[t]@.len() ==> #[trigger] orders@[t]@[u] < 3,
                forall|t: int| 0 <= t < orders@.len() ==> (#[trigger] orders@[t])@.len() <= 3,
                cands == self.candidate_pathways(*other),
                paths@.map_values(|p: Vec<Codon>| p@) == cands.take(k as int).filter(stop_free()),
            decreases orders@.len() - k,
        {
            let path = self.build_pathway(other, &orders[k]);
            let mut has_stop = false;
            let mut j: usize = 0;
            while j < path.len()
                invariant
                    j <= path@.len(),
                    has_stop == exists|t: int| 0 <= t < j && (#[trigger] path@[t]).is_stop(),
                decreases path@.len() - j,
            {
                if path[j].is_stop_codon_() {
                    has_stop = true;
                }
                j += 1;
            }
            proof {
                reveal(Seq::filter);
                assert(cands.take(k + 1).drop_last() =~= cands.take(k as int));
                assert(cands[k as int] == path@);
                if !has_stop {
                    assert(stop_free()(path@));
                } else {
                    assert(!stop_free()(path@));
                }
            }
            if !has_stop {
                let ghost before = paths@;
                paths.push(path);
                proof {
                    assert(paths@.map_values(|p: Vec<Codon>| p@) =~= before.map_values(|p: Vec<Codon>| p@).push(cands[k as int]));
                }
            }
            k += 1;
        }
        proof {
            assert(cands.take(orders@.len() as int) =~= cands);
        }
        paths
    }
}

/// The orderings of `change_orders`, as vectors.
fn change_orders_exec(d0: bool, d1: bool, d2: bool) -> (r: Vec<Vec<usize>>)
    ensures
        r@.len() == change_orders(d0, d1, d2).len(),
        forall|t: int| 0 <= t < r@.len() ==> #[trigger] r@[t]@ == change_orders(d0, d1, d2)[t],
        forall|t: int, u: int| 0 <= t < r@.len() && 0 <= u < r@[t]@.len() ==> #[trigger] r@[t]@[u] < 3,
        forall|t: int| 0 <= t < r@.len() ==> (#[trigger] r@[t])@.len() <= 3,
{
    let r = match (d0, d1, d2) {
        (false, false, false) => vec![],
        (true, false, false) => vec![vec![0usize]],
        (false, true, false) => vec![vec![1usize]],
        (false, false, true) => vec![vec![2usize]],
        (true, true, false) => vec![vec![0usize, 1], vec![1usize, 0]],
        (true, false, true) => vec![vec![0usize, 2], vec![2usize, 0]],
        (false, true, true) => vec![vec![1usize, 2], vec![2usize, 1]],
        (true, true, true) => vec![
            vec![0usize, 1, 2],
            vec![2usize, 1, 0],
            vec![1usize, 2, 0],
            vec![0usize, 2, 1],
            vec![2usize, 0, 1],
            vec![1usize, 0, 2],
        ],
    };
    r
}

/// The bases of a blend: `other`'s at the taken positions, `self`'s elsewhere.
pub proof fn lemma_blend_bases(a: Codon, b: Codon, taken: Seq<usize>)
    ensures
        a.blend(b, taken).base_at(0) == if taken.contains(0usize) { b.base_at(0) } else { a.base_at(0) },
        a.blend(b, taken).base_at(1) == if taken.contains(1usize) { b.base_at(1) } else { a.base_at(1) },
        a.blend(b, taken).base_at(2) == if taken.contains(2usize) { b.base_at(2) } else { a.base_at(2) },
{
    lemma_bases_round_trip(
        a,
        if taken.contains(0usize) { b.base_at(0) } else { a.base_at(0) },
        if taken.contains(1usize) { b.base_at(1) } else { a.base_at(1) },
        if taken.contains(2usize) { b.base_at(2) } else { a.base_at(2) },
    );
}

/// A codon is determined by its three bases.
proof fn lemma_same_bases(x: Codon, y: Codon)
    requires
        x.base_at(0) == y.base_at(0),
        x.base_at(1) == y.base_at(1),
        x.base_at(2) == y.base_at(2),
    ensures
        x == y,
{
    lemma_bases_round_trip(x, Base::A, Base::A, Base::A);
    lemma_bases_round_trip(y, Base::A, Base::A, Base::A);
}

/// Every candidate pathway runs from `a` to `b` and has one step per differing position.
pub proof fn lemma_candidate_shape(a: Codon, b: Codon, k: int)
    requires
        0 <= k < a.candidate_pathways(b).len(),
    ensures
        a.candidate_pathways(b)[k].len() == a.base_changes(b) + 1,
        a.candidate_pathways(b)[k][0] == a,
        a.candidate_pathways(b)[k].last() == b,
{
    broadcast use lemma_seq_contains_after_push, lemma_seq_empty_contains_nothing;

    let order = a.orders_to(b)[k];
    let path = a.candidate_pathways(b)[k];
    assert(order.take(0) =~= Seq::<usize>::empty());
    assert(order.take(order.len() as int) =~= order);
    lemma_blend_bases(a, b, order.take(0));
    lemma_blend_bases(a, b, order);
    lemma_same_bases(path[0], a);
    assert(order.contains(0usize) <==> a.differs_at(b, 0));
    assert(order.contains(1usize) <==> a.differs_at(b, 1));
    assert(order.contains(2usize) <==> a.differs_at(b, 2));
    lemma_same_bases(path.last(), b);
}

/// The first `j` positions of an order of at most three, written out.
proof fn lemma_order_prefix(order: Seq<usize>, j: int)
    requires
        0 <= j <= order.len() <= 3,
    ensures
        order.take(j) == if j == 0 {
            seq![]
        } else if j == 1 {
            seq![order[0]]
        } else if j == 2 {
            seq![order[0], order[1]]
        } else {
            seq![order[0], order[1], order[2]]
        },
{
    if j == 0 {
        assert(order.take(j) =~= seq![]);
    } else if j == 1 {
        assert(order.take(j) =~= seq![order[0]]);
    } else if j == 2 {
        assert(order.take(j) =~= seq![order[0], order[1]]);
    } else {
        assert(order.take(j) =~= seq![order[0], order[1], order[2]]);
    }
}

/// Whether the `k`-th candidate pathway avoids stop codons, codon by codon.
proof fn lemma_candidate_stops(a: Codon, b: Codon, k: int, j: int)
    requires
        0 <= k < a.candidate_pathways(b).len(),
        0 <= j < a.candidate_pathways(b)[k].len(),
    ensures
        a.candidate_pathways(b)[k][j] == a.blend(b, a.orders_to(b)[k].take(j)),
        a.candidate_pathways(b)[k][j].is_stop() <==> (
            a.candidate_pathways(b)[k][j].base_at(0) == Base::T && (
            (a.candidate_pathways(b)[k][j].base_at(1) == Base::A && a.candidate_pathways(b)[k][j].base_at(2) == Base::A)
            || (a.candidate_pathways(b)[k][j].base_at(1) == Base::A && a.candidate_pathways(b)[k][j].base_at(2) == Base::G)
            || (a.candidate_pathways(b)[k][j].base_at(1) == Base::G && a.candidate_pathways(b)[k][j].base_at(2) == Base::A))),
{
    lemma_stop_bases(a.candidate_pathways(b)[k][j]);
}

/// Between two different codons, neither a stop codon, some single-step
/// pathway avoids stop codons: one that changes the first base last when it
/// is not T, or first when it is, since every stop codon starts with T.
pub proof fn lemma_viable_pathway_exists(a: Codon, b: Codon)
    requires
        !a.is_stop(),
        !b.is_stop(),
        a != b,
    ensures
        a.mutation_pathways(b).len() > 0,
{
    broadcast use lemma_seq_contains_after_push, lemma_seq_empty_contains_nothing;

    let cands = a.candidate_pathways(b);
    let orders = a.orders_to(b);
    lemma_stop_bases(a);
    lemma_stop_bases(b);
    if !a.differs_at(b, 0) && !a.differs_at(b, 1) && !a.differs_at(b, 2) {
        lemma_same_bases(a, b);
    }
    let d0 = a.differs_at(b, 0);
    let d1 = a.differs_at(b, 1);
    let d2 = a.differs_at(b, 2);
    let first_t = a.base_at(0) == Base::T;
    let k0: int = if !d0 {
        0
    } else if first_t {
        0
    } else if d1 && d2 {
        2
    } else if d1 || d2 {
        1
    } else {
        0
    };
    let k: int = if !d0 && first_t && orders.len() > 1 && !stop_free()(cands[0]) { 1 } else { k0 };
    assert(0 <= k < cands.len());
    let order = orders[k];
    let path = cands[k];
    assert forall|j: int| 0 <= j < path.len() implies !(#[trigger] path[j]).is_stop() by {
        lemma_candidate_stops(a, b, k, j);
        lemma_order_prefix(order, j);
        lemma_blend_bases(a, b, order.take(j));
        if !d0 && first_t && orders.len() > 1 {
            // Two positions after a fixed T: one of the two orders is clear.
            lemma_candidate_stops(a, b, 0, 1);
            lemma_order_prefix(orders[0], 1);
            lemma_blend_bases(a, b, orders[0].take(1));
            lemma_candidate_shape(a, b, 0);
        }
    }
    assert(stop_free()(path));
    cands.lemma_filter_contains(stop_free(), k);
}

/// A filter that every element passes keeps the sequence whole.
proof fn lemma_filter_keeps_all<A>(s: Seq<A>, p: spec_fn(A) -> bool)
    requires
        forall|i: int| 0 <= i < s.len() ==> p(#[trigger] s[i]),
    ensures
        s.filter(p) == s,
    decreases s.len(),
{
    reveal(Seq::filter);
    if s.len() > 0 {
        lemma_filter_keeps_all(s.drop_last(), p);
        assert(s.drop_last().push(s.last()) =~= s);
    }
}

/// No pathway leads from or to a stop codon, nor from a codon to itself.
pub proof fn lemma_no_pathways(a: Codon, b: Codon)
    requires
        a.is_stop() || b.is_stop() || a == b,
    ensures
        a.mutation_pathways(b).len() == 0,
{
    reveal(Seq::filter);
    if !(a.is_stop() || b.is_stop()) {
        assert(a.candidate_pathways(b).len() == 0);
    }
}

/// Where no codon on any candidate pathway is a stop codon, every candidate is
/// a mutation pathway: one per ordering of the differing positions.
pub proof fn lemma_all_pathways_viable(a: Codon, b: Codon)
    requires
        forall|k: int, j: int|
            0 <= k < a.candidate_pathways(b).len() && 0 <= j < a.candidate_pathways(b)[k].len()
                ==> !(#[trigger] a.candidate_pathways(b)[k][j]).is_stop(),
        !a.is_stop(),
        !b.is_stop(),
    ensures
        a.mutation_pathways(b) == a.candidate_pathways(b),
        a.mutation_pathways(b).len() == a.orders_to(b).len(),
{
    let cands = a.candidate_pathways(b);
    assert forall|k: int| 0 <= k < cands.len() implies stop_free()(#[trigger] cands[k]) by {
        assert forall|j: int| 0 <= j < cands[k].len() implies !(#[trigger] cands[k][j]).is_stop() by {
            assert(!a.candidate_pathways(b)[k][j].is_stop());
        }
    }
    lemma_filter_keeps_all(cands, stop_free());
}

/// Two codons one base apart, neither a stop codon, are joined by exactly one
/// pathway: the direct step between them.
pub proof fn lemma_one_change_one_pathway(a: Codon, b: Codon)
    requires
        a.base_changes(b) == 1,
        !a.is_stop(),
        !b.is_stop(),
    ensures
        a.mutation_pathways(b).len() == 1,
        a.mutation_pathways(b)[0] == seq![a, b],
{
    let cands = a.candidate_pathways(b);
    assert(cands.len() == 1);
    lemma_candidate_shape(a, b, 0);
    assert(cands[0] =~= seq![a, b]);
    lemma_all_pathways_viable(a, b);
}

/// Different orderings give different paths: they part at the first step where
/// the orderings differ.
pub proof fn lemma_candidates_distinct(a: Codon, b: Codon, i: int, j: int)
    requires
        0 <= i < a.candidate_pathways(b).len(),
        0 <= j < a.candidate_pathways(b).len(),
        i != j,
    ensures
        a.candidate_pathways(b)[i] != a.candidate_pathways(b)[j],
{
    broadcast use lemma_seq_contains_after_push, lemma_seq_empty_contains_nothing;

    let orders = a.orders_to(b);
    let (oi, oj) = (orders[i], orders[j]);
    let (pi, pj) = (a.candidate_pathways(b)[i], a.candidate_pathways(b)[j]);
    assert(oi.len() >= 2 && oj.len() >= 2);
    lemma_order_prefix(oi, 1);
    lemma_order_prefix(oj, 1);
    lemma_order_prefix(oi, 2);
    lemma_order_prefix(oj, 2);
    lemma_blend_bases(a, b, oi.take(1));
    lemma_blend_bases(a, b, oj.take(1));
    lemma_blend_bases(a, b, oi.take(2));
    lemma_blend_bases(a, b, oj.take(2));
    assert(pi[1] == a.blend(b, oi.take(1)) && pj[1] == a.blend(b, oj.take(1)));
    assert(pi[2] == a.blend(b, oi.take(2)) && pj[2] == a.blend(b, oj.take(2)));
    if oi[0] != oj[0] {
        assert(pi[1] != pj[1]) by {
            if oi[0] == 0 {
                assert(pi[1].base_at(0) != pj[1].base_at(0));
            } else if oi[0] == 1 {
                assert(pi[1].base_at(1) != pj[1].base_at(1));
            } else {
                assert(pi[1].base_at(2) != pj[1].base_at(2));
            }
        }
    } else {
        assert(pi[2] != pj[2]) by {
            if oi[1] == 0 {
                assert(pi[2].base_at(0) != pj[2].base_at(0));
            } else if oi[1] == 1 {
                assert(pi[2].base_at(1) != pj[2].base_at(1));
            } else {
                assert(pi[2].base_at(2) != pj[2].base_at(2));
            }
        }
    }
}

/// Two codons two bases apart, with no stop codon on any way between them,
/// are joined by exactly two different pathways of three codons.
pub proof fn lemma_two_changes_two_pathways(a: Codon, b: Codon)
    requires
        a.base_changes(b) == 2,
        !a.is_stop(),
        !b.is_stop(),
        forall|k: int, j: int|
            0 <= k < a.candidate_pathways(b).len() && 0 <= j < a.candidate_pathways(b)[k].len()
                ==> !(#[trigger] a.candidate_pathways(b)[k][j]).is_stop(),
    ensures
        a.mutation_pathways(b).len() == 2,
        forall|i: int| 0 <= i < 2 ==> (#[trigger] a.mutation_pathways(b)[i]).len() == 3,
        a.mutation_pathways(b)[0] != a.mutation_pathways(b)[1],
{
    lemma_all_pathways_viable(a, b);
    lemma_candidate_shape(a, b, 0);
    lemma_candidate_shape(a, b, 1);
    lemma_candidates_distinct(a, b, 0, 1);
}

/// Two codons three bases apart, with no stop codon on any way between them,
/// are joined by exactly six pairwise different pathways of four codons.
pub proof fn lemma_three_changes_six_pathways(a: Codon, b: Codon)
    requires
        a.base_changes(b) == 3,
        !a.is_stop(),
        !b.is_stop(),
        forall|k: int, j: int|
            0 <= k < a.candidate_pathways(b).len() && 0 <= j < a.candidate_pathways(b)[k].len()
                ==> !(#[trigger] a.candidate_pathways(b)[k][j]).is_stop(),
    ensures
        a.mutation_pathways(b).len() == 6,
        forall|i: int| 0 <= i < 6 ==> (#[trigger] a.mutation_pathways(b)[i]).len() == 4,
        forall|i: int, j: int|
            0 <= i < 6 && 0 <= j < 6 && i != j ==> #[trigger] a.mutation_pathways(b)[i]
                != #[trigger] a.mutation_pathways(b)[j],
{
    lemma_all_pathways_viable(a, b);
    assert forall|i: int| 0 <= i < 6 implies (#[trigger] a.mutation_pathways(b)[i]).len() == 4 by {
        lemma_candidate_shape(a, b, i);
    }
    assert forall|i: int, j: int| 0 <= i < 6 && 0 <= j < 6 && i != j implies #[trigger] a.mutation_pathways(
        b,
    )[i] != #[trigger] a.mutation_pathways(b)[j] by {
        lemma_candidates_distinct(a, b, i, j);
    }
}

/// The one-hit mutants of a codon are nine different codons, each one base
/// change away from it.
pub proof fn lemma_one_hit_mutants_shape(c: Codon)
    ensures
        c.one_hit_mutants().len() == 9,
        c.one_hit_mutants().no_duplicates(),
        forall|i: int| 0 <= i < 9 ==> c.base_changes(#[trigger] c.one_hit_mutants()[i]) == 1,
{
    let ms = c.one_hit_mutants();
    c.lemma_replacement_bases(0);
    c.lemma_replacement_bases(1);
    c.lemma_replacement_bases(2);
    assert forall|i: int| 0 <= i < 9 implies {
        &&& (#[trigger] ms[i]).base_at(i / 3) == c.replacement_bases(i / 3)[i % 3]
        &&& forall|p: int| 0 <= p < 3 && p != i / 3 ==> ms[i].base_at(p) == c.base_at(p)
    } by {
        let p = i / 3;
        let b = c.replacement_bases(p)[i % 3];
        lemma_bases_round_trip(
            c,
            if p == 0 { b } else { c.base_at(0) },
            if p == 1 { b } else { c.base_at(1) },
            if p == 2 { b } else { c.base_at(2) },
        );
    }
    assert forall|i: int| 0 <= i < 9 implies c.base_changes(#[trigger] ms[i]) == 1 by {
        assert(c.replacement_bases(i / 3)[i % 3] != c.base_at(i / 3));
    }
    assert forall|i: int, j: int| 0 <= i < 9 && 0 <= j < 9 && i != j implies #[trigger] ms[i] != #[trigger] ms[j] by {
        if i / 3 == j / 3 {
            assert(ms[i].base_at(i / 3) != ms[j].base_at(i / 3));
        } else {
            assert(ms[i].base_at(i / 3) != c.base_at(i / 3));
            assert(ms[j].base_at(i / 3) == c.base_at(i / 3));
        }
    }
}

/// Every codon one base change away is among the one-hit mutants.
pub proof fn lemma_one_hit_mutants_complete(c: Codon, m: Codon)
    requires
        c.base_changes(m) == 1,
    ensures
        c.one_hit_mutants().contains(m),
{
    let ms = c.one_hit_mutants();
    lemma_one_hit_mutants_shape(c);
    c.lemma_replacement_bases(0);
    c.lemma_replacement_bases(1);
    c.lemma_replacement_bases(2);
    let p: int = if c.differs_at(m, 0) { 0 } else if c.differs_at(m, 1) { 1 } else { 2 };
    let rb = c.replacement_bases(p);
    let k: int = if rb[0] == m.base_at(p) { 0 } else if rb[1] == m.base_at(p) { 1 } else { 2 };
    assert(rb[k] == m.base_at(p));
    let i = 3 * p + k;
    assert(i / 3 == p && i % 3 == k);
    lemma_bases_round_trip(
        c,
        if p == 0 { rb[k] } else { c.base_at(0) },
        if p == 1 { rb[k] } else { c.base_at(1) },
        if p == 2 { rb[k] } else { c.base_at(2) },
    );
    lemma_same_bases(ms[i], m);
    assert(ms[i] == m);
}

/// Each step along a candidate pathway changes exactly one base.
pub proof fn lemma_pathway_steps(a: Codon, b: Codon, k: int, j: int)
    requires
        0 <= k < a.candidate_pathways(b).len(),
        0 <= j < a.candidate_pathways(b)[k].len() - 1,
    ensures
        a.candidate_pathways(b)[k][j].base_changes(a.candidate_pathways(b)[k][j + 1]) == 1,
{
    broadcast use lemma_seq_contains_after_push, lemma_seq_empty_contains_nothing;

    let order = a.orders_to(b)[k];
    let path = a.candidate_pathways(b)[k];
    lemma_order_prefix(order, j);
    lemma_order_prefix(order, j + 1);
    lemma_blend_bases(a, b, order.take(j));
    lemma_blend_bases(a, b, order.take(j + 1));
    assert(path[j] == a.blend(b, order.take(j)));
    assert(path[j + 1] == a.blend(b, order.take(j + 1)));
}

/// Each step along a mutation pathway changes exactly one base.
pub proof fn lemma_mutation_pathway_steps(a: Codon, b: Codon, i: int, j: int)
    requires
        0 <= i < a.mutation_pathways(b).len(),
        0 <= j < a.mutation_pathways(b)[i].len() - 1,
    ensures
        a.mutation_pathways(b)[i][j].base_changes(a.mutation_pathways(b)[i][j + 1]) == 1,
{
    let cands = a.candidate_pathways(b);
    let mp = a.mutation_pathways(b);
    assert(!(a.is_stop() || b.is_stop()));
    assert(mp.contains(mp[i]));
    cands.lemma_filter_contains_rev(stop_free(), mp[i]);
    let k = choose|k: int| 0 <= k < cands.len() && cands[k] == mp[i];
    lemma_pathway_steps(a, b, k, j);
}

} // verus!
