use vstd::prelude::*;

use crate::genetic_code::{lemma_bases_round_trip, lemma_stop_ends_in_purine, Base, Codon};
use crate::mutation::{lemma_one_change_one_pathway, lemma_viable_pathway_exists, stop_free};
use crate::parser::keep_valid_sites;
use crate::sequence::{both_present, PwAlnItem, SequenceItem};
use vstd::arithmetic::div_mod::lemma_div_multiples_vanish;

verus! {

/// Site and difference amounts are exact multiples of `1 / COUNT_SCALE`.
///
/// A single codon splits its three sites in proportion to its viable one-hit
/// mutants (at most nine), a pair of codons averages two such splits, and a
/// difference count averages over at most six pathways. 5040 is a multiple of
/// every denominator that arises, so no amount is ever rounded.
pub const COUNT_SCALE: u64 = 5040;

/// A synonymous and a nonsynonymous amount, each in units of `1 / COUNT_SCALE`.
#[derive(Debug, Copy, Clone, PartialEq, Eq, Structural)]
pub struct SynNonsyn {
    pub syn: u64,
    pub nonsyn: u64,
}

/// A stop codon was given where site or difference counts are undefined.
#[derive(Debug, Copy, Clone, PartialEq, Eq, Structural)]
pub struct StopCodonError;

/// The predicate "a viable mutant that encodes the same amino acid as `c`".
pub open spec fn synonymous_with(c: Codon) -> spec_fn(Codon) -> bool {
    |m: Codon| !m.is_stop() && c.synonymous(m)
}

/// The predicate "a viable mutant that encodes another amino acid than `c`".
pub open spec fn nonsynonymous_with(c: Codon) -> spec_fn(Codon) -> bool {
    |m: Codon| !m.is_stop() && !c.synonymous(m)
}

/// How many of the one-hit mutants of `c` are viable and synonymous.
pub open spec fn synonymous_mutants(c: Codon) -> nat {
    c.one_hit_mutants().filter(synonymous_with(c)).len()
}

/// How many of the one-hit mutants of `c` are viable and nonsynonymous.
pub open spec fn nonsynonymous_mutants(c: Codon) -> nat {
    c.one_hit_mutants().filter(nonsynonymous_with(c)).len()
}

/// The synonymous share of the three sites of `c`, scaled by `COUNT_SCALE`.
pub open spec fn synonymous_sites(c: Codon) -> int {
    (3 * COUNT_SCALE * synonymous_mutants(c)) as int / (synonymous_mutants(c) + nonsynonymous_mutants(c)) as int
}

/// The nonsynonymous share of the three sites of `c`, scaled by `COUNT_SCALE`.
pub open spec fn nonsynonymous_sites(c: Codon) -> int {
    (3 * COUNT_SCALE * nonsynonymous_mutants(c)) as int / (synonymous_mutants(c) + nonsynonymous_mutants(c)) as int
}

/// Every codon has between one and nine viable one-hit mutants.
pub proof fn lemma_viable_mutants_bounds(c: Codon)
    ensures
        1 <= synonymous_mutants(c) + nonsynonymous_mutants(c) <= 9,
{
    let ms = c.one_hit_mutants();
    lemma_disjoint_filters(ms, synonymous_with(c), nonsynonymous_with(c));
    assert(ms.len() == 9);
    // Changing the last base to C or T never gives a stop codon.
    let b = c.base_at(2);
    c.lemma_replacement_bases(2);
    let k: int = match b {
        Base::A => 0,
        Base::T => 1,
        _ => 2,
    };
    let x = if b == Base::C || b == Base::G { Base::T } else { Base::C };
    assert(c.replacement_bases(2)[k] == x);
    let m = c.with_base(2, x);
    lemma_bases_round_trip(m, c.base_at(0), c.base_at(1), x);
    lemma_stop_ends_in_purine(m);
    assert(ms[6 + k] == m);
    if c.synonymous(m) {
        ms.lemma_filter_contains(synonymous_with(c), 6 + k);
    } else {
        ms.lemma_filter_contains(nonsynonymous_with(c), 6 + k);
    }
}

/// Two filters with disjoint predicates keep at most all elements between them.
proof fn lemma_disjoint_filters<A>(s: Seq<A>, p: spec_fn(A) -> bool, q: spec_fn(A) -> bool)
    requires
        forall|x: A| !(#[trigger] p(x) && q(x)),
    ensures
        s.filter(p).len() + s.filter(q).len() <= s.len(),
    decreases s.len(),
{
    reveal(Seq::filter);
    if s.len() > 0 {
        lemma_disjoint_filters(s.drop_last(), p, q);
    }
}

/// `m` shared out among `t` parts of `q` each: a multiple of `m` divides
/// exactly too.
proof fn lemma_share(m: int, t: int, q: int, s: int)
    requires
        t > 0,
        q * t == m,
    ensures
        m / t == q,
        (m * s) / t == q * s,
{
    assert(m == t * q && m * s == t * (q * s)) by (nonlinear_arith)
        requires
            q * t == m,
    ;
    lemma_div_multiples_vanish(q, t);
    lemma_div_multiples_vanish(q * s, t);
}

/// Dividing `3 * COUNT_SCALE` sites among `t` mutants, `1 <= t <= 9`, leaves
/// no remainder, and each share is even, so that two codons average exactly.
pub proof fn lemma_sites_exact(t: int, s: int)
    requires
        1 <= t <= 9,
        0 <= s,
    ensures
        (3 * COUNT_SCALE * s) / t == (3 * COUNT_SCALE / t) * s,
        (3 * COUNT_SCALE / t) % 2 == 0,
        (3 * COUNT_SCALE / t) * t == 3 * COUNT_SCALE,
{
    assert(3 * COUNT_SCALE == 15120);
    if t == 1 {
        lemma_share(15120, 1, 15120, s);
    } else if t == 2 {
        lemma_share(15120, 2, 7560, s);
    } else if t == 3 {
        lemma_share(15120, 3, 5040, s);
    } else if t == 4 {
        lemma_share(15120, 4, 3780, s);
    } else if t == 5 {
        lemma_share(15120, 5, 3024, s);
    } else if t == 6 {
        lemma_share(15120, 6, 2520, s);
    } else if t == 7 {
        lemma_share(15120, 7, 2160, s);
    } else if t == 8 {
        lemma_share(15120, 8, 1890, s);
    } else if t == 9 {
        lemma_share(15120, 9, 1680, s);
    }
}

/// The Nei-Gojobori site split of a single codon.
pub fn count_sites_single_codon(codon: &Codon) -> (r: SynNonsyn)
    ensures
        r.syn == synonymous_sites(*codon),
        r.nonsyn == nonsynonymous_sites(*codon),
{
    let mutants = codon.one_hit_mutants_();
    let ghost ms = codon.one_hit_mutants();
    let mut syn_count: u64 = 0;
    let mut nonsyn_count: u64 = 0;
    let mut i: usize = 0;
    while i < mutants.len()
        invariant
            i <= mutants@.len(),
            mutants@ == ms,
            ms == codon.one_hit_mutants(),
            syn_count == ms.take(i as int).filter(synonymous_with(*codon)).len(),
            nonsyn_count == ms.take(i as int).filter(nonsynonymous_with(*codon)).len(),
            syn_count <= i,
            nonsyn_count <= i,
        decreases mutants@.len() - i,
    {
        let other = mutants[i];
        proof {
            reveal(Seq::filter);
            assert(ms.take(i + 1).drop_last() =~= ms.take(i as int));
            ms.take(i as int).lemma_filter_len(synonymous_with(*codon));
            ms.take(i as int).lemma_filter_len(nonsynonymous_with(*codon));
        }
        if !other.is_stop_codon_() {
            if codon.is_synonymous_change_(&other) {
                syn_count += 1;
            } else {
                nonsyn_count += 1;
            }
        }
        i += 1;
    }
    proof {
        assert(ms.take(ms.len() as int) =~= ms);
        lemma_viable_mutants_bounds(*codon);
        lemma_sites_exact((syn_count + nonsyn_count) as int, syn_count as int);
        lemma_sites_exact((syn_count + nonsyn_count) as int, nonsyn_count as int);
    }
    let total = syn_count + nonsyn_count;
    let per_mutant = 3 * COUNT_SCALE / total;
    assert(per_mutant * syn_count <= 15120 && per_mutant * nonsyn_count <= 15120) by (nonlinear_arith)
        requires
            per_mutant * total == 15120,
            total == syn_count + nonsyn_count,
    ;
    SynNonsyn { syn: per_mutant * syn_count, nonsyn: per_mutant * nonsyn_count }
}

/// The exact sum of the two shares of a codon's sites.
pub proof fn lemma_sites_sum(c: Codon)
    ensures
        synonymous_sites(c) + nonsynonymous_sites(c) == 3 * COUNT_SCALE,
        synonymous_sites(c) % 2 == 0,
        nonsynonymous_sites(c) % 2 == 0,
        0 <= synonymous_sites(c) <= 3 * COUNT_SCALE,
        0 <= nonsynonymous_sites(c) <= 3 * COUNT_SCALE,
{
    let s = synonymous_mutants(c) as int;
    let n = nonsynonymous_mutants(c) as int;
    lemma_viable_mutants_bounds(c);
    lemma_sites_exact(s + n, s);
    lemma_sites_exact(s + n, n);
    let q = 3 * COUNT_SCALE / (s + n);
    let h = q / 2;
    assert(q * s + q * n == q * (s + n)) by (nonlinear_arith);
    assert(q * s == 2 * (h * s) && q * n == 2 * (h * n)) by (nonlinear_arith)
        requires
            q == 2 * h,
    ;
    assert(q * s >= 0 && q * n >= 0 && h * s >= 0 && h * n >= 0) by (nonlinear_arith)
        requires
            q >= 0,
            h >= 0,
            s >= 0,
            n >= 0,
    ;
}

/// The synonymous sites of a codon pair: the mean of the two codons' shares.
pub open spec fn pair_synonymous_sites(c1: Codon, c2: Codon) -> int {
    (synonymous_sites(c1) + synonymous_sites(c2)) / 2
}

/// The nonsynonymous sites of a codon pair: the mean of the two codons' shares.
pub open spec fn pair_nonsynonymous_sites(c1: Codon, c2: Codon) -> int {
    (nonsynonymous_sites(c1) + nonsynonymous_sites(c2)) / 2
}

/// The site counts of an aligned codon pair; fails when either is a stop codon.
pub fn count_sites(codon1: &Codon, codon2: &Codon) -> (r: Result<SynNonsyn, StopCodonError>)
    ensures
        r is Err <==> (codon1.is_stop() || codon2.is_stop()),
        r matches Ok(v) ==> {
            &&& v.syn == pair_synonymous_sites(*codon1, *codon2)
            &&& v.nonsyn == pair_nonsynonymous_sites(*codon1, *codon2)
            &&& 2 * v.syn == synonymous_sites(*codon1) + synonymous_sites(*codon2)
            &&& 2 * v.nonsyn == nonsynonymous_sites(*codon1) + nonsynonymous_sites(*codon2)
            &&& v.syn + v.nonsyn == 3 * COUNT_SCALE
        },
{
    if codon1.is_stop_codon_() || codon2.is_stop_codon_() {
        return Err(StopCodonError);
    }
    let first = count_sites_single_codon(codon1);
    let second = count_sites_single_codon(codon2);
    proof {
        lemma_sites_sum(*codon1);
        lemma_sites_sum(*codon2);
    }
    Ok(SynNonsyn { syn: (first.syn + second.syn) / 2, nonsyn: (first.nonsyn + second.nonsyn) / 2 })
}

/// How many consecutive steps along `path` are synonymous.
pub open spec fn synonymous_steps(path: Seq<Codon>) -> nat
    decreases path.len(),
{
    if path.len() < 2 {
        0
    } else {
        synonymous_steps(path.drop_last()) + if path[path.len() - 2].synonymous(path.last()) {
            1nat
        } else {
            0nat
        }
    }
}

/// How many consecutive steps along `path` are nonsynonymous.
pub open spec fn nonsynonymous_steps(path: Seq<Codon>) -> nat
    decreases path.len(),
{
    if path.len() < 2 {
        0
    } else {
        nonsynonymous_steps(path.drop_last()) + if path[path.len() - 2].synonymous(path.last()) {
            0nat
        } else {
            1nat
        }
    }
}

pub open spec fn total_synonymous_steps(paths: Seq<Seq<Codon>>) -> nat
    decreases paths.len(),
{
    if paths.len() == 0 {
        0
    } else {
        total_synonymous_steps(paths.drop_last()) + synonymous_steps(paths.last())
    }
}

pub open spec fn total_nonsynonymous_steps(paths: Seq<Seq<Codon>>) -> nat
    decreases paths.len(),
{
    if paths.len() == 0 {
        0
    } else {
        total_nonsynonymous_steps(paths.drop_last()) + nonsynonymous_steps(paths.last())
    }
}

/// The synonymous differences between two codons, averaged over the viable
/// mutation pathways and scaled by `COUNT_SCALE`; zero for equal codons.
pub open spec fn synonymous_differences(a: Codon, b: Codon) -> int {
    if a == b {
        0
    } else {
        (COUNT_SCALE * total_synonymous_steps(a.mutation_pathways(b))) as int
            / a.mutation_pathways(b).len() as int
    }
}

/// The nonsynonymous differences between two codons, averaged over the viable
/// mutation pathways and scaled by `COUNT_SCALE`; zero for equal codons.
pub open spec fn nonsynonymous_differences(a: Codon, b: Codon) -> int {
    if a == b {
        0
    } else {
        (COUNT_SCALE * total_nonsynonymous_steps(a.mutation_pathways(b))) as int
            / a.mutation_pathways(b).len() as int
    }
}

/// Every step of a path is either synonymous or not.
proof fn lemma_steps_split(path: Seq<Codon>)
    ensures
        synonymous_steps(path) + nonsynonymous_steps(path) == if path.len() < 2 {
            0
        } else {
            path.len() - 1
        },
    decreases path.len(),
{
    if path.len() >= 2 {
        lemma_steps_split(path.drop_last());
    }
}

/// Each viable pathway takes one step per differing position, and there are
/// at most six of them.
pub proof fn lemma_pathway_shape(a: Codon, b: Codon)
    ensures
        a.mutation_pathways(b).len() <= 6,
        forall|i: int|
            0 <= i < a.mutation_pathways(b).len() ==> (#[trigger] a.mutation_pathways(b)[i]).len()
                == a.base_changes(b) + 1,
{
    let cands = a.candidate_pathways(b);
    let mp = a.mutation_pathways(b);
    if !(a.is_stop() || b.is_stop()) {
        cands.lemma_filter_len(stop_free());
        assert forall|i: int| 0 <= i < mp.len() implies (#[trigger] mp[i]).len() == a.base_changes(b) + 1 by {
            assert(mp.contains(mp[i]));
            cands.lemma_filter_contains_rev(stop_free(), mp[i]);
            let j = choose|j: int| 0 <= j < cands.len() && cands[j] == mp[i];
            assert(a.orders_to(b)[j].len() == a.base_changes(b));
        }
    }
}

/// Exact division of `COUNT_SCALE * s` among `n` pathways, `1 <= n <= 6`.
proof fn lemma_differences_exact(n: int, s: int)
    requires
        1 <= n <= 6,
        0 <= s,
    ensures
        (COUNT_SCALE * s) / n == (COUNT_SCALE as int / n) * s,
        (COUNT_SCALE as int / n) * n == COUNT_SCALE,
{
    assert(COUNT_SCALE == 5040);
    if n == 1 {
        lemma_share(5040, 1, 5040, s);
    } else if n == 2 {
        lemma_share(5040, 2, 2520, s);
    } else if n == 3 {
        lemma_share(5040, 3, 1680, s);
    } else if n == 4 {
        lemma_share(5040, 4, 1260, s);
    } else if n == 5 {
        lemma_share(5040, 5, 1008, s);
    } else if n == 6 {
        lemma_share(5040, 6, 840, s);
    }
}

/// The difference counts of an aligned codon pair, averaged over the mutation
/// pathways that avoid stop codons; fails when no such pathway exists.
pub fn count_differences(codon1: &Codon, codon2: &Codon) -> (r: Result<SynNonsyn, StopCodonError>)
    ensures
        *codon1 == *codon2 ==> r == Ok::<SynNonsyn, StopCodonError>(SynNonsyn { syn: 0, nonsyn: 0 }),
        *codon1 != *codon2 ==> (r is Err <==> (codon1.is_stop() || codon2.is_stop())),
        r matches Ok(v) ==> {
            &&& v.syn == synonymous_differences(*codon1, *codon2)
            &&& v.nonsyn == nonsynonymous_differences(*codon1, *codon2)
            &&& v.syn + v.nonsyn == COUNT_SCALE * codon1.base_changes(*codon2)
        },
{
    if *codon1 == *codon2 {
        return Ok(SynNonsyn { syn: 0, nonsyn: 0 });
    }
    let paths = codon1.list_mutation_pathways_(codon2);
    let ghost mp = codon1.mutation_pathways(*codon2);
    let ghost changes = codon1.base_changes(*codon2);
    proof {
        assert(paths@.len() == mp.len()) by {
            assert(paths@.map_values(|p: Vec<Codon>| p@).len() == paths@.len());
        }
        lemma_pathway_shape(*codon1, *codon2);
        if !codon1.is_stop() && !codon2.is_stop() {
            lemma_viable_pathway_exists(*codon1, *codon2);
        }
    }
    if paths.len() == 0 {
        return Err(StopCodonError);
    }
    let mut syn_diff: u64 = 0;
    let mut nonsyn_diff: u64 = 0;
    let mut k: usize = 0;
    while k < paths.len()
        invariant
            k <= paths@.len(),
            paths@.len() == mp.len(),
            mp.len() <= 6,
            changes <= 3,
            forall|t: int| 0 <= t < paths@.len() ==> (#[trigger] paths@[t])@ == mp[t],
            forall|t: int| 0 <= t < mp.len() ==> (#[trigger] mp[t]).len() == changes + 1,
            syn_diff == total_synonymous_steps(mp.take(k as int)),
            nonsyn_diff == total_nonsynonymous_steps(mp.take(k as int)),
            syn_diff + nonsyn_diff == k * changes,
        decreases paths@.len() - k,
    {
        let path = &paths[k];
        let ghost p = mp[k as int];
        let ghost syn_before = syn_diff;
        let ghost nonsyn_before = nonsyn_diff;
        assert(path@ == p) by {
            assert(paths@.map_values(|q: Vec<Codon>| q@)[k as int] == paths@[k as int]@);
        }
        let mut j: usize = 0;
        while j + 1 < path.len()
            invariant
                path@ == p,
                p.len() == changes + 1,
                changes <= 3,
                j + 1 <= p.len(),
                syn_before + nonsyn_before == k * changes,
                k < 6,
                syn_diff == syn_before + synonymous_steps(p.take(j + 1)),
                nonsyn_diff == nonsyn_before + nonsynonymous_steps(p.take(j + 1)),
            decreases p.len() - j,
        {
            proof {
                assert(p.take(j + 2).drop_last() =~= p.take(j + 1));
                lemma_steps_split(p.take(j + 1));
                assert(k * changes <= 15) by (nonlinear_arith)
                    requires
                        k < 6,
                        changes <= 3,
                ;
            }
            if path[j].is_synonymous_change_(&path[j + 1]) {
                syn_diff += 1;
            } else {
                nonsyn_diff += 1;
            }
            j += 1;
        }
        proof {
            assert(p.take(p.len() as int) =~= p);
            lemma_steps_split(p);
            assert(mp.take(k + 1).drop_last() =~= mp.take(k as int));
            assert((k + 1) * changes == k * changes + changes) by (nonlinear_arith);
        }
        k += 1;
    }
    proof {
        assert(mp.take(mp.len() as int) =~= mp);
        lemma_differences_exact(mp.len() as int, syn_diff as int);
        lemma_differences_exact(mp.len() as int, nonsyn_diff as int);
    }
    let n = paths.len() as u64;
    let per_path = COUNT_SCALE / n;
    assert(syn_diff + nonsyn_diff <= 18) by (nonlinear_arith)
        requires
            syn_diff + nonsyn_diff == n * changes,
            n <= 6,
            changes <= 3,
    ;
    assert(per_path * syn_diff <= 5040 * 18 && per_path * nonsyn_diff <= 5040 * 18) by (nonlinear_arith)
        requires
            per_path <= 5040,
            syn_diff <= 18,
            nonsyn_diff <= 18,
    ;
    let r = SynNonsyn { syn: per_path * syn_diff, nonsyn: per_path * nonsyn_diff };
    assert(r.syn + r.nonsyn == COUNT_SCALE * changes) by (nonlinear_arith)
        requires
            r.syn == per_path * syn_diff,
            r.nonsyn == per_path * nonsyn_diff,
            syn_diff + nonsyn_diff == n * changes,
            per_path * n == COUNT_SCALE,
    ;
    Ok(r)
}

/// The codon pairs of the columns whose two sides both hold a codon, in order.
pub open spec fn valid_pairs<E>(cols: Seq<PwAlnItem<Codon, E>>) -> Seq<(Codon, Codon)> {
    cols.filter(both_present()).map_values(
        |p: PwAlnItem<Codon, E>| (p.0.present().unwrap(), p.1.present().unwrap()),
    )
}

/// Some pair holds a stop codon.
pub open spec fn holds_stop(pairs: Seq<(Codon, Codon)>) -> bool {
    exists|i: int| 0 <= i < pairs.len() && ((#[trigger] pairs[i]).0.is_stop() || pairs[i].1.is_stop())
}

/// Some pair of two different codons holds a stop codon.
pub open spec fn holds_stop_change(pairs: Seq<(Codon, Codon)>) -> bool {
    exists|i: int|
        0 <= i < pairs.len() && (#[trigger] pairs[i]).0 != pairs[i].1 && (pairs[i].0.is_stop()
            || pairs[i].1.is_stop())
}

pub open spec fn total_synonymous_sites(pairs: Seq<(Codon, Codon)>) -> int
    decreases pairs.len(),
{
    if pairs.len() == 0 {
        0
    } else {
        total_synonymous_sites(pairs.drop_last()) + pair_synonymous_sites(pairs.last().0, pairs.last().1)
    }
}

pub open spec fn total_nonsynonymous_sites(pairs: Seq<(Codon, Codon)>) -> int
    decreases pairs.len(),
{
    if pairs.len() == 0 {
        0
    } else {
        total_nonsynonymous_sites(pairs.drop_last()) + pair_nonsynonymous_sites(
            pairs.last().0,
            pairs.last().1,
        )
    }
}

pub open spec fn total_synonymous_differences(pairs: Seq<(Codon, Codon)>) -> int
    decreases pairs.len(),
{
    if pairs.len() == 0 {
        0
    } else {
        total_synonymous_differences(pairs.drop_last()) + synonymous_differences(
            pairs.last().0,
            pairs.last().1,
        )
    }
}

pub open spec fn total_nonsynonymous_differences(pairs: Seq<(Codon, Codon)>) -> int
    decreases pairs.len(),
{
    if pairs.len() == 0 {
        0
    } else {
        total_nonsynonymous_differences(pairs.drop_last()) + nonsynonymous_differences(
            pairs.last().0,
            pairs.last().1,
        )
    }
}

/// The site counts summed over the columns where both sides hold a codon; gaps,
/// unknown and unreadable columns are skipped, and a stop codon in a counted
/// column fails the whole sum.
pub fn count_total_sites<E>(vec: Vec<PwAlnItem<Codon, E>>) -> (r: Result<SynNonsyn, StopCodonError>)
    requires
        vec@.len() * (3 * COUNT_SCALE) <= u64::MAX,
    ensures
        r is Err <==> holds_stop(valid_pairs(vec@)),
        r matches Ok(v) ==> v.syn == total_synonymous_sites(valid_pairs(vec@)) && v.nonsyn
            == total_nonsynonymous_sites(valid_pairs(vec@)),
{
    let ghost pairs = valid_pairs(vec@);
    let valid = keep_valid_sites(vec);
    let mut total_s: u64 = 0;
    let mut total_n: u64 = 0;
    let mut i: usize = 0;
    proof {
        vec@.lemma_filter_len(both_present());
        assert(valid@.len() * (3 * COUNT_SCALE) <= vec@.len() * (3 * COUNT_SCALE)) by (nonlinear_arith)
            requires
                valid@.len() <= vec@.len(),
        ;
    }
    while i < valid.len()
        invariant
            i <= valid@.len(),
            valid@.len() * (3 * COUNT_SCALE) <= u64::MAX,
            pairs == valid_pairs(vec@),
            pairs == valid@.map_values(
                |p: PwAlnItem<Codon, E>| (p.0.present().unwrap(), p.1.present().unwrap()),
            ),
            forall|t: int| 0 <= t < valid@.len() ==> (#[trigger] valid@[t]).spec_both_valid(),
            !holds_stop(pairs.take(i as int)),
            total_s == total_synonymous_sites(pairs.take(i as int)),
            total_n == total_nonsynonymous_sites(pairs.take(i as int)),
            total_s + total_n == i * (3 * COUNT_SCALE),
        decreases valid@.len() - i,
    {
        proof {
            assert(pairs.take(i + 1).drop_last() =~= pairs.take(i as int));
            assert(i * (3 * COUNT_SCALE) + 3 * COUNT_SCALE <= u64::MAX) by (nonlinear_arith)
                requires
                    i < valid@.len(),
                    valid@.len() * (3 * COUNT_SCALE) <= u64::MAX,
            ;
            assert((i + 1) * (3 * COUNT_SCALE) == i * (3 * COUNT_SCALE) + 3 * COUNT_SCALE) by (nonlinear_arith);
        }
        let col = &valid[i];
        match (&col.0, &col.1) {
            (SequenceItem::Present(c1), SequenceItem::Present(c2)) => {
                assert(pairs[i as int] == (*c1, *c2));
                match count_sites(c1, c2) {
                    Ok(v) => {
                        total_s = total_s + v.syn;
                        total_n = total_n + v.nonsyn;
                    },
                    Err(e) => {
                        assert(holds_stop(pairs)) by {
                            assert(pairs[i as int].0.is_stop() || pairs[i as int].1.is_stop());
                        }
                        return Err(e);
                    },
                }
            },
            _ => {},
        }
        proof {
            assert forall|t: int| 0 <= t < i + 1 implies !((#[trigger] pairs.take(i + 1)[t]).0.is_stop()
                || pairs.take(i + 1)[t].1.is_stop()) by {
                if t < i {
                    assert(pairs.take(i + 1)[t] == pairs.take(i as int)[t]);
                }
            }
        }
        i += 1;
    }
    assert(pairs.take(valid@.len() as int) =~= pairs);
    Ok(SynNonsyn { syn: total_s, nonsyn: total_n })
}

/// The difference counts summed over the columns where both sides hold a codon;
/// gaps, unknown and unreadable columns are skipped, and a stop codon facing a
/// different codon in a counted column fails the whole sum.
pub fn count_total_differences<E>(vec: Vec<PwAlnItem<Codon, E>>) -> (r: Result<SynNonsyn, StopCodonError>)
    requires
        vec@.len() * (3 * COUNT_SCALE) <= u64::MAX,
    ensures
        r is Err <==> holds_stop_change(valid_pairs(vec@)),
        r matches Ok(v) ==> v.syn == total_synonymous_differences(valid_pairs(vec@)) && v.nonsyn
            == total_nonsynonymous_differences(valid_pairs(vec@)),
{
    let ghost pairs = valid_pairs(vec@);
    let valid = keep_valid_sites(vec);
    let mut total_sd: u64 = 0;
    let mut total_nd: u64 = 0;
    let mut i: usize = 0;
    proof {
        vec@.lemma_filter_len(both_present());
        assert(valid@.len() * (3 * COUNT_SCALE) <= vec@.len() * (3 * COUNT_SCALE)) by (nonlinear_arith)
            requires
                valid@.len() <= vec@.len(),
        ;
    }
    while i < valid.len()
        invariant
            i <= valid@.len(),
            valid@.len() * (3 * COUNT_SCALE) <= u64::MAX,
            pairs == valid_pairs(vec@),
            pairs == valid@.map_values(
                |p: PwAlnItem<Codon, E>| (p.0.present().unwrap(), p.1.present().unwrap()),
            ),
            forall|t: int| 0 <= t < valid@.len() ==> (#[trigger] valid@[t]).spec_both_valid(),
            !holds_stop_change(pairs.take(i as int)),
            total_sd == total_synonymous_differences(pairs.take(i as int)),
            total_nd == total_nonsynonymous_differences(pairs.take(i as int)),
            total_sd + total_nd <= i * (3 * COUNT_SCALE),
        decreases valid@.len() - i,
    {
        proof {
            assert(pairs.take(i + 1).drop_last() =~= pairs.take(i as int));
            assert(i * (3 * COUNT_SCALE) + 3 * COUNT_SCALE <= u64::MAX) by (nonlinear_arith)
                requires
                    i < valid@.len(),
                    valid@.len() * (3 * COUNT_SCALE) <= u64::MAX,
            ;
            assert((i + 1) * (3 * COUNT_SCALE) == i * (3 * COUNT_SCALE) + 3 * COUNT_SCALE) by (nonlinear_arith);
        }
        let col = &valid[i];
        match (&col.0, &col.1) {
            (SequenceItem::Present(c1), SequenceItem::Present(c2)) => {
                assert(pairs[i as int] == (*c1, *c2));
                match count_differences(c1, c2) {
                    Ok(v) => {
                        assert(v.syn + v.nonsyn <= 3 * COUNT_SCALE) by {
                            if *c1 != *c2 {
                                assert(c1.base_changes(*c2) <= 3);
                                assert(COUNT_SCALE * c1.base_changes(*c2) <= 3 * COUNT_SCALE) by (nonlinear_arith)
                                    requires
                                        c1.base_changes(*c2) <= 3,
                                ;
                            }
                        }
                        total_sd = total_sd + v.syn;
                        total_nd = total_nd + v.nonsyn;
                    },
                    Err(e) => {
                        assert(holds_stop_change(pairs)) by {
                            assert(pairs[i as int].0 != pairs[i as int].1);
                        }
                        return Err(e);
                    },
                }
            },
            _ => {},
        }
        proof {
            assert forall|t: int| 0 <= t < i + 1 implies !((#[trigger] pairs.take(i + 1)[t]).0
                != pairs.take(i + 1)[t].1 && (pairs.take(i + 1)[t].0.is_stop()
                || pairs.take(i + 1)[t].1.is_stop())) by {
                if t < i {
                    assert(pairs.take(i + 1)[t] == pairs.take(i as int)[t]);
                }
            }
        }
        i += 1;
    }
    assert(pairs.take(valid@.len() as int) =~= pairs);
    Ok(SynNonsyn { syn: total_sd, nonsyn: total_nd })
}

/// Paths of `k + 1` codons take `k` steps each, synonymous or not.
proof fn lemma_total_steps(paths: Seq<Seq<Codon>>, k: nat)
    requires
        forall|i: int| 0 <= i < paths.len() ==> (#[trigger] paths[i]).len() == k + 1,
    ensures
        total_synonymous_steps(paths) + total_nonsynonymous_steps(paths) == paths.len() * k,
    decreases paths.len(),
{
    if paths.len() > 0 {
        lemma_total_steps(paths.drop_last(), k);
        lemma_steps_split(paths.last());
        assert(paths.len() * k == (paths.len() - 1) * k + k) by (nonlinear_arith);
    }
}

/// Between two different codons, neither a stop codon, the averaged
/// differences add up to one per differing position.
pub proof fn lemma_differences_sum(a: Codon, b: Codon)
    requires
        a != b,
        !a.is_stop(),
        !b.is_stop(),
    ensures
        synonymous_differences(a, b) + nonsynonymous_differences(a, b) == COUNT_SCALE * a.base_changes(b),
{
    let mp = a.mutation_pathways(b);
    let k = a.base_changes(b);
    lemma_pathway_shape(a, b);
    lemma_viable_pathway_exists(a, b);
    lemma_total_steps(mp, k);
    let ts = total_synonymous_steps(mp) as int;
    let tn = total_nonsynonymous_steps(mp) as int;
    let n = mp.len() as int;
    lemma_differences_exact(n, ts);
    lemma_differences_exact(n, tn);
    let q = COUNT_SCALE as int / n;
    assert(q * ts + q * tn == COUNT_SCALE * k) by (nonlinear_arith)
        requires
            ts + tn == n * k,
            q * n == COUNT_SCALE,
    ;
}

/// Two codons one base apart, neither a stop codon, are joined by exactly the
/// direct step, and their averaged differences add up to one.
pub proof fn lemma_one_change_differences(a: Codon, b: Codon)
    requires
        a.base_changes(b) == 1,
        !a.is_stop(),
        !b.is_stop(),
    ensures
        a.mutation_pathways(b).len() == 1,
        a.mutation_pathways(b)[0] == seq![a, b],
        synonymous_differences(a, b) + nonsynonymous_differences(a, b) == COUNT_SCALE,
{
    lemma_one_change_one_pathway(a, b);
    lemma_differences_sum(a, b);
}

/// A codon paired with itself has its own site counts.
pub proof fn lemma_pair_with_itself(c: Codon)
    ensures
        pair_synonymous_sites(c, c) == synonymous_sites(c),
        pair_nonsynonymous_sites(c, c) == nonsynonymous_sites(c),
{
}

} // verus!
