//! Leaf mapping units and best-fit granule sizing.
//!
//! A `Granule` is the leaf of a paging structure — a page, a large page, a
//! section — whose concrete size is chosen at run time by the best-fit
//! algorithm from the architecture's ordered list of granule sizes.  Its
//! mapping state (`Unmapped` or `Mapped`) is part of its static type, so a
//! map operation is only expressible on an `Unmapped` value and returns a
//! `Mapped` one.

use vstd::prelude::*;

verus! {

use vstd::arithmetic::power2::pow2;
use vstd::arithmetic::power2::lemma_pow2_adds;
use vstd::arithmetic::power2::lemma_pow2_pos;
use vstd::arithmetic::div_mod::lemma_fundamental_div_mod;
use vstd::arithmetic::div_mod::lemma_hoist_over_denominator;
use vstd::arithmetic::div_mod::lemma_mod_multiples_vanish;
use crate::cap::Cap;
use crate::cap::CapType;
use crate::cap::Untyped;
use crate::cnode::CNodeSlots;
use crate::error::CapOpError;
use crate::error::SeL4Error;
use crate::kernel::Kernel;
use crate::kernel::KernelObject;
use crate::kernel::RetypeTarget;
use crate::kernel::KERNEL_OK;

/// The states a granule can be in.  The hierarchy is closed: only
/// `Unmapped` and `Mapped` implement it.
pub trait SealedGranuleState {

}

/// Marker for the two granule states.
pub trait GranuleState: SealedGranuleState {

}

/// A granule that is not installed in any address space.
#[derive(Clone, Copy, Debug, PartialEq, Eq, Structural)]
pub struct Unmapped;

/// A granule installed at `vaddr` in the address space `asid`.
#[derive(Clone, Copy, Debug, PartialEq, Eq, Structural)]
pub struct Mapped {
    pub vaddr: u64,
    pub asid: usize,
}

impl SealedGranuleState for Unmapped {

}

impl GranuleState for Unmapped {

}

impl SealedGranuleState for Mapped {

}

impl GranuleState for Mapped {

}

/// A leaf mapping unit.  Unlike other capability kinds its size and kernel
/// object type are run-time fields, because the best-fit algorithm picks
/// them dynamically.
#[derive(Debug)]
pub struct Granule<State: GranuleState> {
    /// log2 of this granule's byte size.
    pub size_bits: u8,
    /// The kernel object-type identifier for this granule kind.
    pub type_id: usize,
    /// Mapped or unmapped, with the data that goes along with that.
    pub state: State,
}

impl<State: GranuleState> CapType for Granule<State> {

}

impl crate::cap::DirectRetype for Cap<Granule<Unmapped>> {
    /// A granule's concrete object type is a run-time field, chosen by
    /// best fit; the fixed identifier is a sentinel and never used.
    open spec fn spec_sel4_type_id() -> usize {
        usize::MAX
    }

    fn sel4_type_id() -> usize {
        usize::MAX
    }
}

impl Cap<Granule<Unmapped>> {
    /// The kernel object-type identifier.
    pub fn type_id(&self) -> (r: usize)
        ensures
            r == self.cap_data.type_id,
    {
        self.cap_data.type_id
    }

    /// log2 of the granule's byte size.
    pub fn size_bits(&self) -> (r: u8)
        ensures
            r == self.cap_data.size_bits,
    {
        self.cap_data.size_bits
    }
}

/// Retype an untyped region into an unmapped granule that takes the region
/// whole: the region's size was chosen, by best fit, to equal the
/// granule's.  Consumes the region and one fresh slot; on failure nothing
/// is consumed and the region is handed back.
pub fn retype_granule(
    ut: Cap<Untyped>,
    type_id: usize,
    slots: &mut CNodeSlots,
    kernel: &mut Kernel,
) -> (r: Result<Cap<Granule<Unmapped>>, (CapOpError, Cap<Untyped>)>)
    requires
        old(kernel).wf(),
        old(slots).wf(),
    ensures
        final(kernel).wf(),
        final(slots).wf(),
        final(kernel).mode == old(kernel).mode,
        final(kernel).same_translation(*old(kernel)),
        final(slots).cnode_cptr == old(slots).cnode_cptr,
        final(slots).total == old(slots).total,
        r matches Ok(_) <==> old(slots).free_slots() >= 1 && old(kernel).retype_status(
            ut.cptr as int,
            RetypeTarget::TargetGranule { size_bits: ut.cap_data.size_bits, type_id },
            1,
        ) == KERNEL_OK,
        match r {
            Ok(g) => {
                &&& g.cap_data.size_bits == ut.cap_data.size_bits
                &&& g.cap_data.type_id == type_id
                &&& g.cap_data.state == Unmapped
                &&& g.cptr == old(kernel).objects@.len()
                &&& final(kernel).is_granule(g.cptr as int)
                &&& !final(kernel).is_live_untyped(ut.cptr as int)
                &&& final(slots).used == old(slots).used + 1
                &&& final(kernel).objects@ == old(kernel).objects@.update(
                    ut.cptr as int,
                    KernelObject::UntypedObj {
                        size_bits: old(kernel).untyped_size_bits(ut.cptr as int),
                        live: false,
                    },
                ).push(
                    KernelObject::GranuleObj { size_bits: ut.cap_data.size_bits, type_id },
                )
            },
            Err((e, back)) => {
                &&& back == ut
                &&& final(kernel).objects@ == old(kernel).objects@
                &&& final(slots).used == old(slots).used
                &&& (old(slots).free_slots() < 1 ==> e == CapOpError::SlotsExhausted)
                &&& (old(slots).free_slots() >= 1 ==> e == CapOpError::KernelRejection(
                    SeL4Error::UntypedRetype(
                        old(kernel).retype_status(
                            ut.cptr as int,
                            RetypeTarget::TargetGranule {
                                size_bits: ut.cap_data.size_bits,
                                type_id,
                            },
                            1,
                        ),
                    ),
                ))
            },
        },
{
    if slots.remaining() < 1 {
        return Err((CapOpError::SlotsExhausted, ut));
    }
    let status = kernel.untyped_retype(
        ut.cptr,
        RetypeTarget::TargetGranule { size_bits: ut.cap_data.size_bits, type_id },
        1,
    );
    if status != KERNEL_OK {
        return Err((CapOpError::KernelRejection(SeL4Error::UntypedRetype(status)), ut));
    }
    slots.take(1);
    let end = kernel.objects.len();
    proof {
        assert(final(kernel).objects@.len() == old(kernel).objects@.len() + 1);
    }
    Ok(
        Cap {
            cptr: end - 1,
            cap_data: Granule {
                size_bits: ut.cap_data.size_bits,
                type_id,
                state: Unmapped,
            },
        },
    )
}

/// One run of equally sized granules chosen by best fit.
#[derive(Clone, Copy, Debug, PartialEq, Eq, Structural)]
pub struct GranuleInfo {
    /// This granule size in bits (the radix).
    pub size_bits: u8,
    /// How many granules of that size are needed.
    pub count: u64,
}

/// The architecture's granule sizes, largest first, each a power of two:
/// strictly decreasing log2 sizes, all below 64.
pub open spec fn valid_tiers(tiers: Seq<u8>) -> bool {
    &&& tiers.len() >= 1
    &&& (forall|i: int| 0 <= i < tiers.len() ==> #[trigger] tiers[i] < 64)
    &&& (forall|i: int, j: int| 0 <= i < j < tiers.len() ==> #[trigger] tiers[i] > #[trigger] tiers[j])
}

/// How many granules of each tier best fit takes for `r` bytes: walk the
/// tiers largest first, taking as many whole granules of each size as
/// still fit, and let the smallest tier cover whatever is left.
pub open spec fn greedy_counts(r: nat, tiers: Seq<u8>) -> Seq<nat>
    decreases tiers.len(),
{
    if tiers.len() == 0 {
        Seq::empty()
    } else if tiers.len() == 1 {
        let p = pow2(tiers[0] as nat);
        seq![if r % p == 0 {
            r / p
        } else {
            r / p + 1
        }]
    } else {
        let p = pow2(tiers[0] as nat);
        seq![r / p] + greedy_counts(r % p, tiers.drop_first())
    }
}

/// Total number of granules a per-tier count sequence asks for.
pub open spec fn counts_sum(counts: Seq<nat>) -> nat
    decreases counts.len(),
{
    if counts.len() == 0 {
        0
    } else {
        counts[0] + counts_sum(counts.drop_first())
    }
}

/// Total bytes a per-tier count sequence covers.
pub open spec fn covered_bytes(counts: Seq<nat>, tiers: Seq<u8>) -> nat
    decreases counts.len(),
{
    if counts.len() == 0 || tiers.len() == 0 {
        0
    } else {
        counts[0] * pow2(tiers[0] as nat) + covered_bytes(
            counts.drop_first(),
            tiers.drop_first(),
        )
    }
}

/// The runs the sizing function reports: the tiers with non-zero counts,
/// in tier order.
pub open spec fn info_view(counts: Seq<nat>, tiers: Seq<u8>) -> Seq<GranuleInfo>
    decreases counts.len(),
{
    if counts.len() == 0 || tiers.len() == 0 {
        Seq::empty()
    } else if counts[0] == 0 {
        info_view(counts.drop_first(), tiers.drop_first())
    } else {
        seq![GranuleInfo { size_bits: tiers[0], count: counts[0] as u64 }] + info_view(
            counts.drop_first(),
            tiers.drop_first(),
        )
    }
}

/// Best-fit granule sizing: given a requested byte count and the
/// architecture's granule sizes ordered largest to smallest, choose the
/// largest granule size that still fits the remaining requirement,
/// repeatedly; at a boundary the larger granule is preferred, and the
/// smallest granule covers whatever remainder is left.  The result lists
/// the chosen sizes largest first with how many of each are needed.
///
/// Sizing for a requirement below the smallest granule is a programming
/// error, excluded by precondition rather than reported at run time.
pub fn determine_best_granule_fit(requested: u64, tiers: &Vec<u8>) -> (r: Vec<GranuleInfo>)
    requires
        valid_tiers(tiers@),
        requested >= pow2(tiers@[tiers@.len() - 1] as nat),
    ensures
        r@ == info_view(greedy_counts(requested as nat, tiers@), tiers@),
{
    let n = tiers.len();
    let mut result: Vec<GranuleInfo> = Vec::new();
    let mut remaining: u64 = requested;
    let mut i: usize = 0;
    proof {
        assert(tiers@.skip(0) =~= tiers@);
        assert(result@ + info_view(
            greedy_counts(remaining as nat, tiers@.skip(0)),
            tiers@.skip(0),
        ) =~= info_view(greedy_counts(requested as nat, tiers@), tiers@));
    }
    while i < n
        invariant
            i <= n,
            n == tiers@.len(),
            valid_tiers(tiers@),
            result@ + info_view(
                greedy_counts(remaining as nat, tiers@.skip(i as int)),
                tiers@.skip(i as int),
            ) == info_view(greedy_counts(requested as nat, tiers@), tiers@),
        decreases n - i,
    {
        let ghost pre = remaining as nat;
        let ghost suffix = tiers@.skip(i as int);
        let t = tiers[i];
        let p = crate::pow::pow2_u64(t);
        proof {
            assert(suffix[0] == tiers@[i as int]);
            lemma_fundamental_div_mod(remaining as int, p as int);
        }
        let q: u64;
        if i == n - 1 {
            let qq = remaining / p;
            if remaining % p != 0 {
                proof {
                    assert(qq < u64::MAX) by (nonlinear_arith)
                        requires
                            p >= 2,
                            qq == remaining as int / p as int,
                            remaining as int == p as int * (remaining as int / p as int)
                                + remaining as int % p as int,
                            remaining as int % p as int >= 0,
                            remaining <= u64::MAX,
                    ;
                }
                q = qq + 1;
            } else {
                q = qq;
            }
            remaining = 0;
        } else {
            q = remaining / p;
            remaining = remaining % p;
        }
        proof {
            let rest_counts = greedy_counts(remaining as nat, tiers@.skip(i as int + 1));
            assert(suffix.drop_first() =~= tiers@.skip(i as int + 1));
            if i == n - 1 {
                assert(suffix.len() == 1);
                assert(greedy_counts(pre, suffix) =~= seq![q as nat]);
                assert(tiers@.skip(i as int + 1) =~= Seq::<u8>::empty());
                assert(greedy_counts(remaining as nat, tiers@.skip(i as int + 1))
                    =~= Seq::<nat>::empty());
            } else {
                assert(suffix.len() >= 2);
                assert(greedy_counts(pre, suffix) =~= seq![q as nat] + rest_counts);
            }
            // One unfolding of info_view over the head element.
            let head_counts = greedy_counts(pre, suffix);
            assert(head_counts[0] == q as nat);
            assert(head_counts.drop_first() =~= rest_counts);
            if q > 0 {
                assert(info_view(head_counts, suffix) =~= seq![
                    GranuleInfo { size_bits: t, count: q },
                ] + info_view(rest_counts, suffix.drop_first()));
            } else {
                assert(info_view(head_counts, suffix) =~= info_view(
                    rest_counts,
                    suffix.drop_first(),
                ));
            }
        }
        if q > 0 {
            result.push(GranuleInfo { size_bits: t, count: q });
        }
        proof {
            assert(result@ + info_view(
                greedy_counts(remaining as nat, tiers@.skip(i as int + 1)),
                tiers@.skip(i as int + 1),
            ) =~= info_view(greedy_counts(requested as nat, tiers@), tiers@));
        }
        i += 1;
    }
    proof {
        assert(tiers@.skip(n as int) =~= Seq::<u8>::empty());
        assert(info_view(
            greedy_counts(remaining as nat, tiers@.skip(n as int)),
            tiers@.skip(n as int),
        ) =~= Seq::<GranuleInfo>::empty());
        assert(result@ =~= result@ + Seq::<GranuleInfo>::empty());
    }
    result
}

/// Dropping the largest tier keeps the tier list valid, its entries and
/// its smallest member.
pub proof fn lemma_tiers_tail(tiers: Seq<u8>)
    requires
        valid_tiers(tiers),
        tiers.len() >= 2,
    ensures
        valid_tiers(tiers.drop_first()),
        tiers.drop_first()[tiers.drop_first().len() - 1] == tiers[tiers.len() - 1],
        tiers[0] > tiers.drop_first()[0],
{
    let rest = tiers.drop_first();
    assert forall|i: int| 0 <= i < rest.len() implies #[trigger] rest[i] < 64 by {
        assert(rest[i] == tiers[i + 1]);
    }
    assert forall|i: int, j: int| 0 <= i < j < rest.len() implies #[trigger] rest[i]
        > #[trigger] rest[j] by {
        assert(rest[i] == tiers[i + 1] && rest[j] == tiers[j + 1]);
    }
}

/// Best fit covers the request, and wastes less than one smallest
/// granule: the chosen granules hold at least `r` bytes and strictly less
/// than `r` plus the smallest tier's size.  In particular, when `r` is a
/// multiple of the smallest granule size the cover is exact.
pub proof fn lemma_best_fit_covers(r: nat, tiers: Seq<u8>)
    requires
        valid_tiers(tiers),
    ensures
        covered_bytes(greedy_counts(r, tiers), tiers) >= r,
        covered_bytes(greedy_counts(r, tiers), tiers) < r + pow2(tiers[tiers.len() - 1] as nat),
    decreases tiers.len(),
{
    let p = pow2(tiers[0] as nat);
    lemma_pow2_pos(tiers[0] as nat);
    lemma_fundamental_div_mod(r as int, p as int);
    let q = r / p;
    let rho = r % p;
    if tiers.len() == 1 {
        if rho == 0 {
            let counts = seq![q];
            assert(greedy_counts(r, tiers) =~= counts);
            assert(counts.drop_first() =~= Seq::<nat>::empty());
            assert(covered_bytes(counts.drop_first(), tiers.drop_first()) == 0);
            assert(covered_bytes(counts, tiers) == q * p + covered_bytes(
                counts.drop_first(),
                tiers.drop_first(),
            ));
            assert(q * p == r) by (nonlinear_arith)
                requires
                    r == p * q + rho,
                    rho == 0,
            ;
        } else {
            let counts = seq![(q + 1) as nat];
            assert(greedy_counts(r, tiers) =~= counts);
            assert(counts.drop_first() =~= Seq::<nat>::empty());
            assert(covered_bytes(counts.drop_first(), tiers.drop_first()) == 0);
            assert(covered_bytes(counts, tiers) == (q + 1) * p + 0);
            assert((q + 1) * p == q * p + p) by (nonlinear_arith);
            assert(q * p + rho == r) by (nonlinear_arith)
                requires
                    r == p * q + rho,
            ;
            assert(rho < p);
        }
    } else {
        let rest = tiers.drop_first();
        lemma_tiers_tail(tiers);
        lemma_best_fit_covers(rho, rest);
        let counts = greedy_counts(r, tiers);
        assert(counts =~= seq![q] + greedy_counts(rho, rest));
        assert(counts.drop_first() =~= greedy_counts(rho, rest));
        assert(counts[0] == q);
        assert(covered_bytes(counts, tiers) == q * p + covered_bytes(
            greedy_counts(rho, rest),
            rest,
        ));
        assert(q * p + rho == r) by (nonlinear_arith)
            requires
                r == p * q + rho,
        ;
        assert(rest[rest.len() - 1] == tiers[tiers.len() - 1]);
    }
}

/// Adding `k` whole granules of the largest tier to a requirement adds
/// exactly `k` to the number of granules best fit takes.
pub proof fn lemma_best_fit_count_additive(y: nat, k: nat, tiers: Seq<u8>)
    requires
        valid_tiers(tiers),
    ensures
        counts_sum(greedy_counts(y + k * pow2(tiers[0] as nat), tiers)) == counts_sum(
            greedy_counts(y, tiers),
        ) + k,
{
    let p = pow2(tiers[0] as nat);
    lemma_pow2_pos(tiers[0] as nat);
    let z = y + k * p;
    lemma_hoist_over_denominator(y as int, k as int, p);
    assert(z / p == y / p + k);
    lemma_mod_multiples_vanish(k as int, y as int, p as int);
    assert(z as int == p as int * k as int + y as int) by (nonlinear_arith)
        requires
            z == y + k * p,
    ;
    assert(z % p == y % p);
    if tiers.len() == 1 {
        let cy = greedy_counts(y, tiers);
        let cz = greedy_counts(z, tiers);
        assert(cy.drop_first() =~= Seq::<nat>::empty());
        assert(cz.drop_first() =~= Seq::<nat>::empty());
        assert(counts_sum(cy.drop_first()) == 0);
        assert(counts_sum(cz.drop_first()) == 0);
        assert(counts_sum(cy) == cy[0]);
        assert(counts_sum(cz) == cz[0]);
    } else {
        let rest = tiers.drop_first();
        let cy = greedy_counts(y, tiers);
        let cz = greedy_counts(z, tiers);
        assert(cy =~= seq![y / p] + greedy_counts(y % p, rest));
        assert(cz =~= seq![z / p] + greedy_counts(z % p, rest));
        assert(cy.drop_first() =~= greedy_counts(y % p, rest));
        assert(cz.drop_first() =~= greedy_counts(z % p, rest));
        assert(counts_sum(cy) == y / p + counts_sum(greedy_counts(y % p, rest)));
        assert(counts_sum(cz) == z / p + counts_sum(greedy_counts(z % p, rest)));
    }
}

/// Best-fit minimality: among all exact covers of `r` bytes from the
/// available tiers — any per-tier counts whose granules hold exactly `r`
/// bytes — best fit uses the minimum number of granules.
pub proof fn lemma_best_fit_minimal(r: nat, tiers: Seq<u8>, other: Seq<nat>)
    requires
        valid_tiers(tiers),
        other.len() == tiers.len(),
        covered_bytes(other, tiers) == r,
    ensures
        counts_sum(other) >= counts_sum(greedy_counts(r, tiers)),
    decreases tiers.len(),
{
    let p = pow2(tiers[0] as nat);
    lemma_pow2_pos(tiers[0] as nat);
    lemma_fundamental_div_mod(r as int, p as int);
    let q = r / p;
    let rho = r % p;
    let a = other[0];
    if tiers.len() == 1 {
        assert(other.drop_first() =~= Seq::<nat>::empty());
        assert(covered_bytes(other.drop_first(), tiers.drop_first()) == 0);
        assert(counts_sum(other.drop_first()) == 0);
        assert(covered_bytes(other, tiers) == a * p + 0);
        assert(counts_sum(other) == a + 0);
        vstd::arithmetic::div_mod::lemma_mod_multiples_basic(a as int, p as int);
        assert(rho == 0);
        vstd::arithmetic::div_mod::lemma_div_multiples_vanish(a as int, p as int);
        assert(a * p == p * a) by (nonlinear_arith);
        assert(q == a);
        let counts = greedy_counts(r, tiers);
        assert(counts =~= seq![q]);
        assert(counts.drop_first() =~= Seq::<nat>::empty());
        assert(counts_sum(counts) == q);
    } else {
        let rest_t = tiers.drop_first();
        let rest_o = other.drop_first();
        lemma_tiers_tail(tiers);
        assert(covered_bytes(other, tiers) == a * p + covered_bytes(rest_o, rest_t));
        let x = covered_bytes(rest_o, rest_t);
        assert(a * p + x == r);
        assert(a <= q) by (nonlinear_arith)
            requires
                a * p + x == r,
                r == p * q + rho,
                rho < p,
                p >= 1,
        ;
        let m = (q - a) as nat;
        assert(x == rho + m * p) by (nonlinear_arith)
            requires
                a * p + x == r,
                r == p * q + rho,
                m == q - a,
        ;
        lemma_best_fit_minimal(x, rest_t, rest_o);
        let t0 = tiers[0];
        let t1 = rest_t[0];
        let p1 = pow2(t1 as nat);
        lemma_pow2_pos(t1 as nat);
        lemma_pow2_adds((t0 - t1) as nat, t1 as nat);
        let f = pow2((t0 - t1) as nat);
        assert(p == f * p1);
        vstd::arithmetic::power2::lemma_pow2_strictly_increases(0, (t0 - t1) as nat);
        vstd::arithmetic::power2::lemma2_to64();
        assert(f >= 2);
        assert(m * p == (m * f) * p1) by (nonlinear_arith)
            requires
                p == f * p1,
        ;
        lemma_best_fit_count_additive(rho, m * f, rest_t);
        assert(counts_sum(greedy_counts(x, rest_t)) == counts_sum(greedy_counts(rho, rest_t)) + m
            * f);
        assert(m * f >= m) by (nonlinear_arith)
            requires
                f >= 1,
        ;
        let counts = greedy_counts(r, tiers);
        assert(counts =~= seq![q] + greedy_counts(rho, rest_t));
        assert(counts.drop_first() =~= greedy_counts(rho, rest_t));
        assert(counts_sum(counts) == q + counts_sum(greedy_counts(rho, rest_t)));
        assert(counts_sum(other) == a + counts_sum(rest_o));
    }
}

/// Total number of granules in a best-fit report.
pub open spec fn info_total_count(infos: Seq<GranuleInfo>) -> nat
    decreases infos.len(),
{
    if infos.len() == 0 {
        0
    } else {
        infos[0].count as nat + info_total_count(infos.drop_first())
    }
}

/// Total bytes a best-fit report covers.
pub open spec fn info_total_bytes(infos: Seq<GranuleInfo>) -> nat
    decreases infos.len(),
{
    if infos.len() == 0 {
        0
    } else {
        infos[0].count as nat * pow2(infos[0].size_bits as nat) + info_total_bytes(
            infos.drop_first(),
        )
    }
}

/// The report the sizing function returns carries the same granule count
/// and the same byte total as the per-tier counts it was built from:
/// dropping the zero-count tiers loses nothing.
pub proof fn lemma_info_view_totals(counts: Seq<nat>, tiers: Seq<u8>)
    requires
        counts.len() == tiers.len(),
        forall|i: int| 0 <= i < counts.len() ==> #[trigger] counts[i] <= u64::MAX,
    ensures
        info_total_count(info_view(counts, tiers)) == counts_sum(counts),
        info_total_bytes(info_view(counts, tiers)) == covered_bytes(counts, tiers),
    decreases counts.len(),
{
    if counts.len() == 0 {
    } else {
        assert forall|i: int| 0 <= i < counts.drop_first().len() implies #[trigger] counts.drop_first()[i]
            <= u64::MAX by {
            assert(counts.drop_first()[i] == counts[i + 1]);
        }
        lemma_info_view_totals(counts.drop_first(), tiers.drop_first());
        if counts[0] == 0 {
        } else {
            let head = GranuleInfo { size_bits: tiers[0], count: counts[0] as u64 };
            let v = info_view(counts, tiers);
            assert(v =~= seq![head] + info_view(counts.drop_first(), tiers.drop_first()));
            assert(v.drop_first() =~= info_view(counts.drop_first(), tiers.drop_first()));
            assert(v[0] == head);
        }
    }
}

} // verus!
