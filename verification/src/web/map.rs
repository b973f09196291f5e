use vstd::prelude::*;

use crate::dao::repeater_service::RepeaterServiceKind;

verus! {

/// The map page.
pub struct MapPath;

/// The kinds in the order of their labels (`AM`, `APRS`, `C4FM`, `D-STAR`,
/// `DMR`, `FM`, `SSB`).
pub open spec fn kinds_by_label() -> Seq<RepeaterServiceKind> {
    seq![
        RepeaterServiceKind::Am,
        RepeaterServiceKind::Aprs,
        RepeaterServiceKind::C4fm,
        RepeaterServiceKind::Dstar,
        RepeaterServiceKind::Dmr,
        RepeaterServiceKind::Fm,
        RepeaterServiceKind::Ssb,
    ]
}

/// Whether a kind is among `kinds`.
pub open spec fn offered_in(kinds: Seq<RepeaterServiceKind>) -> spec_fn(RepeaterServiceKind) -> bool {
    |k: RepeaterServiceKind| kinds.contains(k)
}

/// The labels of some kinds.
pub open spec fn labels_of(kinds: Seq<RepeaterServiceKind>) -> Seq<Seq<char>> {
    kinds.map_values(|k: RepeaterServiceKind| k.spec_label())
}

/// The labels of the kinds in `kinds`, each once, sorted.
pub open spec fn service_label_texts(kinds: Seq<RepeaterServiceKind>) -> Seq<Seq<char>> {
    labels_of(kinds_by_label().filter(offered_in(kinds)))
}

/// The service labels a map marker lists for a repeater offering services
/// of `kinds`: each kind's label once, in sorted order.
pub fn service_labels(kinds: &Vec<RepeaterServiceKind>) -> (r: Vec<String>)
    ensures
        crate::text::texts(r@) == service_label_texts(kinds@),
{
    let order: Vec<RepeaterServiceKind> = vec![
        RepeaterServiceKind::Am,
        RepeaterServiceKind::Aprs,
        RepeaterServiceKind::C4fm,
        RepeaterServiceKind::Dstar,
        RepeaterServiceKind::Dmr,
        RepeaterServiceKind::Fm,
        RepeaterServiceKind::Ssb,
    ];
    proof {
        assert(order@ =~= kinds_by_label());
        reveal(Seq::filter);
    }
    let mut r: Vec<String> = Vec::new();
    let mut i: usize = 0;
    proof {
        assert(crate::text::texts(r@) =~= labels_of(order@.subrange(0, 0).filter(offered_in(kinds@))));
    }
    while i < order.len()
        invariant
            i <= order.len(),
            crate::text::texts(r@) == labels_of(order@.subrange(0, i as int).filter(offered_in(kinds@))),
        decreases order.len() - i,
    {
        let kind = order[i];
        let present = contains_kind(kinds, kind);
        let ghost before = r@;
        if present {
            let label = crate::text::owned(kind.label());
            r.push(label);
        }
        proof {
            reveal(Seq::filter);
            let next = order@.subrange(0, i + 1);
            assert(next.drop_last() =~= order@.subrange(0, i as int));
            assert(next.last() == kind);
            let f0 = order@.subrange(0, i as int).filter(offered_in(kinds@));
            assert(next.filter(offered_in(kinds@)) == if present {
                f0.push(kind)
            } else {
                f0
            });
            assert(crate::text::texts(before) == labels_of(f0));
            if present {
                assert(crate::text::texts(r@) =~= crate::text::texts(before).push(kind.spec_label()));
                assert(labels_of(f0.push(kind)) =~= labels_of(f0).push(kind.spec_label()));
            }
            assert(crate::text::texts(r@) =~= labels_of(next.filter(offered_in(kinds@))));
        }
        i = i + 1;
    }
    proof {
        assert(order@.subrange(0, 7) =~= order@);
    }
    r
}

fn contains_kind(kinds: &Vec<RepeaterServiceKind>, kind: RepeaterServiceKind) -> (r: bool)
    ensures
        r == kinds@.contains(kind),
{
    let mut i: usize = 0;
    while i < kinds.len()
        invariant
            i <= kinds.len(),
            forall|j: int| 0 <= j < i ==> kinds@[j] != kind,
        decreases kinds.len() - i,
    {
        if kinds[i] == kind {
            proof {
                assert(kinds@[i as int] == kind);
            }
            return true;
        }
        i = i + 1;
    }
    false
}

/// The kinds of the services of repeater `id`, from (repeater, kind) pairs.
pub open spec fn kinds_of(pairs: Seq<(i64, RepeaterServiceKind)>, id: i64) -> Seq<RepeaterServiceKind> {
    pairs.filter(|p: (i64, RepeaterServiceKind)| p.0 == id).map_values(
        |p: (i64, RepeaterServiceKind)| p.1,
    )
}

/// Picks the kinds of the services of repeater `id` out of (repeater, kind)
/// pairs, in their order.
pub fn kinds_for(pairs: &Vec<(i64, RepeaterServiceKind)>, id: i64) -> (r: Vec<RepeaterServiceKind>)
    ensures
        r@ == kinds_of(pairs@, id),
{
    let mut r: Vec<RepeaterServiceKind> = Vec::new();
    let mut i: usize = 0;
    while i < pairs.len()
        invariant
            i <= pairs.len(),
            r@ == kinds_of(pairs@.subrange(0, i as int), id),
        decreases pairs.len() - i,
    {
        let (rid, kind) = pairs[i];
        proof {
            reveal(Seq::filter);
            let next = pairs@.subrange(0, i + 1);
            assert(next.drop_last() =~= pairs@.subrange(0, i as int));
        }
        if rid == id {
            r.push(kind);
        }
        proof {
            let f0 = pairs@.subrange(0, i as int).filter(|p: (i64, RepeaterServiceKind)| p.0 == id);
            let next = pairs@.subrange(0, i + 1);
            assert(next.last() == (rid, kind));
            if rid == id {
                assert(next.filter(|p: (i64, RepeaterServiceKind)| p.0 == id) == f0.push((rid, kind)));
                assert(kinds_of(next, id) =~= kinds_of(pairs@.subrange(0, i as int), id).push(kind));
            } else {
                assert(next.filter(|p: (i64, RepeaterServiceKind)| p.0 == id) == f0);
            }
        }
        i = i + 1;
    }
    proof {
        assert(pairs@.subrange(0, pairs.len() as int) =~= pairs@);
    }
    r
}

} // verus!
