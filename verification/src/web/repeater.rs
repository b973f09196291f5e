use vstd::prelude::*;

use crate::dao::repeater_link::RepeaterLink;
use crate::text::{
    chars_eq, chars_of, lemma_text_lt_irreflexive, lemma_text_lt_total, lemma_text_lt_transitive,
    precedes, text_lt, texts, to_uppercase, unicode_upper,
};

verus! {

/// The page of a call sign: a repeater or a contact.
pub struct CallSignDetailPath {
    pub call_sign: String,
}

/// The call sign a page address is looked up by: the address in upper case.
pub fn path_call_sign(raw: &str) -> (r: String)
    ensures
        r@ == unicode_upper(raw@),
{
    to_uppercase(raw)
}

/// A repeater's linked network is drawn only when it has more than the
/// repeater itself.
pub fn shows_linked_network(members: usize) -> (r: bool)
    ensures
        r == (members > 1),
{
    members > 1
}

/// `ids` without repeats, each id where it first occurs.
pub open spec fn first_occurrences(ids: Seq<i64>) -> Seq<i64>
    decreases ids.len(),
{
    if ids.len() == 0 {
        Seq::empty()
    } else {
        let prefix = first_occurrences(ids.drop_last());
        if ids.drop_last().contains(ids.last()) {
            prefix
        } else {
            prefix.push(ids.last())
        }
    }
}

/// An id is among the first occurrences exactly when it occurs at all.
proof fn lemma_first_occurrences_contains(ids: Seq<i64>, x: i64)
    ensures
        first_occurrences(ids).contains(x) <==> ids.contains(x),
    decreases ids.len(),
{
    if ids.len() > 0 {
        let init = ids.drop_last();
        lemma_first_occurrences_contains(init, x);
        lemma_first_occurrences_contains(init, ids.last());
        if ids.contains(x) && !init.contains(x) {
            let k = choose|k: int| 0 <= k < ids.len() && ids[k] == x;
            if k < ids.len() - 1 {
                assert(init[k] == x);
            }
            assert(x == ids.last());
        }
        if init.contains(x) {
            let k = choose|k: int| 0 <= k < init.len() && init[k] == x;
            assert(ids[k] == x);
        }
        let prefix = first_occurrences(init);
        if !init.contains(ids.last()) {
            if prefix.push(ids.last()).contains(x) && x != ids.last() {
                let k = choose|k: int| 0 <= k < prefix.len() + 1 && prefix.push(ids.last())[k] == x;
                assert(prefix[k] == x);
            }
            if prefix.contains(x) {
                let k = choose|k: int| 0 <= k < prefix.len() && prefix[k] == x;
                assert(prefix.push(ids.last())[k] == x);
            }
            if x == ids.last() {
                assert(prefix.push(ids.last())[prefix.len() as int] == x);
            }
        } else {
            if x == ids.last() {
                assert(ids[ids.len() - 1] == x);
            }
        }
    }
}

/// The repeaters a contact's page lists come each once: the list holds
/// every id met and no id twice.
pub proof fn lemma_club_repeaters_each_once(ids: Seq<i64>)
    ensures
        first_occurrences(ids).no_duplicates(),
        forall|x: i64| first_occurrences(ids).contains(x) <==> ids.contains(x),
    decreases ids.len(),
{
    assert forall|x: i64| first_occurrences(ids).contains(x) <==> ids.contains(x) by {
        lemma_first_occurrences_contains(ids, x);
    }
    if ids.len() > 0 {
        let init = ids.drop_last();
        lemma_club_repeaters_each_once(init);
        let prefix = first_occurrences(init);
        if !init.contains(ids.last()) {
            lemma_first_occurrences_contains(init, ids.last());
            let p = prefix.push(ids.last());
            assert forall|i: int, j: int| 0 <= i < p.len() && 0 <= j < p.len() && i != j implies p[i]
                != p[j] by {
                if i < prefix.len() && j < prefix.len() {
                } else if i < prefix.len() {
                    assert(prefix.contains(p[i]));
                } else {
                    assert(prefix.contains(p[j]));
                }
            }
        }
    }
}

/// Whether some index listed in `r` has the call sign `t`.
pub open spec fn listed(keys: Seq<Seq<char>>, r: Seq<usize>, t: Seq<char>) -> bool {
    exists|k: int| 0 <= k < r.len() && keys[#[trigger] r[k] as int] == t
}

/// Whether `r` lists, among the first `m` call signs of `keys`, each call
/// sign once by the index of its last occurrence, in ascending order of the
/// call signs.
#[verifier::opaque]
pub open spec fn ordered_upto(keys: Seq<Seq<char>>, m: int, r: Seq<usize>) -> bool {
    &&& forall|k: int| 0 <= k < r.len() ==> #[trigger] r[k] < m
    &&& forall|a: int, b: int|
        0 <= a < b < r.len() ==> text_lt(keys[#[trigger] r[a] as int], keys[#[trigger] r[b] as int])
    &&& forall|i: int| 0 <= i < m ==> listed(keys, r, #[trigger] keys[i])
    &&& forall|k: int, j: int|
        #![trigger r[k], keys[j]]
        0 <= k < r.len() && r[k] < j < m ==> keys[j] != keys[r[k] as int]
}

/// Whether `r` lists the repeaters with call signs `keys` as a map keyed by
/// call sign hands them out: each call sign once, held by the last repeater
/// that has it, in ascending order of the call signs.
pub open spec fn by_call_sign(keys: Seq<Seq<char>>, r: Seq<usize>) -> bool {
    ordered_upto(keys, keys.len() as int, r)
}

/// The order in which a contact's page lists its repeaters: the indices of
/// `call_signs`, one per call sign (the last that has it), in ascending
/// order of the call signs.
pub fn call_sign_order(call_signs: &Vec<String>) -> (r: Vec<usize>)
    ensures
        by_call_sign(texts(call_signs@), r@),
{
    let ghost ks = texts(call_signs@);
    let n = call_signs.len();
    let mut keys: Vec<Vec<char>> = Vec::new();
    let mut i: usize = 0;
    while i < n
        invariant
            n == call_signs.len(),
            ks == texts(call_signs@),
            i <= n,
            keys@.len() == i,
            forall|j: int| 0 <= j < i ==> (#[trigger] keys@[j])@ == ks[j],
        decreases n - i,
    {
        let k = chars_of(call_signs[i].as_str());
        keys.push(k);
        i = i + 1;
    }
    let mut r: Vec<usize> = Vec::new();
    proof {
        reveal(ordered_upto);
    }
    let mut i: usize = 0;
    while i < n
        invariant
            n == call_signs.len(),
            ks == texts(call_signs@),
            ks.len() == n,
            i <= n,
            keys@.len() == n,
            forall|j: int| 0 <= j < n ==> (#[trigger] keys@[j])@ == ks[j],
            ordered_upto(ks, i as int, r@),
        decreases n - i,
    {
        proof {
            reveal(ordered_upto);
        }
        let mut pos: usize = 0;
        while pos < r.len() && precedes(&keys[r[pos]], &keys[i])
            invariant
                i < n,
                keys@.len() == n,
                forall|j: int| 0 <= j < n ==> (#[trigger] keys@[j])@ == ks[j],
                ordered_upto(ks, i as int, r@),
                forall|p: int| 0 <= p < r.len() ==> #[trigger] r@[p] < i,
                pos <= r.len(),
                forall|p: int| 0 <= p < pos ==> text_lt(ks[#[trigger] r@[p] as int], ks[i as int]),
            decreases r.len() - pos,
        {
            pos = pos + 1;
        }
        let ghost x = ks[i as int];
        let ghost old_r = r@;
        if pos < r.len() && chars_eq(&keys[r[pos]], &keys[i]) {
            r.set(pos, i);
            proof {
                lemma_replace_keeps_order(ks, i as int, old_r, pos as int);
            }
        } else {
            proof {
                if pos < old_r.len() {
                    lemma_text_lt_total(ks[old_r[pos as int] as int], x);
                }
            }
            r.insert(pos, i);
            proof {
                lemma_insert_keeps_order(ks, i as int, old_r, pos as int);
            }
        }
        i = i + 1;
    }
    r
}

/// Replacing the index of the call sign equal to the next one by the next
/// index keeps the listing in order.
proof fn lemma_replace_keeps_order(ks: Seq<Seq<char>>, i: int, r: Seq<usize>, pos: int)
    requires
        0 <= i < ks.len(),
        i <= usize::MAX,
        ordered_upto(ks, i, r),
        0 <= pos < r.len(),
        ks[r[pos] as int] == ks[i],
    ensures
        ordered_upto(ks, i + 1, r.update(pos, i as usize)),
{
    reveal(ordered_upto);
    let r2 = r.update(pos, i as usize);
    assert forall|a: int, b: int| 0 <= a < b < r2.len() implies text_lt(
        ks[#[trigger] r2[a] as int],
        ks[#[trigger] r2[b] as int],
    ) by {
        assert(text_lt(ks[r[a] as int], ks[r[b] as int]));
    }
    assert forall|j: int| 0 <= j < i + 1 implies listed(ks, r2, #[trigger] ks[j]) by {
        if j == i {
            assert(ks[r2[pos] as int] == ks[j]);
        } else {
            let k = choose|k: int| 0 <= k < r.len() && ks[#[trigger] r[k] as int] == ks[j];
            if k == pos {
                assert(ks[r2[pos] as int] == ks[j]);
            } else {
                assert(ks[r2[k] as int] == ks[j]);
            }
        }
    }
    assert forall|k: int, j: int|
        #![trigger r2[k], ks[j]]
        0 <= k < r2.len() && r2[k] < j < i + 1 implies ks[j] != ks[r2[k] as int] by {
        if k != pos {
            if j == i {
                if k < pos {
                    assert(text_lt(ks[r[k] as int], ks[r[pos] as int]));
                } else {
                    assert(text_lt(ks[r[pos] as int], ks[r[k] as int]));
                }
                lemma_text_lt_irreflexive(ks[i]);
            }
        }
    }
}

/// Inserting the next index where its call sign belongs keeps the listing
/// in order.
proof fn lemma_insert_keeps_order(ks: Seq<Seq<char>>, i: int, r: Seq<usize>, pos: int)
    requires
        0 <= i < ks.len(),
        i <= usize::MAX,
        ordered_upto(ks, i, r),
        0 <= pos <= r.len(),
        forall|p: int| 0 <= p < pos ==> text_lt(ks[#[trigger] r[p] as int], ks[i]),
        pos < r.len() ==> text_lt(ks[i], ks[r[pos] as int]),
    ensures
        ordered_upto(ks, i + 1, r.insert(pos, i as usize)),
{
    reveal(ordered_upto);
    let r2 = r.insert(pos, i as usize);
    let x = ks[i];
    assert(r2.len() == r.len() + 1);
    assert(forall|k: int| 0 <= k < pos ==> #[trigger] r2[k] == r[k]);
    assert(r2[pos] == i);
    assert(forall|k: int| pos < k < r2.len() ==> #[trigger] r2[k] == r[k - 1]);
    assert forall|b: int| pos <= b < r.len() implies text_lt(x, ks[#[trigger] r[b] as int]) by {
        if b > pos {
            assert(text_lt(ks[r[pos] as int], ks[r[b] as int]));
            lemma_text_lt_transitive(x, ks[r[pos] as int], ks[r[b] as int]);
        }
    }
    lemma_insert_sorted(ks, i, r, pos, r2);
    lemma_insert_covers(ks, i, r, pos, r2);
    lemma_insert_last(ks, i, r, pos, r2);
    assert forall|k: int| 0 <= k < r2.len() implies #[trigger] r2[k] < i + 1 by {
        if k < pos {
            assert(r2[k] == r[k]);
        } else if k > pos {
            assert(r2[k] == r[k - 1]);
        }
    }
}

/// Every call sign up to the next one keeps an index in the listing when
/// the next index is inserted.
proof fn lemma_insert_covers(ks: Seq<Seq<char>>, i: int, r: Seq<usize>, pos: int, r2: Seq<usize>)
    requires
        0 <= i < ks.len(),
        0 <= pos <= r.len(),
        forall|j: int| 0 <= j < i ==> listed(ks, r, #[trigger] ks[j]),
        r2.len() == r.len() + 1,
        forall|k: int| 0 <= k < pos ==> #[trigger] r2[k] == r[k],
        r2[pos] == i,
        forall|k: int| pos < k < r2.len() ==> #[trigger] r2[k] == r[k - 1],
    ensures
        forall|j: int| 0 <= j < i + 1 ==> listed(ks, r2, #[trigger] ks[j]),
{
    assert forall|j: int| 0 <= j < i + 1 implies listed(ks, r2, #[trigger] ks[j]) by {
        if j == i {
            assert(ks[r2[pos] as int] == ks[j]);
        } else {
            let k = choose|k: int| 0 <= k < r.len() && ks[#[trigger] r[k] as int] == ks[j];
            if k < pos {
                assert(r2[k] == r[k]);
                assert(ks[r2[k] as int] == ks[j]);
            } else {
                assert(r2[k + 1] == r[k]);
                assert(ks[r2[k + 1] as int] == ks[j]);
            }
        }
    }
}

/// Each listed index stays the last of its call sign when the next index is
/// inserted: no call sign listed before it equals the next one.
proof fn lemma_insert_last(ks: Seq<Seq<char>>, i: int, r: Seq<usize>, pos: int, r2: Seq<usize>)
    requires
        0 <= i < ks.len(),
        0 <= pos <= r.len(),
        forall|k: int| 0 <= k < r.len() ==> #[trigger] r[k] < i,
        forall|k: int, j: int|
            #![trigger r[k], ks[j]]
            0 <= k < r.len() && r[k] < j < i ==> ks[j] != ks[r[k] as int],
        forall|p: int| 0 <= p < pos ==> text_lt(ks[#[trigger] r[p] as int], ks[i]),
        forall|b: int| pos <= b < r.len() ==> text_lt(ks[i], ks[#[trigger] r[b] as int]),
        r2.len() == r.len() + 1,
        forall|k: int| 0 <= k < pos ==> #[trigger] r2[k] == r[k],
        r2[pos] == i,
        forall|k: int| pos < k < r2.len() ==> #[trigger] r2[k] == r[k - 1],
    ensures
        forall|k: int, j: int|
            #![trigger r2[k], ks[j]]
            0 <= k < r2.len() && r2[k] < j < i + 1 ==> ks[j] != ks[r2[k] as int],
{
    let x = ks[i];
    lemma_text_lt_irreflexive(x);
    assert forall|k: int, j: int|
        #![trigger r2[k], ks[j]]
        0 <= k < r2.len() && r2[k] < j < i + 1 implies ks[j] != ks[r2[k] as int] by {
        if k < pos {
            assert(r2[k] == r[k]);
            if j == i {
                assert(text_lt(ks[r[k] as int], x));
            } else {
                assert(ks[j] != ks[r[k] as int]);
            }
        } else if k > pos {
            assert(r2[k] == r[k - 1]);
            if j == i {
                assert(text_lt(x, ks[r[k - 1] as int]));
            } else {
                assert(ks[j] != ks[r[k - 1] as int]);
            }
        }
    }
}

/// The call signs stay in ascending order when the next index is inserted
/// between those before and those after its call sign.
proof fn lemma_insert_sorted(ks: Seq<Seq<char>>, i: int, r: Seq<usize>, pos: int, r2: Seq<usize>)
    requires
        0 <= i < ks.len(),
        0 <= pos <= r.len(),
        forall|a: int, b: int|
            0 <= a < b < r.len() ==> text_lt(ks[#[trigger] r[a] as int], ks[#[trigger] r[b] as int]),
        forall|p: int| 0 <= p < pos ==> text_lt(ks[#[trigger] r[p] as int], ks[i]),
        forall|b: int| pos <= b < r.len() ==> text_lt(ks[i], ks[#[trigger] r[b] as int]),
        r2.len() == r.len() + 1,
        forall|k: int| 0 <= k < pos ==> #[trigger] r2[k] == r[k],
        r2[pos] == i,
        forall|k: int| pos < k < r2.len() ==> #[trigger] r2[k] == r[k - 1],
    ensures
        forall|a: int, b: int|
            0 <= a < b < r2.len() ==> text_lt(ks[#[trigger] r2[a] as int], ks[#[trigger] r2[b] as int]),
{
    assert forall|a: int, b: int| 0 <= a < b < r2.len() implies text_lt(
        ks[#[trigger] r2[a] as int],
        ks[#[trigger] r2[b] as int],
    ) by {
        if b < pos {
            assert(r2[a] == r[a] && r2[b] == r[b]);
            assert(text_lt(ks[r[a] as int], ks[r[b] as int]));
        } else if b == pos {
            assert(r2[a] == r[a]);
            assert(text_lt(ks[r[a] as int], ks[i]));
        } else if a < pos {
            assert(r2[a] == r[a] && r2[b] == r[b - 1]);
            assert(text_lt(ks[r[a] as int], ks[r[b - 1] as int]));
        } else if a == pos {
            assert(r2[b] == r[b - 1]);
            assert(text_lt(ks[i], ks[r[b - 1] as int]));
        } else {
            assert(r2[a] == r[a - 1] && r2[b] == r[b - 1]);
            assert(text_lt(ks[r[a - 1] as int], ks[r[b - 1] as int]));
        }
    }
}

/// The repeaters a contact is responsible for, as owner or as technical
/// contact: each repeater once, in the order first met.
pub fn club_repeater_ids(ids: &Vec<i64>) -> (r: Vec<i64>)
    ensures
        r@ == first_occurrences(ids@),
{
    let mut r: Vec<i64> = Vec::new();
    let mut i: usize = 0;
    while i < ids.len()
        invariant
            i <= ids.len(),
            r@ == first_occurrences(ids@.subrange(0, i as int)),
        decreases ids.len() - i,
    {
        let id = ids[i];
        let ghost prefix = ids@.subrange(0, i as int);
        let ghost next = ids@.subrange(0, i + 1);
        proof {
            assert(next.drop_last() =~= prefix);
            assert(next.last() == id);
            lemma_first_occurrences_contains(prefix, id);
        }
        let seen = contains_id(&r, id);
        if !seen {
            r.push(id);
        }
        i = i + 1;
    }
    proof {
        assert(ids@.subrange(0, ids.len() as int) =~= ids@);
    }
    r
}

fn contains_id(ids: &Vec<i64>, id: i64) -> (r: bool)
    ensures
        r == ids@.contains(id),
{
    let mut i: usize = 0;
    while i < ids.len()
        invariant
            i <= ids.len(),
            forall|j: int| 0 <= j < i ==> ids@[j] != id,
        decreases ids.len() - i,
    {
        if ids[i] == id {
            proof {
                assert(ids@[i as int] == id);
            }
            return true;
        }
        i = i + 1;
    }
    false
}

/// Whether a repeater drawn on a contact's map lies outside the contact's
/// own repeaters, and is marked as external.
pub fn is_external(club_ids: &Vec<i64>, repeater_id: i64) -> (r: bool)
    ensures
        r == !club_ids@.contains(repeater_id),
{
    !contains_id(club_ids, repeater_id)
}

/// Whether both ends of `link` are among `on_map`.
pub open spec fn link_on_map(on_map: Seq<i64>, link: RepeaterLink) -> bool {
    on_map.contains(link.repeater_a_id) && on_map.contains(link.repeater_b_id)
}

/// A map draws exactly the links between repeaters it shows: every link
/// drawn is one of the given links with both its repeaters on the map, and
/// every given link with both repeaters on the map is drawn.
pub proof fn lemma_map_draws_links_between_shown_repeaters(
    on_map: Seq<i64>,
    links: Seq<RepeaterLink>,
    drawn: Seq<RepeaterLink>,
)
    requires
        drawn == links.filter(|l: RepeaterLink| link_on_map(on_map, l)),
    ensures
        forall|k: int|
            0 <= k < drawn.len() ==> on_map.contains((#[trigger] drawn[k]).repeater_a_id)
                && on_map.contains(drawn[k].repeater_b_id) && links.contains(drawn[k]),
        forall|i: int|
            0 <= i < links.len() && on_map.contains((#[trigger] links[i]).repeater_a_id)
                && on_map.contains(links[i].repeater_b_id) ==> drawn.contains(links[i]),
        drawn.len() <= links.len(),
{
    let pred = |l: RepeaterLink| link_on_map(on_map, l);
    links.filter_lemma(pred);
    assert forall|k: int| 0 <= k < drawn.len() implies links.contains(#[trigger] drawn[k]) by {
        assert(drawn.contains(drawn[k]));
        links.lemma_filter_contains_rev(pred, drawn[k]);
    }
    assert forall|i: int|
        0 <= i < links.len() && on_map.contains((#[trigger] links[i]).repeater_a_id)
            && on_map.contains(links[i].repeater_b_id) implies drawn.contains(links[i]) by {
        links.lemma_filter_contains(pred, i);
    }
    links.lemma_filter_len(pred);
}

/// Links are drawn in their order, each once: no links draw nothing, and
/// one more link at the end is drawn after the others exactly when both its
/// repeaters are on the map.
pub proof fn lemma_map_draws_links_in_order(on_map: Seq<i64>, links: Seq<RepeaterLink>, link: RepeaterLink)
    ensures
        Seq::<RepeaterLink>::empty().filter(|l: RepeaterLink| link_on_map(on_map, l))
            == Seq::<RepeaterLink>::empty(),
        links.push(link).filter(|l: RepeaterLink| link_on_map(on_map, l)) == if on_map.contains(
            link.repeater_a_id,
        ) && on_map.contains(link.repeater_b_id) {
            links.filter(|l: RepeaterLink| link_on_map(on_map, l)).push(link)
        } else {
            links.filter(|l: RepeaterLink| link_on_map(on_map, l))
        },
{
    reveal(Seq::filter);
    assert(links.push(link).drop_last() =~= links);
    assert(Seq::<RepeaterLink>::empty().filter(|l: RepeaterLink| link_on_map(on_map, l))
        =~= Seq::<RepeaterLink>::empty());
}

/// The links a map draws: those whose two repeaters are both on the map, in
/// their order.
pub fn links_on_map(on_map: &Vec<i64>, links: Vec<RepeaterLink>) -> (r: Vec<RepeaterLink>)
    ensures
        r@ == links@.filter(|l: RepeaterLink| link_on_map(on_map@, l)),
{
    let ghost all = links@;
    let total = links.len();
    let mut rest = links;
    let mut r: Vec<RepeaterLink> = Vec::new();
    let mut i: usize = 0;
    proof {
        reveal(Seq::filter);
        assert(rest@ =~= all.subrange(0, total as int));
        assert(r@ =~= all.subrange(0, 0).filter(|l: RepeaterLink| link_on_map(on_map@, l)));
    }
    while rest.len() > 0
        invariant
            i + rest@.len() == total,
            all.len() == total,
            rest@ == all.subrange(i as int, total as int),
            r@ == all.subrange(0, i as int).filter(|l: RepeaterLink| link_on_map(on_map@, l)),
        decreases rest@.len(),
    {
        let link = rest.remove(0);
        proof {
            reveal(Seq::filter);
            assert(link == all[i as int]);
            assert(rest@ =~= all.subrange(i + 1, total as int));
            assert(all.subrange(0, i + 1).drop_last() =~= all.subrange(0, i as int));
        }
        if contains_id(on_map, link.repeater_a_id) && contains_id(on_map, link.repeater_b_id) {
            r.push(link);
        }
        i = i + 1;
    }
    proof {
        assert(all.subrange(0, total as int) =~= all);
    }
    r
}

} // verus!
