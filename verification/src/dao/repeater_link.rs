use vstd::prelude::*;

verus! {

/// A link between two repeaters, to be stored. Links are undirected; the
/// store keeps the smaller id first.
pub struct NewRepeaterLink {
    pub repeater_a_id: i64,
    pub repeater_b_id: i64,
    pub note: String,
}

impl NewRepeaterLink {
    /// A link between two repeaters, without a note.
    pub fn new(repeater_a_id: i64, repeater_b_id: i64) -> (r: NewRepeaterLink)
        ensures
            r.repeater_a_id == repeater_a_id,
            r.repeater_b_id == repeater_b_id,
            r.note@.len() == 0,
    {
        NewRepeaterLink { repeater_a_id, repeater_b_id, note: String::new() }
    }

    /// The same link with the smaller id first, as the store requires.
    pub fn normalized(self) -> (r: NewRepeaterLink)
        ensures
            (r.repeater_a_id, r.repeater_b_id) == ordered_pair(
                self.repeater_a_id,
                self.repeater_b_id,
            ),
            r.note == self.note,
    {
        let mut link = self;
        if link.repeater_a_id > link.repeater_b_id {
            let a = link.repeater_a_id;
            link.repeater_a_id = link.repeater_b_id;
            link.repeater_b_id = a;
        }
        link
    }
}

/// The ids of a link's two repeaters, smaller first.
pub open spec fn ordered_pair(a: i64, b: i64) -> (i64, i64) {
    if a <= b {
        (a, b)
    } else {
        (b, a)
    }
}

/// Links are undirected: a link from A to B is stored as the link from B to
/// A, with the smaller id first, and storing a stored link again changes
/// nothing.
pub proof fn lemma_link_order_is_canonical(a: i64, b: i64)
    ensures
        ordered_pair(a, b) == ordered_pair(b, a),
        ordered_pair(a, b).0 <= ordered_pair(a, b).1,
        ordered_pair(ordered_pair(a, b).0, ordered_pair(a, b).1) == ordered_pair(a, b),
{
}

/// A stored link between two repeaters.
pub struct RepeaterLink {
    pub id: i64,
    pub repeater_a_id: i64,
    pub repeater_b_id: i64,
    pub note: String,
}

} // verus!
