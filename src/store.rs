use vstd::prelude::*;
use crate::message::{Message, views};

verus! {

/// The most messages that a session loads back from the store.
pub const RECENT_LIMIT: i64 = 50;

/// Puts rows that the store returned newest first into chronological order.
pub fn chronological(rows_newest_first: Vec<Message>) -> (r: Vec<Message>)
    ensures
        views(r@) == views(rows_newest_first@).reverse(),
{
    let mut rows = rows_newest_first;
    let ghost all = views(rows@);
    let mut r: Vec<Message> = Vec::new();
    while rows.len() > 0
        invariant
            views(r@) + views(rows@).reverse() == all.reverse(),
        decreases rows.len(),
    {
        let ghost before = views(rows@);
        let m = rows.pop().unwrap();
        proof {
            assert(views(rows@) =~= before.drop_last());
            assert(before.reverse() =~= seq![m@] + before.drop_last().reverse());
        }
        let ghost before_r = views(r@);
        r.push(m);
        assert(views(r@) =~= before_r.push(m@));
        assert(views(r@) + views(rows@).reverse() =~= before_r + before.reverse());
    }
    assert(views(r@) =~= views(r@) + views(rows@).reverse());
    r
}

} // verus!
