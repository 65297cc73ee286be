//! Listing all items, or those of one tag.

use crate::item::Item;
use vstd::prelude::*;

verus! {

/// Whether `item` is listed when the tag with the id `tag_id` is asked for:
/// every item where no tag is asked for, else an item with that tag.
pub open spec fn listed<C>(tag_id: Option<u64>, item: Item<C>) -> bool {
    tag_id is None || item.tag_id == tag_id
}

/// Picks from `all` the items of the tag with the id `tag_id`, or every
/// item where no tag is asked for; they stay in their order.
pub fn items<C>(all: Vec<Item<C>>, tag_id: Option<u64>) -> (out: Vec<Item<C>>)
    ensures
        out@ == all@.filter(|item: Item<C>| listed(tag_id, item)),
{
    let ghost keeps = |item: Item<C>| listed(tag_id, item);
    let mut out: Vec<Item<C>> = Vec::new();
    proof {
        assert(all@.take(0) =~= Seq::<Item<C>>::empty());
        all@.take(0).lemma_filter_len(keeps);
    }
    for item in rest: all
        invariant
            rest.seq() == all@,
            keeps == |item: Item<C>| listed(tag_id, item),
            out@ == all@.take(rest.index() as int).filter(keeps),
    {
        proof {
            let seen = all@.take(rest.index() as int);
            assert(all@.take(rest.index() + 1) =~= seen.push(item));
            seen.lemma_filter_push(item, keeps);
            assert(keeps(item) == listed(tag_id, item));
        }
        let wanted = match tag_id {
            Some(id) => match item.tag_id {
                Some(of_item) => of_item == id,
                None => false,
            },
            None => true,
        };
        if wanted {
            out.push(item);
        }
    }
    proof {
        assert(all@.take(all@.len() as int) =~= all@);
    }
    out
}

} // verus!
