//! Listing the items that are ready: those due, by tag.

use crate::cli::pull::limited;
use crate::item::Item;
use crate::tag::{has_name, named, Tag};
use vstd::prelude::*;

verus! {

/// The request to list ready items.
#[derive(Debug)]
pub struct Command {
    /// Only get up to this many items.
    pub limit: Option<usize>,
    /// Only get items with these tags.
    pub tag: Option<Vec<String>>,
}

/// Whether one of `tags` has the id `id` and a name among `names`.
pub open spec fn tagged(tags: Seq<Tag>, names: Seq<String>, id: u64) -> bool {
    exists|i: int| 0 <= i < tags.len() && (#[trigger] tags[i]).id == id && named(names, tags[i].name@)
}

/// The ids of those of `tags` whose name is among `names`.
pub fn ids_named(tags: &Vec<Tag>, names: &Vec<String>) -> (ids: Vec<u64>)
    ensures
        forall|id: u64| ids@.contains(id) <==> tagged(tags@, names@, id),
{
    let mut ids: Vec<u64> = Vec::new();
    let mut i: usize = 0;
    while i < tags.len()
        invariant
            i <= tags.len(),
            forall|id: u64| ids@.contains(id) <==> tagged(tags@.take(i as int), names@, id),
        decreases tags.len() - i,
    {
        let ghost before = ids@;
        let ghost seen = tags@.take(i as int);
        let ghost upto = tags@.take(i + 1);
        let found = has_name(names, &tags[i].name);
        if found {
            ids.push(tags[i].id);
        }
        proof {
            assert(upto[i as int] == tags@[i as int]);
            assert forall|id: u64| ids@.contains(id) <==> tagged(upto, names@, id) by {
                if ids@.contains(id) {
                    if before.contains(id) {
                        let k = choose|k: int|
                            0 <= k < seen.len() && (#[trigger] seen[k]).id == id && named(
                                names@,
                                seen[k].name@,
                            );
                        assert(upto[k] == seen[k]);
                    } else {
                        let at = choose|at: int| 0 <= at < ids@.len() && ids@[at] == id;
                        if at < before.len() {
                            assert(before[at] == id);
                            assert(before.contains(id));
                        }
                        assert(upto[i as int].id == id);
                    }
                }
                if tagged(upto, names@, id) {
                    let k = choose|k: int|
                        0 <= k < upto.len() && (#[trigger] upto[k]).id == id && named(
                            names@,
                            upto[k].name@,
                        );
                    if k < i {
                        assert(seen[k] == upto[k]);
                        assert(tagged(seen, names@, id));
                        assert(before.contains(id));
                        let at = choose|at: int| 0 <= at < before.len() && before[at] == id;
                        assert(ids@[at] == id);
                    } else {
                        assert(found);
                        assert(ids@[ids@.len() - 1] == id);
                    }
                }
            }
        }
        i = i + 1;
    }
    proof {
        assert(tags@.take(i as int) =~= tags@);
    }
    ids
}

/// Whether `id` is one of `ids`.
fn has_id(ids: &Vec<u64>, id: u64) -> (has: bool)
    ensures
        has == ids@.contains(id),
{
    let mut i: usize = 0;
    while i < ids.len()
        invariant
            i <= ids.len(),
            forall|k: int| 0 <= k < i ==> ids@[k] != id,
        decreases ids.len() - i,
    {
        if ids[i] == id {
            return true;
        }
        i = i + 1;
    }
    false
}

impl Command {
    /// Whether `item` is asked for: where tags are named, an item whose tag
    /// is one of `tags` with such a name; where none is named, every item.
    pub open spec fn keeps<C>(self, tags: Seq<Tag>, item: Item<C>) -> bool {
        match self.tag {
            Some(names) => item.tag_id is Some && tagged(tags, names@, item.tag_id->0),
            None => true,
        }
    }

    /// What is listed of the due items `due`: those asked for, in their
    /// order, up to the limit.
    pub open spec fn ready<C>(self, tags: Seq<Tag>, due: Seq<Item<C>>) -> Seq<Item<C>> {
        limited(due.filter(|item: Item<C>| self.keeps(tags, item)), self.limit)
    }

    /// Picks from the due items, which come soonest first, those that the
    /// request asks for, up to its limit; `tags` are all the tags there
    /// are.
    pub fn items<C>(&self, tags: &Vec<Tag>, due: Vec<Item<C>>) -> (out: Vec<Item<C>>)
        ensures
            out@ == self.ready(tags@, due@),
    {
        let tag_ids: Option<Vec<u64>> = match &self.tag {
            Some(names) => Some(ids_named(tags, names)),
            None => None,
        };
        let ghost keeps = |item: Item<C>| self.keeps(tags@, item);
        let mut out: Vec<Item<C>> = Vec::new();
        proof {
            assert(due@.take(0) =~= Seq::<Item<C>>::empty());
            due@.take(0).lemma_filter_len(keeps);
        }
        for item in rest: due
            invariant
                rest.seq() == due@,
                keeps == |item: Item<C>| self.keeps(tags@, item),
                tag_ids is Some <==> self.tag is Some,
                tag_ids is Some ==> forall|id: u64|
                    tag_ids->0@.contains(id) <==> tagged(tags@, self.tag->0@, id),
                out@ == limited(due@.take(rest.index() as int).filter(keeps), self.limit),
        {
            proof {
                let seen = due@.take(rest.index() as int);
                assert(due@.take(rest.index() + 1) =~= seen.push(item));
                seen.lemma_filter_push(item, keeps);
                assert(keeps(item) == self.keeps(tags@, item));
            }
            let wanted = match &tag_ids {
                Some(ids) => match item.tag_id {
                    Some(id) => has_id(ids, id),
                    None => false,
                },
                None => true,
            };
            let room = match self.limit {
                Some(most) => out.len() < most,
                None => true,
            };
            if wanted && room {
                out.push(item);
            }
        }
        proof {
            assert(due@.take(due@.len() as int) =~= due@);
        }
        out
    }
}

} // verus!
