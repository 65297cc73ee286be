//! Pulling the items that are due, for a table.

use crate::date::Date;
use crate::tag::{has_name, named};
use vstd::prelude::*;

verus! {

/// A due item as it is listed: with the name of its tag.
#[derive(Debug, PartialEq, Eq)]
pub struct Pulled {
    pub id: u64,
    pub text: String,
    pub next: Date,
    pub tag: Option<String>,
}

/// The tag as a table shows it: its name, or a dash where there is none.
pub fn display_tag(tag_opt: &Option<String>) -> (shown: String)
    ensures
        shown@ == match tag_opt {
            Some(tag) => tag@,
            None => seq!['-'],
        },
{
    match tag_opt {
        Some(tag) => tag.clone(),
        None => {
            proof {
                reveal_strlit("-");
            }
            let dash = String::from_str("-");
            assert(dash@ =~= seq!['-']);
            dash
        },
    }
}

/// The request to pull due items.
#[derive(Debug)]
pub struct Command {
    /// Only get up to this many items.
    pub limit: Option<usize>,
    /// Only get items with these tags.
    pub tag: Vec<String>,
}

/// The first `limit` of `items`, or all of them where there is no limit or
/// there are no more.
pub open spec fn limited<T>(items: Seq<T>, limit: Option<usize>) -> Seq<T> {
    match limit {
        Some(most) => if most < items.len() {
            items.take(most as int)
        } else {
            items
        },
        None => items,
    }
}

impl Command {
    /// Whether `item` is asked for: an item with a tag where its tag is one
    /// of those named, an item without a tag where no tag is named.
    pub open spec fn keeps(self, item: Pulled) -> bool {
        match item.tag {
            Some(name) => named(self.tag@, name@),
            None => self.tag@.len() == 0,
        }
    }

    /// What is pulled of the due items `due`: those asked for, in their
    /// order, up to the limit.
    pub open spec fn pulled(self, due: Seq<Pulled>) -> Seq<Pulled> {
        limited(due.filter(|item: Pulled| self.keeps(item)), self.limit)
    }

    /// Picks from the due items, which come soonest first, those that the
    /// request asks for, up to its limit.
    pub fn items(&self, due: Vec<Pulled>) -> (out: Vec<Pulled>)
        ensures
            out@ == self.pulled(due@),
    {
        let ghost keeps = |item: Pulled| self.keeps(item);
        let mut out: Vec<Pulled> = Vec::new();
        proof {
            assert(due@.take(0) =~= Seq::<Pulled>::empty());
            due@.take(0).lemma_filter_len(keeps);
        }
        for item in rest: due
            invariant
                rest.seq() == due@,
                keeps == |item: Pulled| self.keeps(item),
                out@ == limited(due@.take(rest.index() as int).filter(keeps), self.limit),
        {
            proof {
                let seen = due@.take(rest.index() as int);
                assert(due@.take(rest.index() + 1) =~= seen.push(item));
                seen.lemma_filter_push(item, keeps);
                assert(keeps(item) == self.keeps(item));
            }
            let wanted = match &item.tag {
                Some(name) => has_name(&self.tag, name),
                None => self.tag.len() == 0,
            };
            let room = match self.limit {
                Some(most) => out.len() < most,
                None => true,
            };
            if wanted && room {
                out.push(item);
            }
        }
        proof {
            assert(due@.take(due@.len() as int) =~= due@);
        }
        out
    }
}

} // verus!
