//! The recently-viewed list: a short ordered list of items, newest
//! first, with one entry per identifier.

use vstd::prelude::*;

verus! {

/// One recently viewed item.
#[derive(Debug, PartialEq, Eq)]
pub struct RecentItem {
    pub id: String,
    pub name: String,
}

impl Clone for RecentItem {
    fn clone(&self) -> (r: Self)
        ensures
            r == *self,
    {
        RecentItem { id: self.id.clone(), name: self.name.clone() }
    }
}

/// The recently-viewed list.
#[derive(Debug, PartialEq, Eq)]
pub struct Recents {
    items: Vec<RecentItem>,
}

impl View for Recents {
    type V = Seq<RecentItem>;

    closed spec fn view(&self) -> Seq<RecentItem> {
        self.items@
    }
}

/// What adding an item leaves behind: the item in front, every other
/// entry with its identifier dropped, and the list cut to ten entries
/// when it has grown past that.
pub open spec fn recents_after_add(items: Seq<RecentItem>, item: RecentItem) -> Seq<RecentItem> {
    let l = seq![item] + items.filter(|x: RecentItem| x.id@ != item.id@);
    if l.len() > 10 {
        l.take(10)
    } else {
        l
    }
}

impl Default for Recents {
    fn default() -> (r: Self)
        ensures
            r@ == Seq::<RecentItem>::empty(),
    {
        Recents { items: Vec::new() }
    }
}

impl Clone for Recents {
    fn clone(&self) -> (r: Self)
        ensures
            r@ == self@,
    {
        let items = self.items.clone();
        proof {
            assert forall|i: int| 0 <= i < self.items@.len() implies items@[i]
                == self.items@[i] by {
                assert(vstd::pervasive::cloned::<RecentItem>(self.items@[i], items@[i]));
            }
            assert(items@ =~= self.items@);
        }
        Recents { items }
    }
}

impl Recents {
    /// Wraps an already-ordered list of items, as read back from
    /// storage.
    pub fn from_items(items: Vec<RecentItem>) -> (r: Self)
        ensures
            r@ == items@,
    {
        Recents { items }
    }

    /// The items, newest first.
    pub fn items(&self) -> (r: &Vec<RecentItem>)
        ensures
            r@ == self@,
    {
        &self.items
    }

    /// Puts the item in front, dropping any entry that carried the
    /// same identifier, and cuts the list to ten entries when it has
    /// grown past that.
    #[verifier::loop_isolation(false)]
    pub fn add_item(&mut self, item: RecentItem)
        ensures
            final(self)@ == recents_after_add(old(self)@, item),
    {
        let ghost item0 = item;
        let ghost pred = |x: RecentItem| x.id@ != item0.id@;
        let id = item.id.clone();
        let mut result: Vec<RecentItem> = Vec::new();
        result.push(item);
        let mut i: usize = 0;
        proof {
            reveal(Seq::filter);
            assert(self.items@.take(0).filter(pred) =~= Seq::<RecentItem>::empty());
            assert(result@ =~= seq![item0] + self.items@.take(0).filter(pred));
        }
        while i < self.items.len()
            invariant
                i <= self.items@.len(),
                id@ == item0.id@,
                result@ == seq![item0] + self.items@.take(i as int).filter(pred),
            decreases self.items@.len() - i,
        {
            let ghost prefix = self.items@.take(i as int + 1);
            proof {
                assert(prefix.drop_last() =~= self.items@.take(i as int));
                assert(prefix.last() == self.items@[i as int]);
            }
            if !(self.items[i].id == id) {
                result.push(self.items[i].clone());
                proof {
                    reveal(Seq::filter);
                    assert(vstd::pervasive::cloned::<RecentItem>(
                        self.items@[i as int],
                        result@.last(),
                    ));
                    assert(pred(prefix.last()));
                    assert(prefix.filter(pred) =~= prefix.drop_last().filter(pred).push(
                        prefix.last(),
                    ));
                    assert(result@ =~= seq![item0] + prefix.filter(pred));
                }
            } else {
                proof {
                    reveal(Seq::filter);
                    assert(!pred(prefix.last()));
                    assert(prefix.filter(pred) =~= prefix.drop_last().filter(pred));
                    assert(result@ =~= seq![item0] + prefix.filter(pred));
                }
            }
            i = i + 1;
        }
        proof {
            assert(self.items@.take(self.items@.len() as int) =~= self.items@);
        }
        if result.len() > 5 {
            result.truncate(10);
        }
        self.items = result;
    }
}

} // verus!
