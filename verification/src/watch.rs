//! The per-subscription cache of live cluster objects. Each applied-object
//! notification replaces the entry with the same `namespace/name` key, and a
//! snapshot lists the cached items in key order.

use vstd::prelude::*;
use vstd::string::StringExecFns;

use crate::text::{chars_compare, chars_lt, chars_vec};
use crate::text::{lemma_chars_lt_transitive, lemma_chars_lt_trichotomy};
use crate::types::{same_item, ResourceItem};

verus! {

/// The key an item is filed under: `namespace`, a slash, `name`.
pub open spec fn item_key(item: ResourceItem) -> Seq<char> {
    item.namespace@ + "/"@ + item.name@
}

/// A monotonically updated snapshot of the objects one watch subscription
/// has seen, kept sorted by key with no duplicate keys. It is created when a
/// subscription starts and discarded when the subscription is cancelled.
pub struct WatchCache {
    items: Vec<ResourceItem>,
}

impl WatchCache {
    /// The cached items, in key order.
    pub closed spec fn entries(self) -> Seq<ResourceItem> {
        self.items@
    }

    /// Entries are strictly sorted by key: each key occurs at most once, and
    /// a snapshot comes out in code-point key order.
    pub closed spec fn wf(self) -> bool {
        forall|i: int, j: int|
            0 <= i < j < self.entries().len() ==> chars_lt(
                item_key(#[trigger] self.entries()[i]),
                item_key(#[trigger] self.entries()[j]),
            )
    }

    /// Ordering law: in a well-formed cache the entries — and so every
    /// snapshot — are strictly sorted by key, in code-point order.
    pub proof fn lemma_entries_sorted_by_key(self)
        requires
            self.wf(),
        ensures
            forall|i: int, j: int|
                0 <= i < j < self.entries().len() ==> chars_lt(
                    item_key(#[trigger] self.entries()[i]),
                    item_key(#[trigger] self.entries()[j]),
                ),
    {
    }

    /// An empty cache, as created when a subscription starts.
    pub fn new() -> (r: Self)
        ensures
            r.wf(),
            r.entries().len() == 0,
    {
        WatchCache { items: Vec::new() }
    }

    /// The characters of `item`'s key.
    fn key_chars(item: &ResourceItem) -> (r: Vec<char>)
        ensures
            r@ == item_key(*item),
    {
        let mut s: String = item.namespace.clone();
        s.append("/");
        s.append(item.name.as_str());
        chars_vec(s.as_str())
    }

    /// Files `item` under its key: replaces the entry with the same key if
    /// one exists, otherwise inserts at the position its key orders it to.
    /// Every entry under a different key is kept, and nothing but `item`
    /// ends up under `item`'s key.
    #[verifier::rlimit(80)]
    pub fn insert(&mut self, item: ResourceItem)
        requires
            old(self).wf(),
        ensures
            final(self).wf(),
            exists|p: int|
                0 <= p < final(self).entries().len() && #[trigger] final(self).entries()[p]
                    == item,
            forall|j: int|
                0 <= j < final(self).entries().len() && item_key(
                    #[trigger] final(self).entries()[j],
                ) == item_key(item) ==> final(self).entries()[j] == item,
            forall|i: int|
                0 <= i < old(self).entries().len() && item_key(#[trigger] old(self).entries()[i])
                    != item_key(item) ==> exists|j: int|
                    0 <= j < final(self).entries().len() && #[trigger] final(self).entries()[j]
                        == old(self).entries()[i],
            forall|j: int|
                0 <= j < final(self).entries().len() && item_key(
                    #[trigger] final(self).entries()[j],
                ) != item_key(item) ==> exists|i: int|
                    0 <= i < old(self).entries().len() && #[trigger] old(self).entries()[i]
                        == final(self).entries()[j],
    {
        let ghost prior = self.items@;
        let key = Self::key_chars(&item);
        let n: usize = self.items.len();
        let mut p: usize = 0;
        let mut found_equal: bool = false;
        let mut found_greater: bool = false;
        while p < n && !found_equal && !found_greater
            invariant
                n == prior.len(),
                self.items@ == prior,
                p <= n,
                key@ == item_key(item),
                forall|i: int|
                    0 <= i < p ==> chars_lt(item_key(#[trigger] prior[i]), item_key(item)),
                found_equal ==> p < n && item_key(prior[p as int]) == item_key(item),
                found_greater ==> p < n && chars_lt(item_key(item), item_key(prior[p as int])),
            decreases n - p + (if found_equal || found_greater {
                0int
            } else {
                1int
            }),
        {
            let entry_key = Self::key_chars(&self.items[p]);
            let o = chars_compare(&entry_key, &key);
            if o == 0 {
                found_equal = true;
            } else if o == 1 {
                found_greater = true;
            } else {
                p = p + 1;
            }
        }
        proof {
            lemma_chars_lt_trichotomy(item_key(item), item_key(item));
        }
        if found_equal {
            let ghost pos = p as int;
            self.items.remove(p);
            proof {
                assert(self.items@ == prior.remove(pos));
            }
            self.items.insert(p, item);
            proof {
                assert(self.items@ == prior.remove(pos).insert(pos, item));
                assert(self.items@ =~= prior.update(pos, item));
                assert forall|i: int, j: int|
                    0 <= i < j < self.items@.len() implies chars_lt(
                    item_key(self.items@[i]),
                    item_key(self.items@[j]),
                ) by {
                    assert(chars_lt(item_key(prior[i]), item_key(prior[j])));
                    if i == pos {
                        assert(item_key(self.items@[i]) == item_key(item) && item_key(item)
                            == item_key(prior[i]));
                    }
                    if j == pos {
                        assert(item_key(self.items@[j]) == item_key(item) && item_key(item)
                            == item_key(prior[j]));
                    }
                }
                assert(self.items@[pos] == item);
                assert(self.entries()[pos] == item);
                assert forall|j: int|
                    0 <= j < self.items@.len() && item_key(self.items@[j]) == item_key(item)
                        implies self.items@[j] == item by {
                    if j != pos {
                        if j < pos {
                            assert(chars_lt(item_key(prior[j]), item_key(prior[pos])));
                        } else {
                            assert(chars_lt(item_key(prior[pos]), item_key(prior[j])));
                        }
                        lemma_chars_lt_trichotomy(item_key(prior[j]), item_key(prior[pos]));
                        assert(false);
                    }
                }
                assert forall|i: int|
                    0 <= i < prior.len() && item_key(prior[i]) != item_key(item) implies exists|j: int|
                    0 <= j < self.items@.len() && #[trigger] self.items@[j] == prior[i] by {
                    assert(i != pos);
                    assert(self.items@[i] == prior[i]);
                }
            }
        } else {
            let ghost pos = p as int;
            proof {
                prior.insert_ensures(pos, item);
                assert forall|q: int| pos <= q < prior.len() implies chars_lt(
                    item_key(item),
                    item_key(#[trigger] prior[q]),
                ) by {
                    if p < n {
                        assert(chars_lt(item_key(item), item_key(prior[pos])));
                        if q > pos {
                            lemma_chars_lt_transitive(
                                item_key(item),
                                item_key(prior[pos]),
                                item_key(prior[q]),
                            );
                        }
                    }
                }
            }
            self.items.insert(p, item);
            proof {
                assert(self.items@ == prior.insert(pos, item));
                assert forall|i: int, j: int|
                    0 <= i < j < self.items@.len() implies chars_lt(
                    item_key(self.items@[i]),
                    item_key(self.items@[j]),
                ) by {
                    if j < pos {
                    } else if i < pos && j == pos {
                        assert(self.items@[i] == prior[i]);
                    } else if i < pos && j > pos {
                        assert(self.items@[i] == prior[i] && self.items@[j] == prior[j - 1]);
                    } else if i == pos {
                        assert(self.items@[j] == prior[j - 1]);
                    } else {
                        assert(self.items@[i] == prior[i - 1] && self.items@[j] == prior[j - 1]);
                    }
                }
                assert(self.items@[pos] == item);
                assert(self.entries()[pos] == item);
                assert forall|j: int|
                    0 <= j < self.items@.len() && item_key(self.items@[j]) == item_key(item)
                        implies self.items@[j] == item by {
                    if j != pos {
                        if j < pos {
                            assert(self.items@[j] == prior[j]);
                            assert(chars_lt(item_key(prior[j]), item_key(item)));
                            lemma_chars_lt_trichotomy(item_key(prior[j]), item_key(item));
                        } else {
                            assert(self.items@[j] == prior[j - 1]);
                            assert(chars_lt(item_key(item), item_key(prior[j - 1])));
                            lemma_chars_lt_trichotomy(item_key(item), item_key(prior[j - 1]));
                        }
                        assert(false);
                    }
                }
                assert forall|i: int| #![trigger prior[i]]
                    0 <= i < prior.len() implies exists|j: int|
                    0 <= j < self.items@.len() && #[trigger] self.items@[j] == prior[i] by {
                    if i < pos {
                        assert(self.items@[i] == prior[i]);
                    } else {
                        assert(self.items@[i + 1] == prior[i]);
                    }
                }
            }
        }
    }

    /// The cached items, cloned, in key order: the full ordered snapshot
    /// emitted after each applied-object notification.
    pub fn snapshot(&self) -> (r: Vec<ResourceItem>)
        ensures
            r@.len() == self.entries().len(),
            forall|i: int|
                0 <= i < r@.len() ==> same_item(#[trigger] r@[i], self.entries()[i]),
    {
        let mut r: Vec<ResourceItem> = Vec::new();
        let n: usize = self.items.len();
        let mut i: usize = 0;
        while i < n
            invariant
                n == self.items@.len(),
                i <= n,
                r@.len() == i,
                forall|k: int| 0 <= k < i ==> same_item(#[trigger] r@[k], self.items@[k]),
            decreases n - i,
        {
            r.push(self.items[i].clone());
            i = i + 1;
        }
        r
    }
}

} // verus!
