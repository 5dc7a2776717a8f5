//! The pagination driver's state: which page to fetch next, the records
//! accumulated so far, and identity-key deduplication across pages.
//!
//! Fetching itself is the caller's: it asks `next_fetch` for the page to
//! get, performs the fetch, and hands the page's records to `absorb_page`.
//! The run is over when `next_fetch` yields nothing — after a page that
//! contributed no new record, or once an optional page cap is passed. A
//! fetch error ends the run on the caller's side; this state then simply
//! goes unused, so the partial accumulation is discarded with it.

use vstd::prelude::*;

use crate::models::Listing;

verus! {

/// Some record of `s` carries the identity key `k`.
pub open spec fn has_key<T: Listing>(s: Seq<T>, k: Seq<char>) -> bool {
    exists|i: int| 0 <= i < s.len() && s[i].key() == k
}

/// No two records of `s` share an identity key.
pub open spec fn distinct_keys<T: Listing>(s: Seq<T>) -> bool {
    forall|i: int, j: int| 0 <= i < j < s.len() ==> s[i].key() != s[j].key()
}

/// One page merged into the accumulation: each record of `page` in turn
/// is appended exactly when its identity key is not yet present.
pub open spec fn merge_new<T: Listing>(acc: Seq<T>, page: Seq<T>) -> Seq<T>
    decreases page.len(),
{
    if page.len() == 0 {
        acc
    } else {
        let grown = if has_key(acc, page[0].key()) {
            acc
        } else {
            acc.push(page[0])
        };
        merge_new(grown, page.drop_first())
    }
}

/// A page whose every record's identity key is already accumulated
/// contributes nothing, whether or not the page itself was empty; through
/// `absorb_page`'s contract such a page therefore terminates the run.
pub proof fn lemma_duplicate_page_adds_nothing<T: Listing>(acc: Seq<T>, page: Seq<T>)
    requires
        forall|i: int| 0 <= i < page.len() ==> has_key(acc, (#[trigger] page[i]).key()),
    ensures
        merge_new(acc, page) == acc,
    decreases page.len(),
{
    if page.len() > 0 {
        assert(has_key(acc, page[0].key()));
        assert(forall|i: int|
            0 <= i < page.drop_first().len() ==> has_key(
                acc,
                (#[trigger] page.drop_first()[i]).key(),
            ));
        lemma_duplicate_page_adds_nothing(acc, page.drop_first());
    }
}

/// Merging never drops an accumulated record.
proof fn lemma_merge_new_extends<T: Listing>(acc: Seq<T>, page: Seq<T>)
    ensures
        merge_new(acc, page).len() >= acc.len(),
        forall|i: int|
            0 <= i < acc.len() ==> #[trigger] merge_new(acc, page)[i] == acc[i],
    decreases page.len(),
{
    if page.len() > 0 {
        let grown = if has_key(acc, page[0].key()) {
            acc
        } else {
            acc.push(page[0])
        };
        lemma_merge_new_extends(grown, page.drop_first());
    }
}

/// One location run's pagination state.
pub struct Pagination<T> {
    /// The records accumulated so far, in page order; pairwise distinct
    /// identity keys.
    pub records: Vec<T>,
    /// The page the next fetch would ask for.
    pub page: u32,
    /// An optional inclusive cap on the page number.
    pub max_page: Option<u32>,
    /// Whether the run has terminated.
    pub done: bool,
}

impl<T: Listing> Pagination<T> {
    /// Within one run's accumulated result set, no two records share an
    /// identity key.
    pub open spec fn wf(&self) -> bool {
        distinct_keys(self.records@)
    }

    /// The page to fetch next: none once the run is done or the next page
    /// would pass the cap.
    pub open spec fn next_fetch_spec(&self) -> Option<u32> {
        if self.done {
            None
        } else {
            match self.max_page {
                Some(m) => if self.page <= m {
                    Some(self.page)
                } else {
                    None
                },
                None => Some(self.page),
            }
        }
    }

    /// A fresh run: nothing accumulated, no dedup entries, starting at
    /// `start_page` with an optional page cap.
    pub fn new(start_page: u32, max_page: Option<u32>) -> (r: Self)
        ensures
            r.wf(),
            r.records@.len() == 0,
            r.page == start_page,
            r.max_page == max_page,
            !r.done,
    {
        Pagination { records: Vec::new(), page: start_page, max_page, done: false }
    }

    /// The page to fetch next, if the run goes on.
    pub fn next_fetch(&self) -> (r: Option<u32>)
        ensures
            r == self.next_fetch_spec(),
    {
        if self.done {
            None
        } else {
            match self.max_page {
                Some(m) => if self.page <= m {
                    Some(self.page)
                } else {
                    None
                },
                None => Some(self.page),
            }
        }
    }

    /// Folds one fetched page into the run: appends the records whose
    /// identity keys are new, terminates the run when the page
    /// contributed nothing, and otherwise steps to the next page (a run
    /// at the last representable page number terminates instead).
    pub fn absorb_page(&mut self, page: Vec<T>)
        requires
            old(self).wf(),
            old(self).next_fetch_spec() is Some,
        ensures
            final(self).wf(),
            final(self).records@ == merge_new(old(self).records@, page@),
            final(self).max_page == old(self).max_page,
            final(self).done == (merge_new(old(self).records@, page@).len()
                == old(self).records@.len() || old(self).page == u32::MAX),
            final(self).page == if merge_new(old(self).records@, page@).len()
                > old(self).records@.len() && old(self).page < u32::MAX {
                old(self).page + 1
            } else {
                old(self).page as int
            },
    {
        let ghost orig_acc = self.records@;
        let ghost orig_page = page@;
        let before = self.records.len();
        let mut page = page;
        while page.len() > 0
            invariant
                distinct_keys(self.records@),
                merge_new(orig_acc, orig_page) == merge_new(self.records@, page@),
                self.records@.len() >= orig_acc.len(),
                self.page == old(self).page,
                self.max_page == old(self).max_page,
                self.done == old(self).done,
                orig_acc == old(self).records@,
            decreases page@.len(),
        {
            let ghost page_pre = page@;
            let item = page.remove(0);
            proof {
                assert(page@ =~= page_pre.drop_first());
                assert(item == page_pre[0]);
            }
            let dup = vec_has_key(&self.records, item.id());
            if !dup {
                proof {
                    assert(forall|i: int|
                        0 <= i < self.records@.len() ==> self.records@.push(item)[i]
                            == self.records@[i]);
                }
                self.records.push(item);
            }
        }
        proof {
            assert(page@.len() == 0);
            assert(merge_new(self.records@, page@) == self.records@);
            lemma_merge_new_extends(orig_acc, orig_page);
        }
        if self.records.len() > before {
            if self.page < u32::MAX {
                self.page = self.page + 1;
            } else {
                self.done = true;
            }
        } else {
            self.done = true;
        }
    }
}

/// Whether some record of `v` carries the identity key `key`.
fn vec_has_key<T: Listing>(v: &Vec<T>, key: &String) -> (r: bool)
    ensures
        r == has_key(v@, key@),
{
    let mut i: usize = 0;
    while i < v.len()
        invariant
            i <= v@.len(),
            forall|k: int| 0 <= k < i ==> (#[trigger] v@[k]).key() != key@,
        decreases v@.len() - i,
    {
        if v[i].id().eq(key) {
            return true;
        }
        i = i + 1;
    }
    false
}

/// With a page cap set, no fetch beyond the cap is ever offered.
pub proof fn lemma_cap_bounds_fetch<T: Listing>(p: &Pagination<T>, m: u32)
    requires
        p.max_page == Some(m),
    ensures
        p.next_fetch_spec() matches Some(pg) ==> pg <= m,
{
}

} // verus!
