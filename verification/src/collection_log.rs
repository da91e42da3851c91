//! The collection log: the reference schema of pages and items, and what a member submits.

use crate::text::same_text;
use vstd::prelude::*;

verus! {

/// One page of the reference schema: its name and the items that belong to it.
#[derive(Debug, Clone, PartialEq, Eq)]
pub struct CollectionLogPage {
    pub name: String,
    pub items: Vec<i32>,
}

/// The reference schema: every valid page, each with its valid items.
#[derive(Debug, Clone, PartialEq, Eq)]
pub struct CollectionLogInfo {
    pub pages: Vec<CollectionLogPage>,
}

/// What a member submits for one page: the page's name and the items acquired on it.
#[derive(Debug, Clone, PartialEq, Eq)]
pub struct CollectionLog {
    pub page_name: String,
    pub items: Vec<i32>,
}

impl CollectionLogPage {
    /// Whether `item` belongs to this page.
    pub open spec fn lists(&self, item: i32) -> bool {
        self.items@.contains(item)
    }

    /// Whether `item` belongs to this page.
    pub fn has_item(&self, item: i32) -> (r: bool)
        ensures
            r == self.lists(item),
    {
        let mut i: usize = 0;
        while i < self.items.len()
            invariant
                i <= self.items@.len(),
                forall|j: int| 0 <= j < i ==> self.items@[j] != item,
            decreases self.items@.len() - i,
        {
            if self.items[i] == item {
                return true;
            }
            i += 1;
        }
        false
    }
}

impl CollectionLogInfo {
    /// Whether the schema lists a page named `page`.
    pub open spec fn knows_page(&self, page: Seq<char>) -> bool {
        exists|i: int| 0 <= i < self.pages@.len() && (#[trigger] self.pages@[i]).name@ == page
    }

    /// Whether the schema lists `item` for a page named `page`.
    pub open spec fn knows_item(&self, page: Seq<char>, item: i32) -> bool {
        exists|i: int|
            0 <= i < self.pages@.len() && (#[trigger] self.pages@[i]).name@ == page
                && self.pages@[i].lists(item)
    }

    /// Whether the schema lists a page named `page`.
    pub fn has_page(&self, page: &str) -> (r: bool)
        ensures
            r == self.knows_page(page@),
    {
        let mut i: usize = 0;
        while i < self.pages.len()
            invariant
                i <= self.pages@.len(),
                forall|j: int| 0 <= j < i ==> (#[trigger] self.pages@[j]).name@ != page@,
            decreases self.pages@.len() - i,
        {
            if same_text(self.pages[i].name.as_str(), page) {
                return true;
            }
            i += 1;
        }
        false
    }

    /// Whether the schema lists `item` for a page named `page`.
    pub fn has_item(&self, page: &str, item: i32) -> (r: bool)
        ensures
            r == self.knows_item(page@, item),
    {
        let mut i: usize = 0;
        while i < self.pages.len()
            invariant
                i <= self.pages@.len(),
                forall|j: int|
                    0 <= j < i ==> !((#[trigger] self.pages@[j]).name@ == page@
                        && self.pages@[j].lists(item)),
            decreases self.pages@.len() - i,
        {
            if same_text(self.pages[i].name.as_str(), page) && self.pages[i].has_item(item) {
                return true;
            }
            i += 1;
        }
        false
    }
}

impl CollectionLog {
    /// Whether the schema lists this entry's page and every one of its items.
    pub open spec fn known_to(&self, info: &CollectionLogInfo) -> bool {
        &&& info.knows_page(self.page_name@)
        &&& forall|k: int|
            0 <= k < self.items@.len() ==> info.knows_item(self.page_name@, #[trigger] self.items@[k])
    }
}

} // verus!
