//! The usage page in effect: one per nesting depth of collections.

use crate::hid::descriptor::{HidGlobalTag, HidItem, HidItemView, HidMainTag};
use std::collections::HashMap;
use vstd::prelude::*;

verus! {

/// The nesting depth reached in a descriptor and the usage page that
/// was set at each depth.
///
/// The depth starts at zero, a collection raises it and the end of a
/// collection lowers it, also below zero where nothing is open.
pub struct UsageContext {
    pub depth: int,
    pub pages: Map<int, u32>,
}

impl UsageContext {
    /// Depth zero, no usage page set.
    pub open spec fn initial() -> UsageContext {
        UsageContext { depth: 0, pages: Map::empty() }
    }

    /// The usage page set at the current depth, if any.
    pub open spec fn usage_page(self) -> Option<u32> {
        if self.pages.contains_key(self.depth) {
            Some(self.pages[self.depth])
        } else {
            None
        }
    }

    /// The context with `page` set at the current depth.
    pub open spec fn with_page(self, page: u32) -> UsageContext {
        UsageContext { depth: self.depth, pages: self.pages.insert(self.depth, page) }
    }

    /// The context one level up: a collection was opened.
    pub open spec fn entered(self) -> UsageContext {
        UsageContext { depth: self.depth + 1, pages: self.pages }
    }

    /// The context one level down: the page of the level that is left
    /// is forgotten.
    pub open spec fn left(self) -> UsageContext {
        UsageContext { depth: self.depth - 1, pages: self.pages.remove(self.depth) }
    }

    /// The context after `item`: a usage page item sets the page of the
    /// current depth; then the end of a collection forgets that page and
    /// lowers the depth, and a collection raises it.
    pub open spec fn after(self, item: HidItemView) -> UsageContext {
        let paged = match item.global_tag {
            Some(HidGlobalTag::UsagePage(page)) => self.with_page(page),
            _ => self,
        };
        match item.main_tag {
            Some(HidMainTag::EndCollection) => paged.left(),
            Some(HidMainTag::Collection(_)) => paged.entered(),
            _ => paged,
        }
    }

    /// The context after all of `items`, in their order.
    pub open spec fn after_all(self, items: Seq<HidItemView>) -> UsageContext
        decreases items.len(),
    {
        if items.len() == 0 {
            self
        } else {
            self.after(items[0]).after_all(items.drop_first())
        }
    }

    /// Whether no usage page is set at any depth above `depth`.
    pub open spec fn has_no_page_above(self, depth: int) -> bool {
        forall|k: int| k > depth ==> !self.pages.contains_key(k)
    }
}

/// Whether `item` sets the usage page of the depth at which it stands.
pub open spec fn sets_page(item: HidItemView) -> bool {
    item.global_tag matches Some(HidGlobalTag::UsagePage(_))
}

/// Whether `item` opens a collection.
pub open spec fn opens_collection(item: HidItemView) -> bool {
    item.main_tag matches Some(HidMainTag::Collection(_))
}

/// Whether `item` ends a collection.
pub open spec fn ends_collection(item: HidItemView) -> bool {
    item.main_tag == Some(HidMainTag::EndCollection)
}

/// Follows the items of a descriptor and knows the usage page in effect.
pub struct UsageTracker {
    depth: i128,
    pages: HashMap<i128, u32>,
}

impl View for UsageTracker {
    type V = UsageContext;

    closed spec fn view(&self) -> UsageContext {
        UsageContext {
            depth: self.depth as int,
            pages: Map::new(
                |k: int| i128::MIN <= k <= i128::MAX && self.pages@.contains_key(k as i128),
                |k: int| self.pages@[k as i128],
            ),
        }
    }
}

impl UsageTracker {
    /// The largest depth, up or down, from which a tracker can still move.
    pub open spec fn depth_limit() -> int {
        0x7FFF_FFFF_FFFF_FFFF_FFFF_FFFF_FFFF_FFFF
    }

    /// A tracker at the start of a descriptor.
    pub fn new() -> (tracker: Self)
        ensures
            tracker@ == UsageContext::initial(),
    {
        let tracker = UsageTracker { depth: 0, pages: HashMap::new() };
        assert(tracker@.pages =~= Map::<int, u32>::empty());
        tracker
    }

    /// The usage page in effect for the next item.
    pub fn current_usage_page(&self) -> (page: Option<u32>)
        ensures
            page == self@.usage_page(),
    {
        broadcast use vstd::std_specs::hash::group_hash_axioms;

        match self.pages.get(&self.depth) {
            Some(page) => Some(*page),
            None => None,
        }
    }

    /// Moves the tracker past `item`.
    pub fn update(&mut self, item: &HidItem)
        requires
            -Self::depth_limit() < old(self)@.depth < Self::depth_limit(),
        ensures
            final(self)@ == old(self)@.after(item@),
    {
        broadcast use vstd::std_specs::hash::group_hash_axioms;

        let ghost start = self@;
        if let Some(HidGlobalTag::UsagePage(page)) = item.global_tag {
            self.pages.insert(self.depth, page);
            assert(self@.pages =~= start.with_page(page).pages);
        }
        let ghost paged = self@;
        match item.main_tag {
            Some(HidMainTag::EndCollection) => {
                self.pages.remove(&self.depth);
                self.depth = self.depth - 1;
                assert(self@.pages =~= paged.left().pages);
            },
            Some(HidMainTag::Collection(_)) => {
                self.depth = self.depth + 1;
            },
            _ => {},
        }
    }
}

} // verus!
