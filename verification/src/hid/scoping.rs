//! How far a usage page reaches: what holds of the usage context along
//! any sequence of items.

use crate::hid::context::{ends_collection, opens_collection, sets_page, UsageContext};
use crate::hid::descriptor::HidItemView;
use vstd::prelude::*;

verus! {

/// Following two sequences of items one after the other is following
/// their concatenation.
pub proof fn lemma_after_all_concat(
    context: UsageContext,
    first: Seq<HidItemView>,
    second: Seq<HidItemView>,
)
    ensures
        context.after_all(first + second) == context.after_all(first).after_all(second),
    decreases first.len(),
{
    if first.len() == 0 {
        assert(first + second =~= second);
    } else {
        lemma_after_all_concat(context.after(first[0]), first.drop_first(), second);
        assert((first + second).drop_first() =~= first.drop_first() + second);
    }
}

/// The context reached after the first `j + 1` items is the context
/// that the rest of them reaches from the context after the first item.
pub proof fn lemma_after_all_step(context: UsageContext, items: Seq<HidItemView>, j: int)
    requires
        0 <= j < items.len(),
    ensures
        context.after_all(items.take(j + 1)) == context.after(items[0]).after_all(
            items.drop_first().take(j),
        ),
{
    assert(items.take(j + 1).drop_first() =~= items.drop_first().take(j));
}

/// An item changes the depth by one at most.
pub proof fn lemma_depth_step(context: UsageContext, item: HidItemView)
    ensures
        context.depth - 1 <= context.after(item).depth <= context.depth + 1,
        context.after(item).depth == context.depth + 1 ==> opens_collection(item),
        context.after(item).depth == context.depth - 1 <==> ends_collection(item),
{
}

/// What is set at `depth` stays as it is along `items`, as long as no
/// item that stands at that depth sets a usage page or ends a collection.
pub proof fn lemma_entry_kept(context: UsageContext, depth: int, items: Seq<HidItemView>)
    requires
        forall|j: int|
            0 <= j < items.len() && #[trigger] context.after_all(items.take(j)).depth == depth
                ==> !sets_page(items[j]) && !ends_collection(items[j]),
    ensures
        context.after_all(items).pages.contains_key(depth) == context.pages.contains_key(depth),
        context.pages.contains_key(depth) ==> context.after_all(items).pages[depth]
            == context.pages[depth],
    decreases items.len(),
{
    if items.len() > 0 {
        let next = context.after(items[0]);
        let rest = items.drop_first();
        assert(context.after_all(items.take(0)) == context);
        assert forall|j: int|
            0 <= j < rest.len() && #[trigger] next.after_all(rest.take(j)).depth
                == depth implies !sets_page(rest[j]) && !ends_collection(rest[j]) by {
            lemma_after_all_step(context, items, j);
        }
        lemma_entry_kept(next, depth, rest);
    }
}

/// Where no usage page is set above `floor` and no item sets one, none
/// is set above `floor` afterwards.
pub proof fn lemma_no_page_appears(context: UsageContext, floor: int, items: Seq<HidItemView>)
    requires
        context.has_no_page_above(floor),
        forall|j: int| 0 <= j < items.len() ==> !sets_page(#[trigger] items[j]),
    ensures
        context.after_all(items).has_no_page_above(floor),
    decreases items.len(),
{
    if items.len() > 0 {
        let rest = items.drop_first();
        assert forall|j: int| 0 <= j < rest.len() implies !sets_page(#[trigger] rest[j]) by {
            assert(rest[j] == items[j + 1]);
        }
        lemma_no_page_appears(context.after(items[0]), floor, rest);
    }
}

/// No usage page is ever set above the depth that was reached: the end
/// of a collection forgets the page of the depth that it leaves.
pub proof fn lemma_no_page_above_depth(context: UsageContext, items: Seq<HidItemView>)
    requires
        context.has_no_page_above(context.depth),
    ensures
        context.after_all(items).has_no_page_above(context.after_all(items).depth),
    decreases items.len(),
{
    if items.len() > 0 {
        lemma_no_page_above_depth(context.after(items[0]), items.drop_first());
    }
}

/// A usage page that is set at one depth is the page in effect at that
/// depth afterwards, until another page is set there or the end of a
/// collection closes that depth.
pub proof fn lemma_page_stays_in_effect(
    context: UsageContext,
    page: u32,
    items: Seq<HidItemView>,
)
    requires
        forall|j: int|
            0 <= j < items.len() && #[trigger] context.with_page(page).after_all(
                items.take(j),
            ).depth == context.depth ==> !sets_page(items[j]) && !ends_collection(items[j]),
        context.with_page(page).after_all(items).depth == context.depth,
    ensures
        context.with_page(page).after_all(items).usage_page() == Some(page),
{
    lemma_entry_kept(context.with_page(page), context.depth, items);
}

} // verus!
