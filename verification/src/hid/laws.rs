//! What holds of every decoded descriptor.

use crate::hid::context::{ends_collection, opens_collection, sets_page, UsageContext};
use crate::hid::descriptor::{
    decode, decode_from, is_decoding_of, is_well_formed, item_of, item_type_of, payload_size,
    raw_bytes, DecodeError, HidGlobalTag, HidItemView, Report,
};
use crate::hid::scoping::{
    lemma_after_all_concat, lemma_entry_kept, lemma_no_page_above_depth, lemma_no_page_appears,
};
use vstd::prelude::*;

verus! {

/// A prefix announces a payload of 0, 1, 2 or 4 bytes and no other.
pub proof fn lemma_payload_size_values(prefix: u8)
    ensures
        payload_size(prefix) == 0 || payload_size(prefix) == 1 || payload_size(prefix) == 2
            || payload_size(prefix) == 4,
{
}

/// The size of a payload depends on the two low bits of the prefix alone.
pub proof fn lemma_payload_size_low_bits(a: u8, b: u8)
    requires
        a & 0x03 == b & 0x03,
    ensures
        payload_size(a) == payload_size(b),
{
}

/// An item that can be classified carries the tag of its class and no
/// other, and an item of unknown class carries none.
pub proof fn lemma_tag_matches_class(usage_page: Option<u32>, prefix: u8, data: Seq<u8>)
    ensures
        ({
            let item = item_of(usage_page, prefix, data);
            &&& item.main_tag is Some <==> item.item_type is Main
            &&& item.global_tag is Some <==> item.item_type is Global
            &&& item.local_tag is Some <==> item.item_type is Local
            &&& item.item_type == item_type_of(prefix)
            &&& item.size_bytes == payload_size(prefix)
        }),
{
}

/// The raw bytes of the decoded items, one after the other, are the
/// bytes that were decoded from `cursor` on.
pub proof fn lemma_raw_bytes_from(bytes: Seq<u8>, cursor: int, context: UsageContext)
    requires
        0 <= cursor <= bytes.len(),
        decode_from(bytes, cursor, context) is Ok,
    ensures
        raw_bytes(decode_from(bytes, cursor, context)->Ok_0) == bytes.subrange(
            cursor,
            bytes.len() as int,
        ),
    decreases bytes.len() - cursor,
{
    if cursor < bytes.len() {
        let items = decode_from(bytes, cursor, context)->Ok_0;
        let end = cursor + 1 + payload_size(bytes[cursor]);
        let item = item_of(context.usage_page(), bytes[cursor], bytes.subrange(cursor + 1, end));
        let rest = decode_from(bytes, end, context.after(item))->Ok_0;
        lemma_raw_bytes_from(bytes, end, context.after(item));
        assert(items.drop_first() =~= rest);
    }
}

/// Framing round trip: where a descriptor decodes, the raw bytes of its
/// items, one after the other, are the descriptor.
pub proof fn lemma_round_trip(bytes: Seq<u8>)
    requires
        decode(bytes) is Ok,
    ensures
        raw_bytes(decode(bytes)->Ok_0) == bytes,
{
    lemma_raw_bytes_from(bytes, 0, UsageContext::initial());
}

/// Every decoded item is what its own raw bytes encode.
pub proof fn lemma_items_well_formed_from(
    bytes: Seq<u8>,
    cursor: int,
    context: UsageContext,
    i: int,
)
    requires
        0 <= cursor <= bytes.len(),
        decode_from(bytes, cursor, context) is Ok,
        0 <= i < decode_from(bytes, cursor, context)->Ok_0.len(),
    ensures
        is_well_formed(decode_from(bytes, cursor, context)->Ok_0[i]),
    decreases bytes.len() - cursor,
{
    let end = cursor + 1 + payload_size(bytes[cursor]);
    let data = bytes.subrange(cursor + 1, end);
    let item = item_of(context.usage_page(), bytes[cursor], data);
    if i == 0 {
        assert(item.bytes.skip(1) =~= data);
    } else {
        lemma_items_well_formed_from(bytes, end, context.after(item), i - 1);
    }
}

/// Every item of a decoded descriptor is what its own raw bytes encode:
/// one prefix byte, then exactly the payload that the prefix announces.
pub proof fn lemma_items_well_formed(bytes: Seq<u8>, i: int)
    requires
        decode(bytes) is Ok,
        0 <= i < decode(bytes)->Ok_0.len(),
    ensures
        is_well_formed(decode(bytes)->Ok_0[i]),
{
    lemma_items_well_formed_from(bytes, 0, UsageContext::initial(), i);
}

/// Decoding is repeatable: two decodings of one buffer agree, in their
/// items or in their error.
pub proof fn lemma_decoding_is_repeatable(
    bytes: Seq<u8>,
    first: Result<Report, DecodeError>,
    second: Result<Report, DecodeError>,
)
    requires
        is_decoding_of(first, bytes),
        is_decoding_of(second, bytes),
    ensures
        first is Ok <==> second is Ok,
        first is Ok ==> first->Ok_0@ == second->Ok_0@,
        first is Err ==> first->Err_0 == second->Err_0,
{
}

/// The usage context in which the item at `i` was decoded: the context
/// that the items before it reach from the start of the descriptor.
pub open spec fn context_before(items: Seq<HidItemView>, i: int) -> UsageContext {
    UsageContext::initial().after_all(items.take(i))
}

/// The nesting depth at which the item at `i` stands.
pub open spec fn depth_before(items: Seq<HidItemView>, i: int) -> int {
    context_before(items, i).depth
}

/// Whether the collection that the item at `opened_at` opens is ended
/// by the item at `closed_at`: in between the depth stays above that of
/// the opening item, and the closing item brings it back there.
pub open spec fn is_collection_span(
    items: Seq<HidItemView>,
    opened_at: int,
    closed_at: int,
) -> bool {
    &&& 0 <= opened_at < closed_at < items.len()
    &&& opens_collection(items[opened_at])
    &&& ends_collection(items[closed_at])
    &&& forall|j: int|
        opened_at < j <= closed_at ==> #[trigger] depth_before(items, j) > depth_before(
            items,
            opened_at,
        )
    &&& depth_before(items, closed_at + 1) == depth_before(items, opened_at)
}

/// The context before a later item is reached from the context before
/// an earlier one by the items in between.
pub proof fn lemma_context_between(items: Seq<HidItemView>, from: int, to: int)
    requires
        0 <= from <= to <= items.len(),
    ensures
        context_before(items, to) == context_before(items, from).after_all(
            items.subrange(from, to),
        ),
{
    lemma_after_all_concat(UsageContext::initial(), items.take(from), items.subrange(from, to));
    assert(items.take(to) =~= items.take(from) + items.subrange(from, to));
}

/// Each item that is decoded from `cursor` on records the usage page of
/// the context that the items before it reach from `context`.
pub proof fn lemma_decoded_pages_from(bytes: Seq<u8>, cursor: int, context: UsageContext, i: int)
    requires
        0 <= cursor <= bytes.len(),
        decode_from(bytes, cursor, context) is Ok,
        0 <= i < decode_from(bytes, cursor, context)->Ok_0.len(),
    ensures
        decode_from(bytes, cursor, context)->Ok_0[i].usage_page == context.after_all(
            decode_from(bytes, cursor, context)->Ok_0.take(i),
        ).usage_page(),
    decreases bytes.len() - cursor,
{
    if i > 0 {
        let items = decode_from(bytes, cursor, context)->Ok_0;
        let end = cursor + 1 + payload_size(bytes[cursor]);
        let item = item_of(context.usage_page(), bytes[cursor], bytes.subrange(cursor + 1, end));
        let rest = decode_from(bytes, end, context.after(item))->Ok_0;
        lemma_decoded_pages_from(bytes, end, context.after(item), i - 1);
        assert(items.take(i).drop_first() =~= rest.take(i - 1));
    }
}

/// Each item of a decoded descriptor records the usage page that was in
/// effect where it stands: the page set last at its depth, or none where
/// none was set since that depth was entered.
pub proof fn lemma_decoded_pages(bytes: Seq<u8>, i: int)
    requires
        decode(bytes) is Ok,
        0 <= i < decode(bytes)->Ok_0.len(),
    ensures
        decode(bytes)->Ok_0[i].usage_page == context_before(decode(bytes)->Ok_0, i).usage_page(),
{
    lemma_decoded_pages_from(bytes, 0, UsageContext::initial(), i);
}

/// A usage page item at one depth gives its page to every later item at
/// that depth, until another usage page item stands at that depth or
/// the end of a collection closes it.
pub proof fn lemma_usage_page_in_effect(bytes: Seq<u8>, set_at: int, used_at: int, page: u32)
    requires
        decode(bytes) is Ok,
        0 <= set_at < used_at < decode(bytes)->Ok_0.len(),
        decode(bytes)->Ok_0[set_at].global_tag == Some(HidGlobalTag::UsagePage(page)),
        depth_before(decode(bytes)->Ok_0, used_at) == depth_before(decode(bytes)->Ok_0, set_at),
        forall|j: int|
            set_at < j < used_at && #[trigger] depth_before(decode(bytes)->Ok_0, j)
                == depth_before(decode(bytes)->Ok_0, set_at) ==> !sets_page(
                decode(bytes)->Ok_0[j],
            ) && !ends_collection(decode(bytes)->Ok_0[j]),
    ensures
        decode(bytes)->Ok_0[used_at].usage_page == Some(page),
{
    let items = decode(bytes)->Ok_0;
    let setter = items[set_at];
    let start = context_before(items, set_at);
    let set = context_before(items, set_at + 1);
    let between = items.subrange(set_at + 1, used_at);
    lemma_items_well_formed(bytes, set_at);
    lemma_context_between(items, set_at, set_at + 1);
    assert(items.subrange(set_at, set_at + 1) =~= seq![setter]);
    assert(start.after_all(seq![setter]) == start.after(setter).after_all(
        seq![setter].drop_first(),
    ));
    lemma_context_between(items, set_at + 1, used_at);
    assert forall|j: int|
        0 <= j < between.len() && #[trigger] set.after_all(between.take(j)).depth
            == set.depth implies !sets_page(between[j]) && !ends_collection(between[j]) by {
        lemma_context_between(items, set_at + 1, set_at + 1 + j);
        assert(items.subrange(set_at + 1, set_at + 1 + j) =~= between.take(j));
        assert(depth_before(items, set_at + 1 + j) == depth_before(items, set_at));
    }
    lemma_entry_kept(set, set.depth, between);
    lemma_decoded_pages(bytes, used_at);
}

/// The end of a collection brings back the usage page that was in
/// effect where the collection was opened, whatever was set inside.
pub proof fn lemma_collection_restores_page(bytes: Seq<u8>, opened_at: int, closed_at: int)
    requires
        decode(bytes) is Ok,
        is_collection_span(decode(bytes)->Ok_0, opened_at, closed_at),
    ensures
        context_before(decode(bytes)->Ok_0, closed_at + 1).usage_page()
            == decode(bytes)->Ok_0[opened_at].usage_page,
{
    let items = decode(bytes)->Ok_0;
    let start = context_before(items, opened_at);
    let depth = start.depth;
    let inside = items.subrange(opened_at, closed_at + 1);
    lemma_items_well_formed(bytes, opened_at);
    lemma_decoded_pages(bytes, opened_at);
    lemma_context_between(items, opened_at, closed_at + 1);
    assert forall|j: int|
        0 <= j < inside.len() && #[trigger] start.after_all(inside.take(j)).depth
            == depth implies !sets_page(inside[j]) && !ends_collection(inside[j]) by {
        lemma_context_between(items, opened_at, opened_at + j);
        assert(items.subrange(opened_at, opened_at + j) =~= inside.take(j));
        if j > 0 {
            assert(depth_before(items, opened_at + j) > depth);
        }
    }
    lemma_entry_kept(start, depth, inside);
}

/// No usage page is in effect inside a collection until one is set
/// there: between the item that opens a collection and the item that
/// ends it, where no usage page item stands in between, every item
/// records no usage page.
pub proof fn lemma_no_page_inside_collection(
    bytes: Seq<u8>,
    opened_at: int,
    closed_at: int,
    used_at: int,
)
    requires
        decode(bytes) is Ok,
        is_collection_span(decode(bytes)->Ok_0, opened_at, closed_at),
        forall|j: int| opened_at < j < closed_at ==> !sets_page(#[trigger] decode(bytes)->Ok_0[j]),
        opened_at < used_at <= closed_at,
    ensures
        decode(bytes)->Ok_0[used_at].usage_page is None,
{
    let items = decode(bytes)->Ok_0;
    let start = context_before(items, opened_at);
    let depth = start.depth;
    let inside = items.subrange(opened_at, used_at);
    lemma_items_well_formed(bytes, opened_at);
    lemma_no_page_above_depth(UsageContext::initial(), items.take(opened_at));
    assert forall|j: int| 0 <= j < inside.len() implies !sets_page(#[trigger] inside[j]) by {
        assert(inside[j] == items[opened_at + j]);
    }
    lemma_no_page_appears(start, depth, inside);
    lemma_context_between(items, opened_at, used_at);
    assert(depth_before(items, used_at) > depth);
    lemma_decoded_pages(bytes, used_at);
}

/// Inside a collection the usage page of the place where it was opened
/// goes on, where that place had none: between the item that opens a
/// collection and the item that ends it, where no usage page item
/// stands in between, every item records what the opening item records.
pub proof fn lemma_page_inherited_in_collection(
    bytes: Seq<u8>,
    opened_at: int,
    closed_at: int,
    used_at: int,
)
    requires
        decode(bytes) is Ok,
        is_collection_span(decode(bytes)->Ok_0, opened_at, closed_at),
        forall|j: int| opened_at < j < closed_at ==> !sets_page(#[trigger] decode(bytes)->Ok_0[j]),
        opened_at < used_at <= closed_at,
        decode(bytes)->Ok_0[opened_at].usage_page is None,
    ensures
        decode(bytes)->Ok_0[used_at].usage_page == decode(bytes)->Ok_0[opened_at].usage_page,
{
    lemma_no_page_inside_collection(bytes, opened_at, closed_at, used_at);
}

} // verus!
