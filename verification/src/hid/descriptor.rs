//! The items of a report descriptor and the decoder that produces them.

use crate::hid::context::{UsageContext, UsageTracker};
use crate::hid::laws::{
    context_before, lemma_decoded_pages, lemma_items_well_formed, lemma_round_trip,
};
use vstd::prelude::*;

verus! {

/// Why a descriptor could not be decoded.
#[derive(Debug, Clone, Copy, PartialEq, Eq, Structural)]
pub enum DecodeError {
    /// The buffer ends before the payload that an item's prefix announces.
    TruncatedDescriptor,
    /// A main item carries a tag for which no meaning is defined.
    UnclassifiableTag,
}

/// The class of an item, from bits 2 and 3 of its prefix.
#[derive(Debug, Clone, Copy, PartialEq, Eq, Structural)]
pub enum HidItemType {
    Main,
    Global,
    Local,
    Unknown,
}

#[derive(Debug, Clone, Copy, PartialEq, Eq, Structural)]
pub enum ItemType {
    Data,
    Constant,
}

#[derive(Debug, Clone, Copy, PartialEq, Eq, Structural)]
pub enum DataType {
    Array,
    Variable,
}

#[derive(Debug, Clone, Copy, PartialEq, Eq, Structural)]
pub enum DataPoint {
    Absolute,
    Relative,
}

#[derive(Debug, Clone, Copy, PartialEq, Eq, Structural)]
pub enum Wrapping {
    NoWrap,
    Wrap,
}

#[derive(Debug, Clone, Copy, PartialEq, Eq, Structural)]
pub enum Linearity {
    Linear,
    Nonlinear,
}

#[derive(Debug, Clone, Copy, PartialEq, Eq, Structural)]
pub enum StatePreference {
    PreferredState,
    NoPreferredState,
}

#[derive(Debug, Clone, Copy, PartialEq, Eq, Structural)]
pub enum NullState {
    NoNullState,
    NullState,
}

#[derive(Debug, Clone, Copy, PartialEq, Eq, Structural)]
pub enum Volatility {
    NonVolatile,
    Volatile,
}

#[derive(Debug, Clone, Copy, PartialEq, Eq, Structural)]
pub enum FieldType {
    BitField,
    BufferedBytes,
}

#[derive(Debug, Clone, Copy, PartialEq, Eq, Structural)]
pub enum CollectionType {
    Physical,
    Application,
    Logical,
    Report,
    NamedArray,
    UsageSwitch,
    UsageModifier,
    Reserved,
}

/// The field flags of an input item.
#[derive(Debug, Clone, Copy, PartialEq, Eq, Structural)]
pub struct MainInputData {
    pub item_type: ItemType,
    pub data_type: DataType,
    pub data_point: DataPoint,
    pub wrapping: Wrapping,
    pub linearity: Linearity,
    pub state_preferrence: StatePreference,
    pub null_state: NullState,
    pub field_type: FieldType,
}

/// The field flags of an output or feature item.
#[derive(Debug, Clone, Copy, PartialEq, Eq, Structural)]
pub struct MainOutputData {
    pub item_type: ItemType,
    pub data_type: DataType,
    pub data_point: DataPoint,
    pub wrapping: Wrapping,
    pub linearity: Linearity,
    pub state_preferrence: StatePreference,
    pub null_state: NullState,
    pub volatility: Volatility,
    pub field_type: FieldType,
}

#[derive(Debug, Clone, Copy, PartialEq, Eq, Structural)]
pub enum HidMainTag {
    Input(MainInputData),
    Output(MainOutputData),
    Feature(MainOutputData),
    Collection(CollectionType),
    EndCollection,
    Reserved,
}

#[derive(Debug, Clone, Copy, PartialEq, Eq, Structural)]
pub enum HidGlobalTag {
    UsagePage(u32),
    LogicalMinimum(i32),
    LogicalMaximum(i32),
    PhysicalMinimum(i32),
    PhysicalMaximum(i32),
    UnitExponent(i32),
    Unit(i32),
    ReportSize(u32),
    ReportId(u32),
    ReportCount(u32),
    Push(i32),
    Pop(i32),
    Reserved(i32),
}

#[derive(Debug, Clone, Copy, PartialEq, Eq, Structural)]
pub enum HidLocalTag {
    Usage(u32),
    UsageMinimum(u32),
    UsageMaximum(u32),
    DesignatorIndex(u32),
    DesignatorMinimum(u32),
    DesignatorMaximum(u32),
    StringIndex(u32),
    StringMinimum(u32),
    StringMaximum(u32),
    Delimiter(u32),
    Reserved(u32),
}

/// One decoded item: its class, its tag with the decoded payload, the
/// usage page that was in effect where it stands, and its raw bytes.
#[derive(Debug)]
pub struct HidItem {
    pub item_type: HidItemType,
    pub size_bytes: u8,
    pub usage_page: Option<u32>,
    pub main_tag: Option<HidMainTag>,
    pub global_tag: Option<HidGlobalTag>,
    pub local_tag: Option<HidLocalTag>,
    pub bytes: Vec<u8>,
}

/// What an item holds, with its raw bytes as a sequence.
pub struct HidItemView {
    pub item_type: HidItemType,
    pub size_bytes: u8,
    pub usage_page: Option<u32>,
    pub main_tag: Option<HidMainTag>,
    pub global_tag: Option<HidGlobalTag>,
    pub local_tag: Option<HidLocalTag>,
    pub bytes: Seq<u8>,
}

impl View for HidItem {
    type V = HidItemView;

    open spec fn view(&self) -> HidItemView {
        HidItemView {
            item_type: self.item_type,
            size_bytes: self.size_bytes,
            usage_page: self.usage_page,
            main_tag: self.main_tag,
            global_tag: self.global_tag,
            local_tag: self.local_tag,
            bytes: self.bytes@,
        }
    }
}

/// The class that bits 2 and 3 of a prefix select.
pub open spec fn item_type_of(prefix: u8) -> HidItemType {
    let id = (prefix & 0x0C) >> 2;
    if id == 0 {
        HidItemType::Main
    } else if id == 1 {
        HidItemType::Global
    } else if id == 2 {
        HidItemType::Local
    } else {
        HidItemType::Unknown
    }
}

/// The number of payload bytes that bits 0 and 1 of a prefix announce.
pub open spec fn payload_size(prefix: u8) -> u8 {
    let id = prefix & 0x03;
    if id == 0 {
        0
    } else if id == 1 {
        1
    } else if id == 2 {
        2
    } else {
        4
    }
}

/// The tag in bits 4 to 7 of a prefix.
pub open spec fn tag_of(prefix: u8) -> u8 {
    (prefix & 0xF0) >> 4
}

/// Whether a payload has one of the lengths that a prefix can announce.
pub open spec fn is_payload_len(len: nat) -> bool {
    len == 0 || len == 1 || len == 2 || len == 4
}

/// The payload byte at `i`, or zero where the payload is shorter.
pub open spec fn byte_at(data: Seq<u8>, i: int) -> u8 {
    if 0 <= i < data.len() {
        data[i]
    } else {
        0
    }
}

/// The little-endian value of a payload of at most four bytes.
pub open spec fn unsigned_value(data: Seq<u8>) -> int {
    byte_at(data, 0) + 0x100 * byte_at(data, 1) + 0x1_0000 * byte_at(data, 2) + 0x100_0000
        * byte_at(data, 3)
}

/// The same 32 bits read as a two's complement number. Shorter payloads
/// are not sign-extended.
pub open spec fn signed_value(data: Seq<u8>) -> int {
    let bits = unsigned_value(data);
    if bits < 0x8000_0000 {
        bits
    } else {
        bits - 0x1_0000_0000
    }
}

/// Whether `byte` has any bit of `mask` set.
pub open spec fn has_bit(byte: u8, mask: u8) -> bool {
    byte & mask != 0
}

pub open spec fn item_type_flag(byte: u8) -> ItemType {
    if has_bit(byte, 0x01) {
        ItemType::Constant
    } else {
        ItemType::Data
    }
}

pub open spec fn data_type_flag(byte: u8) -> DataType {
    if has_bit(byte, 0x02) {
        DataType::Variable
    } else {
        DataType::Array
    }
}

pub open spec fn data_point_flag(byte: u8) -> DataPoint {
    if has_bit(byte, 0x04) {
        DataPoint::Relative
    } else {
        DataPoint::Absolute
    }
}

pub open spec fn wrapping_flag(byte: u8) -> Wrapping {
    if has_bit(byte, 0x08) {
        Wrapping::Wrap
    } else {
        Wrapping::NoWrap
    }
}

pub open spec fn linearity_flag(byte: u8) -> Linearity {
    if has_bit(byte, 0x10) {
        Linearity::Nonlinear
    } else {
        Linearity::Linear
    }
}

pub open spec fn state_preference_flag(byte: u8) -> StatePreference {
    if has_bit(byte, 0x20) {
        StatePreference::NoPreferredState
    } else {
        StatePreference::PreferredState
    }
}

pub open spec fn null_state_flag(byte: u8) -> NullState {
    if has_bit(byte, 0x40) {
        NullState::NullState
    } else {
        NullState::NoNullState
    }
}

pub open spec fn volatility_flag(byte: u8) -> Volatility {
    if has_bit(byte, 0x80) {
        Volatility::Volatile
    } else {
        Volatility::NonVolatile
    }
}

pub open spec fn field_type_flag(byte: u8) -> FieldType {
    if has_bit(byte, 0x01) {
        FieldType::BufferedBytes
    } else {
        FieldType::BitField
    }
}

/// The flags of an input item: bits 0 to 6 of the first payload byte and
/// bit 0 of the second, a missing byte counting as zero.
pub open spec fn input_data_of(data: Seq<u8>) -> MainInputData {
    let first = byte_at(data, 0);
    let second = byte_at(data, 1);
    MainInputData {
        item_type: item_type_flag(first),
        data_type: data_type_flag(first),
        data_point: data_point_flag(first),
        wrapping: wrapping_flag(first),
        linearity: linearity_flag(first),
        state_preferrence: state_preference_flag(first),
        null_state: null_state_flag(first),
        field_type: field_type_flag(second),
    }
}

/// The flags of an output or feature item: those of an input item and
/// the volatility in bit 7 of the first payload byte.
pub open spec fn output_data_of(data: Seq<u8>) -> MainOutputData {
    let first = byte_at(data, 0);
    let second = byte_at(data, 1);
    MainOutputData {
        item_type: item_type_flag(first),
        data_type: data_type_flag(first),
        data_point: data_point_flag(first),
        wrapping: wrapping_flag(first),
        linearity: linearity_flag(first),
        state_preferrence: state_preference_flag(first),
        null_state: null_state_flag(first),
        volatility: volatility_flag(first),
        field_type: field_type_flag(second),
    }
}

/// The collection type that the first payload byte names, a missing byte
/// counting as zero.
pub open spec fn collection_type_of(data: Seq<u8>) -> CollectionType {
    let first = byte_at(data, 0);
    if first == 0 {
        CollectionType::Physical
    } else if first == 1 {
        CollectionType::Application
    } else if first == 2 {
        CollectionType::Logical
    } else if first == 3 {
        CollectionType::Report
    } else if first == 4 {
        CollectionType::NamedArray
    } else if first == 5 {
        CollectionType::UsageSwitch
    } else if first == 6 {
        CollectionType::UsageModifier
    } else {
        CollectionType::Reserved
    }
}

/// Whether a main item's tag has a meaning: the tags below eight have none.
pub open spec fn is_main_tag(tag: u8) -> bool {
    tag >= 8
}

/// The main tag for the tag bits `tag` and the payload `data`.
pub open spec fn main_tag_of(tag: u8, data: Seq<u8>) -> HidMainTag
    recommends
        is_main_tag(tag),
{
    if tag == 8 {
        HidMainTag::Input(input_data_of(data))
    } else if tag == 9 {
        HidMainTag::Output(output_data_of(data))
    } else if tag == 11 {
        HidMainTag::Feature(output_data_of(data))
    } else if tag == 10 {
        HidMainTag::Collection(collection_type_of(data))
    } else if tag == 12 {
        HidMainTag::EndCollection
    } else {
        HidMainTag::Reserved
    }
}

/// The global tag for the tag bits `tag` and the payload `data`.
pub open spec fn global_tag_of(tag: u8, data: Seq<u8>) -> HidGlobalTag {
    let unsigned = unsigned_value(data) as u32;
    let signed = signed_value(data) as i32;
    if tag == 0 {
        HidGlobalTag::UsagePage(unsigned)
    } else if tag == 1 {
        HidGlobalTag::LogicalMinimum(signed)
    } else if tag == 2 {
        HidGlobalTag::LogicalMaximum(signed)
    } else if tag == 3 {
        HidGlobalTag::PhysicalMinimum(signed)
    } else if tag == 4 {
        HidGlobalTag::PhysicalMaximum(signed)
    } else if tag == 5 {
        HidGlobalTag::UnitExponent(signed)
    } else if tag == 6 {
        HidGlobalTag::Unit(signed)
    } else if tag == 7 {
        HidGlobalTag::ReportSize(unsigned)
    } else if tag == 8 {
        HidGlobalTag::ReportId(unsigned)
    } else if tag == 9 {
        HidGlobalTag::ReportCount(unsigned)
    } else if tag == 10 {
        HidGlobalTag::Push(signed)
    } else if tag == 11 {
        HidGlobalTag::Pop(signed)
    } else {
        HidGlobalTag::Reserved(signed)
    }
}

/// The local tag for the tag bits `tag` and the payload `data`. Tag 6
/// has no name of its own and is reserved like the tags from 11 on.
pub open spec fn local_tag_of(tag: u8, data: Seq<u8>) -> HidLocalTag {
    let value = unsigned_value(data) as u32;
    if tag == 0 {
        HidLocalTag::Usage(value)
    } else if tag == 1 {
        HidLocalTag::UsageMinimum(value)
    } else if tag == 2 {
        HidLocalTag::UsageMaximum(value)
    } else if tag == 3 {
        HidLocalTag::DesignatorIndex(value)
    } else if tag == 4 {
        HidLocalTag::DesignatorMinimum(value)
    } else if tag == 5 {
        HidLocalTag::DesignatorMaximum(value)
    } else if tag == 7 {
        HidLocalTag::StringIndex(value)
    } else if tag == 8 {
        HidLocalTag::StringMinimum(value)
    } else if tag == 9 {
        HidLocalTag::StringMaximum(value)
    } else if tag == 10 {
        HidLocalTag::Delimiter(value)
    } else {
        HidLocalTag::Reserved(value)
    }
}

/// Whether an item with this prefix can be decoded: every prefix but
/// that of a main item whose tag has no meaning.
pub open spec fn is_classifiable(prefix: u8) -> bool {
    item_type_of(prefix) is Main ==> is_main_tag(tag_of(prefix))
}

/// The item that the prefix `prefix` and the payload `data` encode,
/// where `usage_page` is the usage page in effect.
pub open spec fn item_of(usage_page: Option<u32>, prefix: u8, data: Seq<u8>) -> HidItemView
    recommends
        is_classifiable(prefix),
{
    let item_type = item_type_of(prefix);
    let tag = tag_of(prefix);
    HidItemView {
        item_type,
        size_bytes: payload_size(prefix),
        usage_page,
        main_tag: if item_type is Main {
            Some(main_tag_of(tag, data))
        } else {
            None
        },
        global_tag: if item_type is Global {
            Some(global_tag_of(tag, data))
        } else {
            None
        },
        local_tag: if item_type is Local {
            Some(local_tag_of(tag, data))
        } else {
            None
        },
        bytes: seq![prefix] + data,
    }
}

/// Whether `item` is what its own raw bytes encode: a prefix, the
/// payload that the prefix announces, and the tag of its class alone.
pub open spec fn is_well_formed(item: HidItemView) -> bool {
    &&& item.bytes.len() >= 1
    &&& item.bytes.len() == 1 + payload_size(item.bytes[0])
    &&& is_classifiable(item.bytes[0])
    &&& item == item_of(item.usage_page, item.bytes[0], item.bytes.skip(1))
}

/// The items of a descriptor, in the order of its bytes.
#[derive(Debug)]
pub struct Report {
    pub items: Vec<HidItem>,
}

impl View for Report {
    type V = Seq<HidItemView>;

    open spec fn view(&self) -> Seq<HidItemView> {
        Seq::new(self.items@.len(), |i: int| self.items@[i]@)
    }
}

impl Report {
    /// A report without items.
    pub fn new() -> (report: Self)
        ensures
            report@ == Seq::<HidItemView>::empty(),
    {
        let report = Report { items: Vec::new() };
        report
    }
}

/// Collects the prefix and the payload bytes of one item and decodes them.
#[derive(Debug)]
pub struct HidItemBuilder {
    pub usage_page: Option<u32>,
    pub prefix_bits: u8,
    pub data_bits: Vec<u8>,
}

impl HidItemBuilder {
    /// A builder for the item that starts with `prefix_bits`, without
    /// payload yet.
    pub fn new(usage_page: Option<u32>, prefix_bits: u8) -> (builder: Self)
        ensures
            builder.usage_page == usage_page,
            builder.prefix_bits == prefix_bits,
            builder.data_bits@ == Seq::<u8>::empty(),
    {
        HidItemBuilder { usage_page, prefix_bits, data_bits: Vec::new() }
    }

    /// Whether the payload collected so far is as long as the prefix
    /// announces.
    pub open spec fn is_complete(&self) -> bool {
        self.data_bits@.len() == payload_size(self.prefix_bits)
    }

    /// Decodes the collected bytes. Fails on a main item whose tag has
    /// no meaning, and on nothing else.
    pub fn build(&self) -> (result: Result<HidItem, DecodeError>)
        requires
            self.is_complete(),
        ensures
            is_classifiable(self.prefix_bits) ==> result is Ok && result->Ok_0@ == item_of(
                self.usage_page,
                self.prefix_bits,
                self.data_bits@,
            ),
            !is_classifiable(self.prefix_bits) ==> result is Err && result->Err_0
                == DecodeError::UnclassifiableTag,
            result is Ok ==> is_well_formed(result->Ok_0@),
    {
        let item_type = self.get_item_type(self.prefix_bits);
        let size_bytes = self.get_size_bytes(self.prefix_bits);
        let mut main_tag: Option<HidMainTag> = None;
        let mut global_tag: Option<HidGlobalTag> = None;
        let mut local_tag: Option<HidLocalTag> = None;
        match item_type {
            HidItemType::Main => {
                match self.get_main_tag(self) {
                    Ok(tag) => {
                        main_tag = Some(tag);
                    },
                    Err(error) => {
                        return Err(error);
                    },
                }
            },
            HidItemType::Global => {
                global_tag = Some(self.get_global_tag(self));
            },
            HidItemType::Local => {
                local_tag = Some(self.get_local_tag(self));
            },
            HidItemType::Unknown => {},
        }
        let mut bytes: Vec<u8> = Vec::new();
        bytes.push(self.prefix_bits);
        bytes.extend_from_slice(self.data_bits.as_slice());
        assert(bytes@ =~= seq![self.prefix_bits] + self.data_bits@);
        assert(bytes@.skip(1) =~= self.data_bits@);
        Ok(
            HidItem {
                item_type,
                size_bytes,
                usage_page: self.usage_page,
                main_tag,
                global_tag,
                local_tag,
                bytes,
            },
        )
    }

    /// Adds one payload byte.
    pub fn push_data(&mut self, data: u8)
        ensures
            final(self).data_bits@ == old(self).data_bits@.push(data),
            final(self).prefix_bits == old(self).prefix_bits,
            final(self).usage_page == old(self).usage_page,
    {
        self.data_bits.push(data);
    }

    /// The number of payload bytes that the builder's prefix announces.
    pub fn get_size(&self) -> (size: u8)
        ensures
            size == payload_size(self.prefix_bits),
            size == 0 || size == 1 || size == 2 || size == 4,
    {
        self.get_size_bytes(self.prefix_bits)
    }

    /// The class of the item that starts with `prefix_bits`.
    pub fn get_item_type(&self, prefix_bits: u8) -> (item_type: HidItemType)
        ensures
            item_type == item_type_of(prefix_bits),
    {
        let item_type_id: u8 = (prefix_bits & 0x0C) >> 2;
        if item_type_id == 0 {
            HidItemType::Main
        } else if item_type_id == 1 {
            HidItemType::Global
        } else if item_type_id == 2 {
            HidItemType::Local
        } else {
            HidItemType::Unknown
        }
    }

    /// The number of payload bytes that `prefix_bits` announces.
    pub fn get_size_bytes(&self, prefix_bits: u8) -> (size: u8)
        ensures
            size == payload_size(prefix_bits),
            size == 0 || size == 1 || size == 2 || size == 4,
    {
        let size_id: u8 = prefix_bits & 0x03;
        if size_id == 0 {
            0
        } else if size_id == 1 {
            1
        } else if size_id == 2 {
            2
        } else {
            4
        }
    }

    /// The main tag of the item in `item_builder`, or the error for a
    /// tag without meaning.
    pub fn get_main_tag(&self, item_builder: &HidItemBuilder) -> (result: Result<
        HidMainTag,
        DecodeError,
    >)
        ensures
            is_main_tag(tag_of(item_builder.prefix_bits)) ==> result == Ok::<
                HidMainTag,
                DecodeError,
            >(main_tag_of(tag_of(item_builder.prefix_bits), item_builder.data_bits@)),
            !is_main_tag(tag_of(item_builder.prefix_bits)) ==> result == Err::<
                HidMainTag,
                DecodeError,
            >(DecodeError::UnclassifiableTag),
    {
        let tag: u8 = (item_builder.prefix_bits & 0xF0) >> 4;
        if tag == 8 {
            Ok(HidMainTag::Input(self.get_main_input_data(&item_builder.data_bits)))
        } else if tag == 9 {
            Ok(HidMainTag::Output(self.get_main_output_data(&item_builder.data_bits)))
        } else if tag == 11 {
            Ok(HidMainTag::Feature(self.get_main_output_data(&item_builder.data_bits)))
        } else if tag == 10 {
            Ok(HidMainTag::Collection(self.get_main_collection_type(&item_builder.data_bits)))
        } else if tag == 12 {
            Ok(HidMainTag::EndCollection)
        } else if tag >= 13 {
            Ok(HidMainTag::Reserved)
        } else {
            Err(DecodeError::UnclassifiableTag)
        }
    }

    /// The field flags of an input item with the payload `data_bits`.
    pub fn get_main_input_data(&self, data_bits: &Vec<u8>) -> (data: MainInputData)
        ensures
            data == input_data_of(data_bits@),
    {
        let first_byte: u8 = if data_bits.len() > 0 {
            data_bits[0]
        } else {
            0
        };
        let second_byte: u8 = if data_bits.len() > 1 {
            data_bits[1]
        } else {
            0
        };
        MainInputData {
            item_type: if first_byte & 0x01 != 0 {
                ItemType::Constant
            } else {
                ItemType::Data
            },
            data_type: if first_byte & 0x02 != 0 {
                DataType::Variable
            } else {
                DataType::Array
            },
            data_point: if first_byte & 0x04 != 0 {
                DataPoint::Relative
            } else {
                DataPoint::Absolute
            },
            wrapping: if first_byte & 0x08 != 0 {
                Wrapping::Wrap
            } else {
                Wrapping::NoWrap
            },
            linearity: if first_byte & 0x10 != 0 {
                Linearity::Nonlinear
            } else {
                Linearity::Linear
            },
            state_preferrence: if first_byte & 0x20 != 0 {
                StatePreference::NoPreferredState
            } else {
                StatePreference::PreferredState
            },
            null_state: if first_byte & 0x40 != 0 {
                NullState::NullState
            } else {
                NullState::NoNullState
            },
            field_type: if second_byte & 0x01 != 0 {
                FieldType::BufferedBytes
            } else {
                FieldType::BitField
            },
        }
    }

    /// The field flags of an output or feature item with the payload
    /// `data_bits`.
    pub fn get_main_output_data(&self, data_bits: &Vec<u8>) -> (data: MainOutputData)
        ensures
            data == output_data_of(data_bits@),
    {
        let first_byte: u8 = if data_bits.len() > 0 {
            data_bits[0]
        } else {
            0
        };
        let second_byte: u8 = if data_bits.len() > 1 {
            data_bits[1]
        } else {
            0
        };
        MainOutputData {
            item_type: if first_byte & 0x01 != 0 {
                ItemType::Constant
            } else {
                ItemType::Data
            },
            data_type: if first_byte & 0x02 != 0 {
                DataType::Variable
            } else {
                DataType::Array
            },
            data_point: if first_byte & 0x04 != 0 {
                DataPoint::Relative
            } else {
                DataPoint::Absolute
            },
            wrapping: if first_byte & 0x08 != 0 {
                Wrapping::Wrap
            } else {
                Wrapping::NoWrap
            },
            linearity: if first_byte & 0x10 != 0 {
                Linearity::Nonlinear
            } else {
                Linearity::Linear
            },
            state_preferrence: if first_byte & 0x20 != 0 {
                StatePreference::NoPreferredState
            } else {
                StatePreference::PreferredState
            },
            null_state: if first_byte & 0x40 != 0 {
                NullState::NullState
            } else {
                NullState::NoNullState
            },
            volatility: if first_byte & 0x80 != 0 {
                Volatility::Volatile
            } else {
                Volatility::NonVolatile
            },
            field_type: if second_byte & 0x01 != 0 {
                FieldType::BufferedBytes
            } else {
                FieldType::BitField
            },
        }
    }

    /// The type of a collection item with the payload `data_bits`.
    pub fn get_main_collection_type(&self, data_bits: &Vec<u8>) -> (collection: CollectionType)
        ensures
            collection == collection_type_of(data_bits@),
    {
        let first_byte: u8 = if data_bits.len() > 0 {
            data_bits[0]
        } else {
            0
        };
        if first_byte == 0 {
            CollectionType::Physical
        } else if first_byte == 1 {
            CollectionType::Application
        } else if first_byte == 2 {
            CollectionType::Logical
        } else if first_byte == 3 {
            CollectionType::Report
        } else if first_byte == 4 {
            CollectionType::NamedArray
        } else if first_byte == 5 {
            CollectionType::UsageSwitch
        } else if first_byte == 6 {
            CollectionType::UsageModifier
        } else {
            CollectionType::Reserved
        }
    }

    /// The global tag of the item in `item_builder`.
    pub fn get_global_tag(&self, item_builder: &HidItemBuilder) -> (tag: HidGlobalTag)
        requires
            is_payload_len(item_builder.data_bits@.len()),
        ensures
            tag == global_tag_of(tag_of(item_builder.prefix_bits), item_builder.data_bits@),
    {
        let tag: u8 = (item_builder.prefix_bits & 0xF0) >> 4;
        if tag == 0 {
            HidGlobalTag::UsagePage(self.get_u32(&item_builder.data_bits))
        } else if tag == 1 {
            HidGlobalTag::LogicalMinimum(self.get_i32(&item_builder.data_bits))
        } else if tag == 2 {
            HidGlobalTag::LogicalMaximum(self.get_i32(&item_builder.data_bits))
        } else if tag == 3 {
            HidGlobalTag::PhysicalMinimum(self.get_i32(&item_builder.data_bits))
        } else if tag == 4 {
            HidGlobalTag::PhysicalMaximum(self.get_i32(&item_builder.data_bits))
        } else if tag == 5 {
            HidGlobalTag::UnitExponent(self.get_i32(&item_builder.data_bits))
        } else if tag == 6 {
            HidGlobalTag::Unit(self.get_i32(&item_builder.data_bits))
        } else if tag == 7 {
            HidGlobalTag::ReportSize(self.get_u32(&item_builder.data_bits))
        } else if tag == 8 {
            HidGlobalTag::ReportId(self.get_u32(&item_builder.data_bits))
        } else if tag == 9 {
            HidGlobalTag::ReportCount(self.get_u32(&item_builder.data_bits))
        } else if tag == 10 {
            HidGlobalTag::Push(self.get_i32(&item_builder.data_bits))
        } else if tag == 11 {
            HidGlobalTag::Pop(self.get_i32(&item_builder.data_bits))
        } else {
            HidGlobalTag::Reserved(self.get_i32(&item_builder.data_bits))
        }
    }

    /// The little-endian value of a payload of 0, 1, 2 or 4 bytes.
    pub fn get_u32(&self, data_bits: &Vec<u8>) -> (value: u32)
        requires
            is_payload_len(data_bits@.len()),
        ensures
            value == unsigned_value(data_bits@),
    {
        let len = data_bits.len();
        if len == 0 {
            0
        } else if len == 1 {
            data_bits[0] as u32
        } else if len == 2 {
            let b0: u8 = data_bits[0];
            let b1: u8 = data_bits[1];
            assert((b0 as u32) | ((b1 as u32) << 8) == b0 + 0x100 * b1) by (bit_vector);
            (b0 as u32) | ((b1 as u32) << 8)
        } else {
            let b0: u8 = data_bits[0];
            let b1: u8 = data_bits[1];
            let b2: u8 = data_bits[2];
            let b3: u8 = data_bits[3];
            assert((b0 as u32) | ((b1 as u32) << 8) | ((b2 as u32) << 16) | ((b3 as u32) << 24)
                == b0 + 0x100 * b1 + 0x1_0000 * b2 + 0x100_0000 * b3) by (bit_vector);
            (b0 as u32) | ((b1 as u32) << 8) | ((b2 as u32) << 16) | ((b3 as u32) << 24)
        }
    }

    /// The value of a payload of 0, 1, 2 or 4 bytes, its 32 bits read as
    /// a two's complement number.
    pub fn get_i32(&self, data_bits: &Vec<u8>) -> (value: i32)
        requires
            is_payload_len(data_bits@.len()),
        ensures
            value == signed_value(data_bits@),
    {
        let bits: u32 = self.get_u32(data_bits);
        if bits < 0x8000_0000 {
            bits as i32
        } else {
            let low: i32 = (bits - 0x8000_0000) as i32;
            low + i32::MIN
        }
    }

    /// The local tag of the item in `item_builder`.
    pub fn get_local_tag(&self, item_builder: &HidItemBuilder) -> (tag: HidLocalTag)
        requires
            is_payload_len(item_builder.data_bits@.len()),
        ensures
            tag == local_tag_of(tag_of(item_builder.prefix_bits), item_builder.data_bits@),
    {
        let tag: u8 = (item_builder.prefix_bits & 0xF0) >> 4;
        if tag == 0 {
            HidLocalTag::Usage(self.get_u32(&item_builder.data_bits))
        } else if tag == 1 {
            HidLocalTag::UsageMinimum(self.get_u32(&item_builder.data_bits))
        } else if tag == 2 {
            HidLocalTag::UsageMaximum(self.get_u32(&item_builder.data_bits))
        } else if tag == 3 {
            HidLocalTag::DesignatorIndex(self.get_u32(&item_builder.data_bits))
        } else if tag == 4 {
            HidLocalTag::DesignatorMinimum(self.get_u32(&item_builder.data_bits))
        } else if tag == 5 {
            HidLocalTag::DesignatorMaximum(self.get_u32(&item_builder.data_bits))
        } else if tag == 7 {
            HidLocalTag::StringIndex(self.get_u32(&item_builder.data_bits))
        } else if tag == 8 {
            HidLocalTag::StringMinimum(self.get_u32(&item_builder.data_bits))
        } else if tag == 9 {
            HidLocalTag::StringMaximum(self.get_u32(&item_builder.data_bits))
        } else if tag == 10 {
            HidLocalTag::Delimiter(self.get_u32(&item_builder.data_bits))
        } else {
            HidLocalTag::Reserved(self.get_u32(&item_builder.data_bits))
        }
    }
}


/// `rest` with the items `done` in front of it, or the error of `rest`.
pub open spec fn items_then(
    done: Seq<HidItemView>,
    rest: Result<Seq<HidItemView>, DecodeError>,
) -> Result<Seq<HidItemView>, DecodeError> {
    match rest {
        Ok(items) => Ok(done + items),
        Err(error) => Err(error),
    }
}

/// The items that `bytes` holds from `cursor` on, where `context` is the
/// usage context reached there.
///
/// Each item is a prefix and the payload that the prefix announces. The
/// buffer is truncated where it ends inside an item. An item that cannot
/// be classified fails the whole descriptor, and a truncated item is
/// reported before its tag is looked at.
pub open spec fn decode_from(bytes: Seq<u8>, cursor: int, context: UsageContext) -> Result<
    Seq<HidItemView>,
    DecodeError,
>
    decreases bytes.len() - cursor,
{
    if cursor < 0 || cursor >= bytes.len() {
        Ok(Seq::empty())
    } else {
        let prefix = bytes[cursor];
        let end = cursor + 1 + payload_size(prefix);
        if end > bytes.len() {
            Err(DecodeError::TruncatedDescriptor)
        } else if !is_classifiable(prefix) {
            Err(DecodeError::UnclassifiableTag)
        } else {
            let item = item_of(context.usage_page(), prefix, bytes.subrange(cursor + 1, end));
            items_then(seq![item], decode_from(bytes, end, context.after(item)))
        }
    }
}

/// The items of the descriptor `bytes`, or the reason why it has none.
pub open spec fn decode(bytes: Seq<u8>) -> Result<Seq<HidItemView>, DecodeError> {
    decode_from(bytes, 0, UsageContext::initial())
}

/// Whether `result` is what decoding `bytes` has to return.
pub open spec fn is_decoding_of(result: Result<Report, DecodeError>, bytes: Seq<u8>) -> bool {
    match decode(bytes) {
        Ok(items) => result is Ok && result->Ok_0@ == items,
        Err(error) => result is Err && result->Err_0 == error,
    }
}

/// The raw bytes of `items`, one item after the other.
pub open spec fn raw_bytes(items: Seq<HidItemView>) -> Seq<u8>
    decreases items.len(),
{
    if items.len() == 0 {
        Seq::empty()
    } else {
        items[0].bytes + raw_bytes(items.drop_first())
    }
}

/// Decodes a report descriptor into its items.
///
/// Succeeds exactly where every item is complete and can be classified;
/// no part of a descriptor is returned where it fails. The items of a
/// decoded descriptor are in the order of its bytes: their raw bytes,
/// one after the other, are the descriptor; each item is what its own
/// raw bytes encode; and each records the usage page that the items
/// before it left in effect.
pub fn get_descriptor_report(bytes: &[u8]) -> (result: Result<Report, DecodeError>)
    ensures
        is_decoding_of(result, bytes@),
        result is Ok ==> raw_bytes(result->Ok_0@) == bytes@,
        result is Ok ==> forall|i: int|
            0 <= i < result->Ok_0@.len() ==> is_well_formed(#[trigger] result->Ok_0@[i]),
        result is Ok ==> forall|i: int|
            0 <= i < result->Ok_0@.len() ==> (#[trigger] result->Ok_0@[i]).usage_page
                == context_before(result->Ok_0@, i).usage_page(),
{
    let mut report = Report::new();
    let mut i: usize = 0;
    let mut tracker = UsageTracker::new();
    while i < bytes.len()
        invariant
            i <= bytes.len(),
            -(i as int) <= tracker@.depth <= i,
            decode(bytes@) == items_then(report@, decode_from(bytes@, i as int, tracker@)),
        decreases bytes.len() - i,
    {
        let prefix_bits = bytes[i];
        let usage_page = tracker.current_usage_page();
        let mut item_builder = HidItemBuilder::new(usage_page, prefix_bits);
        let size = item_builder.get_size() as usize;
        if size > bytes.len() - i - 1 {
            return Err(DecodeError::TruncatedDescriptor);
        }
        let mut k: usize = 0;
        while k < size
            invariant
                k <= size,
                i + 1 + size <= bytes.len(),
                item_builder.prefix_bits == prefix_bits,
                item_builder.usage_page == usage_page,
                item_builder.data_bits@ == bytes@.subrange(i + 1, i + 1 + k),
            decreases size - k,
        {
            item_builder.push_data(bytes[i + 1 + k]);
            k += 1;
        }
        let item = match item_builder.build() {
            Ok(item) => item,
            Err(error) => {
                return Err(error);
            },
        };
        tracker.update(&item);
        let ghost done = report@;
        let ghost decoded = item@;
        let ghost rest = decode_from(bytes@, i + 1 + size, tracker@)->Ok_0;
        report.items.push(item);
        assert(report@ + rest =~= done + (seq![decoded] + rest));
        i += 1 + size;
    }
    proof {
        lemma_round_trip(bytes@);
        assert forall|i: int| 0 <= i < report@.len() implies is_well_formed(
            #[trigger] report@[i],
        ) && report@[i].usage_page == context_before(report@, i).usage_page() by {
            lemma_items_well_formed(bytes@, i);
            lemma_decoded_pages(bytes@, i);
        }
    }
    Ok(report)
}

} // verus!
