use hid_report::hid::descriptor::{
    CollectionType, DataPoint, DataType, DecodeError, FieldType, HidGlobalTag, HidItemBuilder,
    HidItemType, HidLocalTag, HidMainTag, ItemType, Linearity, MainInputData, MainOutputData,
    NullState, StatePreference, Volatility, Wrapping,
};

fn builder_with(prefix: u8, data: &[u8]) -> HidItemBuilder {
    let mut builder = HidItemBuilder::new(None, prefix);
    for byte in data {
        builder.push_data(*byte);
    }
    builder
}

fn all_clear_input() -> MainInputData {
    MainInputData {
        item_type: ItemType::Data,
        data_type: DataType::Array,
        data_point: DataPoint::Absolute,
        wrapping: Wrapping::NoWrap,
        linearity: Linearity::Linear,
        state_preferrence: StatePreference::PreferredState,
        null_state: NullState::NoNullState,
        field_type: FieldType::BitField,
    }
}

fn all_set_output() -> MainOutputData {
    MainOutputData {
        item_type: ItemType::Constant,
        data_type: DataType::Variable,
        data_point: DataPoint::Relative,
        wrapping: Wrapping::Wrap,
        linearity: Linearity::Nonlinear,
        state_preferrence: StatePreference::NoPreferredState,
        null_state: NullState::NullState,
        volatility: Volatility::Volatile,
        field_type: FieldType::BufferedBytes,
    }
}

#[test]
fn input_flags_all_clear() {
    let builder = HidItemBuilder::new(None, 0x81);
    assert_eq!(builder.get_main_input_data(&vec![0x00]), all_clear_input());
    assert_eq!(builder.get_main_input_data(&vec![0x00, 0x00]), all_clear_input());
}

#[test]
fn input_flags_one_bit_each() {
    let builder = HidItemBuilder::new(None, 0x81);
    let clear = all_clear_input();
    assert_eq!(
        builder.get_main_input_data(&vec![0x01]),
        MainInputData { item_type: ItemType::Constant, ..clear }
    );
    assert_eq!(
        builder.get_main_input_data(&vec![0x02]),
        MainInputData { data_type: DataType::Variable, ..clear }
    );
    assert_eq!(
        builder.get_main_input_data(&vec![0x04]),
        MainInputData { data_point: DataPoint::Relative, ..clear }
    );
    assert_eq!(
        builder.get_main_input_data(&vec![0x08]),
        MainInputData { wrapping: Wrapping::Wrap, ..clear }
    );
    assert_eq!(
        builder.get_main_input_data(&vec![0x10]),
        MainInputData { linearity: Linearity::Nonlinear, ..clear }
    );
    assert_eq!(
        builder.get_main_input_data(&vec![0x20]),
        MainInputData { state_preferrence: StatePreference::NoPreferredState, ..clear }
    );
    assert_eq!(
        builder.get_main_input_data(&vec![0x40]),
        MainInputData { null_state: NullState::NullState, ..clear }
    );
    assert_eq!(
        builder.get_main_input_data(&vec![0x00, 0x01]),
        MainInputData { field_type: FieldType::BufferedBytes, ..clear }
    );
}

#[test]
fn input_ignores_bit_7_and_the_high_bits_of_the_second_byte() {
    let builder = HidItemBuilder::new(None, 0x81);
    assert_eq!(builder.get_main_input_data(&vec![0x80]), all_clear_input());
    assert_eq!(builder.get_main_input_data(&vec![0x00, 0xFE]), all_clear_input());
}

#[test]
fn input_without_payload_has_all_flags_clear() {
    let builder = HidItemBuilder::new(None, 0x80);
    assert_eq!(builder.get_main_input_data(&vec![]), all_clear_input());
}

#[test]
fn output_flags_all_set() {
    let builder = HidItemBuilder::new(None, 0x92);
    assert_eq!(builder.get_main_output_data(&vec![0xFF, 0x01]), all_set_output());
}

#[test]
fn output_volatility_is_bit_7() {
    let builder = HidItemBuilder::new(None, 0x91);
    let data = builder.get_main_output_data(&vec![0x80]);
    assert_eq!(data.volatility, Volatility::Volatile);
    assert_eq!(data.item_type, ItemType::Data);
    assert_eq!(data.null_state, NullState::NoNullState);
    assert_eq!(data.field_type, FieldType::BitField);
    let data = builder.get_main_output_data(&vec![0x7F]);
    assert_eq!(data.volatility, Volatility::NonVolatile);
    assert_eq!(data.null_state, NullState::NullState);
}

#[test]
fn output_without_payload_has_all_flags_clear() {
    let builder = HidItemBuilder::new(None, 0x90);
    let data = builder.get_main_output_data(&vec![]);
    assert_eq!(data.item_type, ItemType::Data);
    assert_eq!(data.volatility, Volatility::NonVolatile);
    assert_eq!(data.field_type, FieldType::BitField);
}

#[test]
fn collection_types_by_first_byte() {
    let builder = HidItemBuilder::new(None, 0xA1);
    let expected = [
        CollectionType::Physical,
        CollectionType::Application,
        CollectionType::Logical,
        CollectionType::Report,
        CollectionType::NamedArray,
        CollectionType::UsageSwitch,
        CollectionType::UsageModifier,
    ];
    for (byte, collection) in expected.iter().enumerate() {
        assert_eq!(builder.get_main_collection_type(&vec![byte as u8]), *collection);
    }
    for byte in 7..=255u8 {
        assert_eq!(builder.get_main_collection_type(&vec![byte]), CollectionType::Reserved);
    }
}

#[test]
fn collection_without_payload_is_physical() {
    let builder = HidItemBuilder::new(None, 0xA0);
    assert_eq!(builder.get_main_collection_type(&vec![]), CollectionType::Physical);
}

#[test]
fn main_tags_by_tag_bits() {
    let probe = HidItemBuilder::new(None, 0);
    let input = builder_with(0x81, &[0x02]);
    assert!(matches!(probe.get_main_tag(&input), Ok(HidMainTag::Input(data)) if data.data_type == DataType::Variable));
    let output = builder_with(0x91, &[0x82]);
    assert!(matches!(probe.get_main_tag(&output), Ok(HidMainTag::Output(data)) if data.volatility == Volatility::Volatile));
    let feature = builder_with(0xB1, &[0x01]);
    assert!(matches!(probe.get_main_tag(&feature), Ok(HidMainTag::Feature(data)) if data.item_type == ItemType::Constant));
    let collection = builder_with(0xA1, &[0x02]);
    assert_eq!(probe.get_main_tag(&collection), Ok(HidMainTag::Collection(CollectionType::Logical)));
    let end = builder_with(0xC0, &[]);
    assert_eq!(probe.get_main_tag(&end), Ok(HidMainTag::EndCollection));
    for prefix in [0xD0u8, 0xE0, 0xF0] {
        assert_eq!(probe.get_main_tag(&builder_with(prefix, &[])), Ok(HidMainTag::Reserved));
    }
}

#[test]
fn main_tags_below_eight_are_unclassifiable() {
    let probe = HidItemBuilder::new(None, 0);
    for tag in 0..8u8 {
        let builder = builder_with(tag << 4, &[]);
        assert_eq!(probe.get_main_tag(&builder), Err(DecodeError::UnclassifiableTag));
        assert!(matches!(builder.build(), Err(DecodeError::UnclassifiableTag)));
    }
}

#[test]
fn global_tags_by_tag_bits() {
    let probe = HidItemBuilder::new(None, 0);
    let tag_of = |tag: u8| probe.get_global_tag(&builder_with((tag << 4) | 0x05, &[0x85]));
    assert_eq!(tag_of(0), HidGlobalTag::UsagePage(0x85));
    assert_eq!(tag_of(1), HidGlobalTag::LogicalMinimum(0x85));
    assert_eq!(tag_of(2), HidGlobalTag::LogicalMaximum(0x85));
    assert_eq!(tag_of(3), HidGlobalTag::PhysicalMinimum(0x85));
    assert_eq!(tag_of(4), HidGlobalTag::PhysicalMaximum(0x85));
    assert_eq!(tag_of(5), HidGlobalTag::UnitExponent(0x85));
    assert_eq!(tag_of(6), HidGlobalTag::Unit(0x85));
    assert_eq!(tag_of(7), HidGlobalTag::ReportSize(0x85));
    assert_eq!(tag_of(8), HidGlobalTag::ReportId(0x85));
    assert_eq!(tag_of(9), HidGlobalTag::ReportCount(0x85));
    assert_eq!(tag_of(10), HidGlobalTag::Push(0x85));
    assert_eq!(tag_of(11), HidGlobalTag::Pop(0x85));
    for tag in 12..16u8 {
        assert_eq!(tag_of(tag), HidGlobalTag::Reserved(0x85));
    }
}

#[test]
fn global_signed_values_of_four_bytes() {
    let probe = HidItemBuilder::new(None, 0);
    let minimum = builder_with(0x17, &[0x00, 0x80, 0xFF, 0xFF]);
    assert_eq!(probe.get_global_tag(&minimum), HidGlobalTag::LogicalMinimum(-32768));
    let page = builder_with(0x07, &[0x00, 0xFF, 0xFF, 0xFF]);
    assert_eq!(probe.get_global_tag(&page), HidGlobalTag::UsagePage(0xFFFF_FF00));
}

#[test]
fn local_tags_by_tag_bits() {
    let probe = HidItemBuilder::new(None, 0);
    let tag_of = |tag: u8| probe.get_local_tag(&builder_with((tag << 4) | 0x0A, &[0x34, 0x12]));
    assert_eq!(tag_of(0), HidLocalTag::Usage(0x1234));
    assert_eq!(tag_of(1), HidLocalTag::UsageMinimum(0x1234));
    assert_eq!(tag_of(2), HidLocalTag::UsageMaximum(0x1234));
    assert_eq!(tag_of(3), HidLocalTag::DesignatorIndex(0x1234));
    assert_eq!(tag_of(4), HidLocalTag::DesignatorMinimum(0x1234));
    assert_eq!(tag_of(5), HidLocalTag::DesignatorMaximum(0x1234));
    assert_eq!(tag_of(6), HidLocalTag::Reserved(0x1234));
    assert_eq!(tag_of(7), HidLocalTag::StringIndex(0x1234));
    assert_eq!(tag_of(8), HidLocalTag::StringMinimum(0x1234));
    assert_eq!(tag_of(9), HidLocalTag::StringMaximum(0x1234));
    assert_eq!(tag_of(10), HidLocalTag::Delimiter(0x1234));
    for tag in 11..16u8 {
        assert_eq!(tag_of(tag), HidLocalTag::Reserved(0x1234));
    }
}

#[test]
fn build_fills_the_tag_of_the_class_alone() {
    let global = builder_with(0x75, &[0x08]).build().unwrap();
    assert_eq!(global.item_type, HidItemType::Global);
    assert_eq!(global.size_bytes, 1);
    assert_eq!(global.global_tag, Some(HidGlobalTag::ReportSize(8)));
    assert_eq!(global.main_tag, None);
    assert_eq!(global.local_tag, None);
    assert_eq!(global.bytes, vec![0x75, 0x08]);

    let local = builder_with(0x0A, &[0x01, 0x02]).build().unwrap();
    assert_eq!(local.item_type, HidItemType::Local);
    assert_eq!(local.size_bytes, 2);
    assert_eq!(local.local_tag, Some(HidLocalTag::Usage(0x0201)));
    assert_eq!(local.main_tag, None);
    assert_eq!(local.global_tag, None);
    assert_eq!(local.bytes, vec![0x0A, 0x01, 0x02]);

    let main = builder_with(0xC0, &[]).build().unwrap();
    assert_eq!(main.item_type, HidItemType::Main);
    assert_eq!(main.size_bytes, 0);
    assert_eq!(main.main_tag, Some(HidMainTag::EndCollection));
    assert_eq!(main.global_tag, None);
    assert_eq!(main.local_tag, None);
    assert_eq!(main.bytes, vec![0xC0]);
}

#[test]
fn build_of_unknown_class_carries_no_tag() {
    let item = builder_with(0x0D, &[0xAB]).build().unwrap();
    assert_eq!(item.item_type, HidItemType::Unknown);
    assert_eq!(item.size_bytes, 1);
    assert_eq!(item.main_tag, None);
    assert_eq!(item.global_tag, None);
    assert_eq!(item.local_tag, None);
    assert_eq!(item.bytes, vec![0x0D, 0xAB]);
}

#[test]
fn build_records_the_usage_page_it_was_given() {
    let mut builder = HidItemBuilder::new(Some(0x0B), 0x09);
    builder.push_data(0x05);
    let item = builder.build().unwrap();
    assert_eq!(item.usage_page, Some(0x0B));
    assert_eq!(item.local_tag, Some(HidLocalTag::Usage(0x05)));
}
