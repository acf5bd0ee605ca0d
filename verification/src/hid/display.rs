//! Items as text, for showing a decoded descriptor to a reader.

use crate::hid::descriptor::{
    CollectionType, DataPoint, DataType, FieldType, HidGlobalTag, HidItem, HidItemType,
    HidItemView, HidLocalTag, HidMainTag, ItemType, Linearity, MainInputData, MainOutputData,
    NullState, StatePreference, Volatility, Wrapping,
};
use crate::hid::name::{get_usage_name, get_usage_page_name, usage_name, usage_page_name};
use crate::hid::text::{
    bracketed_text, decimal_text, format_bracketed, format_signed, format_unsigned,
};
use vstd::prelude::*;

verus! {

impl ItemType {
    /// The words for whether a field holds data or a constant.
    pub open spec fn text(self) -> Seq<char> {
        match self {
            ItemType::Data => "Data"@,
            ItemType::Constant => "Constant"@,
        }
    }

    /// The words for whether a field holds data or a constant.
    pub fn as_str(&self) -> (text: &'static str)
        ensures
            text@ == self.text(),
    {
        match self {
            ItemType::Data => "Data",
            ItemType::Constant => "Constant",
        }
    }
}

impl DataType {
    /// The words for whether a field is an array or a variable.
    pub open spec fn text(self) -> Seq<char> {
        match self {
            DataType::Array => "Array"@,
            DataType::Variable => "Variable"@,
        }
    }

    /// The words for whether a field is an array or a variable.
    pub fn as_str(&self) -> (text: &'static str)
        ensures
            text@ == self.text(),
    {
        match self {
            DataType::Array => "Array",
            DataType::Variable => "Variable",
        }
    }
}

impl DataPoint {
    /// The words for whether a field is absolute or relative.
    pub open spec fn text(self) -> Seq<char> {
        match self {
            DataPoint::Absolute => "Absolute"@,
            DataPoint::Relative => "Relative"@,
        }
    }

    /// The words for whether a field is absolute or relative.
    pub fn as_str(&self) -> (text: &'static str)
        ensures
            text@ == self.text(),
    {
        match self {
            DataPoint::Absolute => "Absolute",
            DataPoint::Relative => "Relative",
        }
    }
}

impl Wrapping {
    /// The words for whether a field wraps.
    pub open spec fn text(self) -> Seq<char> {
        match self {
            Wrapping::NoWrap => "No Wrap"@,
            Wrapping::Wrap => "Wrap"@,
        }
    }

    /// The words for whether a field wraps.
    pub fn as_str(&self) -> (text: &'static str)
        ensures
            text@ == self.text(),
    {
        match self {
            Wrapping::NoWrap => "No Wrap",
            Wrapping::Wrap => "Wrap",
        }
    }
}

impl Linearity {
    /// The words for whether a field is linear.
    pub open spec fn text(self) -> Seq<char> {
        match self {
            Linearity::Linear => "Linear"@,
            Linearity::Nonlinear => "Non-liniear"@,
        }
    }

    /// The words for whether a field is linear.
    pub fn as_str(&self) -> (text: &'static str)
        ensures
            text@ == self.text(),
    {
        match self {
            Linearity::Linear => "Linear",
            Linearity::Nonlinear => "Non-liniear",
        }
    }
}

impl StatePreference {
    /// The words for whether a field has a preferred state.
    pub open spec fn text(self) -> Seq<char> {
        match self {
            StatePreference::PreferredState => "Preferred State"@,
            StatePreference::NoPreferredState => "No Preferred State"@,
        }
    }

    /// The words for whether a field has a preferred state.
    pub fn as_str(&self) -> (text: &'static str)
        ensures
            text@ == self.text(),
    {
        match self {
            StatePreference::PreferredState => "Preferred State",
            StatePreference::NoPreferredState => "No Preferred State",
        }
    }
}

impl NullState {
    /// The words for whether a field has a null state.
    pub open spec fn text(self) -> Seq<char> {
        match self {
            NullState::NoNullState => "No Null State"@,
            NullState::NullState => "Null State"@,
        }
    }

    /// The words for whether a field has a null state.
    pub fn as_str(&self) -> (text: &'static str)
        ensures
            text@ == self.text(),
    {
        match self {
            NullState::NoNullState => "No Null State",
            NullState::NullState => "Null State",
        }
    }
}

impl Volatility {
    /// The words for whether a field is volatile.
    pub open spec fn text(self) -> Seq<char> {
        match self {
            Volatility::NonVolatile => "Non-volatile"@,
            Volatility::Volatile => "Volatile"@,
        }
    }

    /// The words for whether a field is volatile.
    pub fn as_str(&self) -> (text: &'static str)
        ensures
            text@ == self.text(),
    {
        match self {
            Volatility::NonVolatile => "Non-volatile",
            Volatility::Volatile => "Volatile",
        }
    }
}

impl FieldType {
    /// The words for whether a field is a bit field or a buffer of bytes.
    pub open spec fn text(self) -> Seq<char> {
        match self {
            FieldType::BitField => "Bit Field"@,
            FieldType::BufferedBytes => "BufferedBytes"@,
        }
    }

    /// The words for whether a field is a bit field or a buffer of bytes.
    pub fn as_str(&self) -> (text: &'static str)
        ensures
            text@ == self.text(),
    {
        match self {
            FieldType::BitField => "Bit Field",
            FieldType::BufferedBytes => "BufferedBytes",
        }
    }
}

impl CollectionType {
    /// The words for the type of a collection.
    pub open spec fn text(self) -> Seq<char> {
        match self {
            CollectionType::Physical => "Physical"@,
            CollectionType::Application => "Application"@,
            CollectionType::Logical => "Logical"@,
            CollectionType::Report => "Report"@,
            CollectionType::NamedArray => "Named Array"@,
            CollectionType::UsageSwitch => "Usage Switch"@,
            CollectionType::UsageModifier => "Usage Modifier"@,
            CollectionType::Reserved => "Reserved"@,
        }
    }

    /// The words for the type of a collection.
    pub fn as_str(&self) -> (text: &'static str)
        ensures
            text@ == self.text(),
    {
        match self {
            CollectionType::Physical => "Physical",
            CollectionType::Application => "Application",
            CollectionType::Logical => "Logical",
            CollectionType::Report => "Report",
            CollectionType::NamedArray => "Named Array",
            CollectionType::UsageSwitch => "Usage Switch",
            CollectionType::UsageModifier => "Usage Modifier",
            CollectionType::Reserved => "Reserved",
        }
    }

    /// The type of the collection in words.
    pub fn to_text(&self) -> (text: String)
        ensures
            text@ == self.text(),
    {
        String::from_str(self.as_str())
    }
}

impl HidItemType {
    /// The words for the class of an item.
    pub open spec fn text(self) -> Seq<char> {
        match self {
            HidItemType::Main => "Main"@,
            HidItemType::Global => "Global"@,
            HidItemType::Local => "Local"@,
            HidItemType::Unknown => "Unknown"@,
        }
    }

    /// The words for the class of an item.
    pub fn as_str(&self) -> (text: &'static str)
        ensures
            text@ == self.text(),
    {
        match self {
            HidItemType::Main => "Main",
            HidItemType::Global => "Global",
            HidItemType::Local => "Local",
            HidItemType::Unknown => "Unknown",
        }
    }
}

impl MainInputData {
    /// The flags in words, in the order of their bits, with a comma and
    /// a space between them.
    pub open spec fn text(self) -> Seq<char> {
        self.item_type.text() + seq![',', ' '] + self.data_type.text() + seq![',', ' '] + self.data_point.text() + seq![',', ' '] + self.wrapping.text() + seq![',', ' '] + self.linearity.text() + seq![',', ' '] + self.state_preferrence.text() + seq![',', ' '] + self.null_state.text() + seq![',', ' '] + self.field_type.text()
    }

    /// The flags in words.
    pub fn to_text(&self) -> (text: String)
        ensures
            text@ == self.text(),
    {
        proof {
            reveal_strlit(", ");
        }
        let mut text = String::from_str(self.item_type.as_str());
        text.append(", ");
        text.append(self.data_type.as_str());
        text.append(", ");
        text.append(self.data_point.as_str());
        text.append(", ");
        text.append(self.wrapping.as_str());
        text.append(", ");
        text.append(self.linearity.as_str());
        text.append(", ");
        text.append(self.state_preferrence.as_str());
        text.append(", ");
        text.append(self.null_state.as_str());
        text.append(", ");
        text.append(self.field_type.as_str());
        assert(text@ =~= self.text());
        text
    }
}

impl MainOutputData {
    /// The flags in words, in the order of their bits, with a comma and
    /// a space between them.
    pub open spec fn text(self) -> Seq<char> {
        self.item_type.text() + seq![',', ' '] + self.data_type.text() + seq![',', ' '] + self.data_point.text() + seq![',', ' '] + self.wrapping.text() + seq![',', ' '] + self.linearity.text() + seq![',', ' '] + self.state_preferrence.text() + seq![',', ' '] + self.null_state.text() + seq![',', ' '] + self.volatility.text() + seq![',', ' '] + self.field_type.text()
    }

    /// The flags in words.
    pub fn to_text(&self) -> (text: String)
        ensures
            text@ == self.text(),
    {
        proof {
            reveal_strlit(", ");
        }
        let mut text = String::from_str(self.item_type.as_str());
        text.append(", ");
        text.append(self.data_type.as_str());
        text.append(", ");
        text.append(self.data_point.as_str());
        text.append(", ");
        text.append(self.wrapping.as_str());
        text.append(", ");
        text.append(self.linearity.as_str());
        text.append(", ");
        text.append(self.state_preferrence.as_str());
        text.append(", ");
        text.append(self.null_state.as_str());
        text.append(", ");
        text.append(self.volatility.as_str());
        text.append(", ");
        text.append(self.field_type.as_str());
        assert(text@ =~= self.text());
        text
    }
}

/// A main tag in words: its name and, in round brackets, what it carries.
/// No tag is the empty text.
pub open spec fn main_tag_text(tag: Option<HidMainTag>) -> Seq<char> {
    match tag {
        Some(HidMainTag::Input(data)) => bracketed_text("Input"@, data.text()),
        Some(HidMainTag::Output(data)) => bracketed_text("Output"@, data.text()),
        Some(HidMainTag::Feature(data)) => bracketed_text("Feature"@, data.text()),
        Some(HidMainTag::Collection(collection)) => bracketed_text("Collection"@, collection.text()),
        Some(HidMainTag::EndCollection) => "End Collection"@,
        Some(HidMainTag::Reserved) => "Reserved"@,
        None => Seq::empty(),
    }
}

/// A global tag in words: its name and, in round brackets, its value, a
/// usage page by its name. No tag is the empty text.
pub open spec fn global_tag_text(tag: Option<HidGlobalTag>) -> Seq<char> {
    match tag {
        Some(HidGlobalTag::UsagePage(value)) => bracketed_text("Usage Page"@, usage_page_name(value)),
        Some(HidGlobalTag::LogicalMinimum(value)) => bracketed_text("Logical Minimum"@, decimal_text(value as int)),
        Some(HidGlobalTag::LogicalMaximum(value)) => bracketed_text("Logical Maximum"@, decimal_text(value as int)),
        Some(HidGlobalTag::PhysicalMinimum(value)) => bracketed_text("Physical Minimum"@, decimal_text(value as int)),
        Some(HidGlobalTag::PhysicalMaximum(value)) => bracketed_text("Physical Maximum"@, decimal_text(value as int)),
        Some(HidGlobalTag::UnitExponent(value)) => bracketed_text("Unit Exponent"@, decimal_text(value as int)),
        Some(HidGlobalTag::Unit(value)) => bracketed_text("Unit"@, decimal_text(value as int)),
        Some(HidGlobalTag::ReportSize(value)) => bracketed_text("Report Size"@, decimal_text(value as int)),
        Some(HidGlobalTag::ReportId(value)) => bracketed_text("Report ID"@, decimal_text(value as int)),
        Some(HidGlobalTag::ReportCount(value)) => bracketed_text("Report Count"@, decimal_text(value as int)),
        Some(HidGlobalTag::Push(value)) => bracketed_text("Push"@, decimal_text(value as int)),
        Some(HidGlobalTag::Pop(value)) => bracketed_text("Pop"@, decimal_text(value as int)),
        Some(HidGlobalTag::Reserved(value)) => bracketed_text("Reserved"@, decimal_text(value as int)),
        None => Seq::empty(),
    }
}

/// A local tag in words: its name and, in round brackets, its value, a
/// usage by its name on the usage page `usage_page`. No tag is the
/// empty text.
pub open spec fn local_tag_text(usage_page: Option<u32>, tag: Option<HidLocalTag>) -> Seq<char> {
    match tag {
        Some(HidLocalTag::Usage(value)) => bracketed_text("Usage"@, usage_name(usage_page, value)),
        Some(HidLocalTag::UsageMinimum(value)) => bracketed_text("Usage Minimum"@, decimal_text(value as int)),
        Some(HidLocalTag::UsageMaximum(value)) => bracketed_text("Usage Maximum"@, decimal_text(value as int)),
        Some(HidLocalTag::DesignatorIndex(value)) => bracketed_text("Designator Index"@, decimal_text(value as int)),
        Some(HidLocalTag::DesignatorMinimum(value)) => bracketed_text("Designator Minimum"@, decimal_text(value as int)),
        Some(HidLocalTag::DesignatorMaximum(value)) => bracketed_text("Designator Maximum"@, decimal_text(value as int)),
        Some(HidLocalTag::StringIndex(value)) => bracketed_text("String Index"@, decimal_text(value as int)),
        Some(HidLocalTag::StringMinimum(value)) => bracketed_text("String Minimum"@, decimal_text(value as int)),
        Some(HidLocalTag::StringMaximum(value)) => bracketed_text("String Maximum"@, decimal_text(value as int)),
        Some(HidLocalTag::Delimiter(value)) => bracketed_text("Delimiter"@, decimal_text(value as int)),
        Some(HidLocalTag::Reserved(value)) => bracketed_text("Reserved"@, decimal_text(value as int)),
        None => Seq::empty(),
    }
}

/// An item in words: its tag, a space, and its class in square brackets.
/// An item of unknown class has no tag to show.
pub open spec fn item_text(item: HidItemView) -> Seq<char> {
    let tag = match item.item_type {
        HidItemType::Main => main_tag_text(item.main_tag),
        HidItemType::Global => global_tag_text(item.global_tag),
        HidItemType::Local => local_tag_text(item.usage_page, item.local_tag),
        HidItemType::Unknown => Seq::empty(),
    };
    tag + seq![' ', '['] + item.item_type.text() + seq![']']
}

/// The main tag of `item` in words.
pub fn get_main_tag_name(item: &HidItem) -> (name: String)
    ensures
        name@ == main_tag_text(item.main_tag),
{
    match item.main_tag {
        Some(HidMainTag::Input(data)) => {
            let inner = data.to_text();
            format_bracketed("Input", inner.as_str())
        },
        Some(HidMainTag::Output(data)) => {
            let inner = data.to_text();
            format_bracketed("Output", inner.as_str())
        },
        Some(HidMainTag::Feature(data)) => {
            let inner = data.to_text();
            format_bracketed("Feature", inner.as_str())
        },
        Some(HidMainTag::Collection(collection)) => format_bracketed("Collection", collection.as_str()),
        Some(HidMainTag::EndCollection) => "End Collection".to_string(),
        Some(HidMainTag::Reserved) => "Reserved".to_string(),
        None => String::new(),
    }
}

/// The global tag of `item` in words.
pub fn get_global_tag_name(item: &HidItem) -> (name: String)
    ensures
        name@ == global_tag_text(item.global_tag),
{
    match item.global_tag {
        Some(HidGlobalTag::UsagePage(value)) => {
            let inner = get_usage_page_name(value);
            format_bracketed("Usage Page", inner.as_str())
        },
        Some(HidGlobalTag::LogicalMinimum(value)) => {
            let inner = format_signed(value);
            format_bracketed("Logical Minimum", inner.as_str())
        },
        Some(HidGlobalTag::LogicalMaximum(value)) => {
            let inner = format_signed(value);
            format_bracketed("Logical Maximum", inner.as_str())
        },
        Some(HidGlobalTag::PhysicalMinimum(value)) => {
            let inner = format_signed(value);
            format_bracketed("Physical Minimum", inner.as_str())
        },
        Some(HidGlobalTag::PhysicalMaximum(value)) => {
            let inner = format_signed(value);
            format_bracketed("Physical Maximum", inner.as_str())
        },
        Some(HidGlobalTag::UnitExponent(value)) => {
            let inner = format_signed(value);
            format_bracketed("Unit Exponent", inner.as_str())
        },
        Some(HidGlobalTag::Unit(value)) => {
            let inner = format_signed(value);
            format_bracketed("Unit", inner.as_str())
        },
        Some(HidGlobalTag::ReportSize(value)) => {
            let inner = format_unsigned(value);
            format_bracketed("Report Size", inner.as_str())
        },
        Some(HidGlobalTag::ReportId(value)) => {
            let inner = format_unsigned(value);
            format_bracketed("Report ID", inner.as_str())
        },
        Some(HidGlobalTag::ReportCount(value)) => {
            let inner = format_unsigned(value);
            format_bracketed("Report Count", inner.as_str())
        },
        Some(HidGlobalTag::Push(value)) => {
            let inner = format_signed(value);
            format_bracketed("Push", inner.as_str())
        },
        Some(HidGlobalTag::Pop(value)) => {
            let inner = format_signed(value);
            format_bracketed("Pop", inner.as_str())
        },
        Some(HidGlobalTag::Reserved(value)) => {
            let inner = format_signed(value);
            format_bracketed("Reserved", inner.as_str())
        },
        None => String::new(),
    }
}

/// The local tag of `item` in words.
pub fn get_local_tag_name(item: &HidItem) -> (name: String)
    ensures
        name@ == local_tag_text(item.usage_page, item.local_tag),
{
    match item.local_tag {
        Some(HidLocalTag::Usage(value)) => {
            let inner = get_usage_name(item.usage_page, value);
            format_bracketed("Usage", inner.as_str())
        },
        Some(HidLocalTag::UsageMinimum(value)) => {
            let inner = format_unsigned(value);
            format_bracketed("Usage Minimum", inner.as_str())
        },
        Some(HidLocalTag::UsageMaximum(value)) => {
            let inner = format_unsigned(value);
            format_bracketed("Usage Maximum", inner.as_str())
        },
        Some(HidLocalTag::DesignatorIndex(value)) => {
            let inner = format_unsigned(value);
            format_bracketed("Designator Index", inner.as_str())
        },
        Some(HidLocalTag::DesignatorMinimum(value)) => {
            let inner = format_unsigned(value);
            format_bracketed("Designator Minimum", inner.as_str())
        },
        Some(HidLocalTag::DesignatorMaximum(value)) => {
            let inner = format_unsigned(value);
            format_bracketed("Designator Maximum", inner.as_str())
        },
        Some(HidLocalTag::StringIndex(value)) => {
            let inner = format_unsigned(value);
            format_bracketed("String Index", inner.as_str())
        },
        Some(HidLocalTag::StringMinimum(value)) => {
            let inner = format_unsigned(value);
            format_bracketed("String Minimum", inner.as_str())
        },
        Some(HidLocalTag::StringMaximum(value)) => {
            let inner = format_unsigned(value);
            format_bracketed("String Maximum", inner.as_str())
        },
        Some(HidLocalTag::Delimiter(value)) => {
            let inner = format_unsigned(value);
            format_bracketed("Delimiter", inner.as_str())
        },
        Some(HidLocalTag::Reserved(value)) => {
            let inner = format_unsigned(value);
            format_bracketed("Reserved", inner.as_str())
        },
        None => String::new(),
    }
}

impl HidItem {
    /// The item in words: its tag, a space, and its class in square
    /// brackets.
    pub fn to_text(&self) -> (text: String)
        ensures
            text@ == item_text(self@),
    {
        proof {
            reveal_strlit(" [");
            reveal_strlit("]");
        }
        let mut text = match self.item_type {
            HidItemType::Main => get_main_tag_name(self),
            HidItemType::Global => get_global_tag_name(self),
            HidItemType::Local => get_local_tag_name(self),
            HidItemType::Unknown => String::new(),
        };
        text.append(" [");
        text.append(self.item_type.as_str());
        text.append("]");
        assert(text@ =~= item_text(self@));
        text
    }
}

} // verus!
