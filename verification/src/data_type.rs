//! The numeric types of the language, which of them convert to which
//! without being asked, and the type of an operation on two of them.

use crate::message::{
    message_args_view, number_arg, text_arg, Message, MessageArg, MessageArgView,
    MessageValueView, MessageView,
};
use crate::token::{bool_text, bool_to_text};
use crate::unicode::{json_quote, json_string};
use vstd::prelude::*;
use vstd::string::*;

verus! {

/// The twelve numeric types.
#[derive(Debug, Clone, Copy, PartialEq, Eq, Structural)]
pub enum KnownDataType {
    /// Unsigned, 8 bits.
    UInt8,
    /// Unsigned, 16 bits.
    UInt16,
    /// Unsigned, 32 bits.
    UInt32,
    /// Unsigned, 64 bits.
    UInt64,
    /// Signed, 8 bits.
    Int8,
    /// Signed, 16 bits.
    Int16,
    /// Signed, 32 bits.
    Int32,
    /// Signed, 64 bits.
    Int64,
    /// Signed, as wide as the platform has it.
    Int,
    /// Unsigned, as wide as the platform has it.
    UInt,
    /// Floating point, 32 bits.
    Float32,
    /// Floating point, 64 bits.
    Double,
}

/// A type: one of the numeric types, or a type that a program names and
/// that is not resolved here.
#[derive(Debug, PartialEq, Eq)]
pub enum DataType {
    /// A numeric type.
    Known(KnownDataType),
    /// A type known by its name only.
    UserDefined(String),
}

/// The mathematical content of a [`DataType`].
pub ghost enum DataTypeView {
    Known(KnownDataType),
    UserDefined(Seq<char>),
}

impl DeepView for DataType {
    type V = DataTypeView;

    open spec fn deep_view(&self) -> DataTypeView {
        match self {
            DataType::Known(known) => DataTypeView::Known(*known),
            DataType::UserDefined(name) => DataTypeView::UserDefined(name@),
        }
    }
}

impl KnownDataType {
    /// The width in bits. The types of platform width count as 32 bits.
    pub open spec fn bits(self) -> u32 {
        match self {
            KnownDataType::UInt8 | KnownDataType::Int8 => 8,
            KnownDataType::UInt16 | KnownDataType::Int16 => 16,
            KnownDataType::UInt32
            | KnownDataType::Int32
            | KnownDataType::Int
            | KnownDataType::UInt
            | KnownDataType::Float32 => 32,
            KnownDataType::UInt64 | KnownDataType::Int64 | KnownDataType::Double => 64,
        }
    }

    /// Whether the type is a signed integer.
    pub open spec fn signed(self) -> bool {
        self == KnownDataType::Int8 || self == KnownDataType::Int16 || self == KnownDataType::Int32
            || self == KnownDataType::Int64 || self == KnownDataType::Int
    }

    /// Whether the type is an unsigned integer.
    pub open spec fn unsigned(self) -> bool {
        self == KnownDataType::UInt8 || self == KnownDataType::UInt16 || self
            == KnownDataType::UInt32 || self == KnownDataType::UInt64 || self
            == KnownDataType::UInt
    }

    /// Whether the type is a floating-point type.
    pub open spec fn floating(self) -> bool {
        self == KnownDataType::Float32 || self == KnownDataType::Double
    }

    /// The name under which the catalogue describes the type.
    pub open spec fn name(self) -> Seq<char> {
        match self {
            KnownDataType::UInt8 => "uint8"@,
            KnownDataType::UInt16 => "uint16"@,
            KnownDataType::UInt32 => "uint32"@,
            KnownDataType::UInt64 => "uint64"@,
            KnownDataType::Int8 => "int8"@,
            KnownDataType::Int16 => "int16"@,
            KnownDataType::Int32 => "int32"@,
            KnownDataType::Int64 => "int64"@,
            KnownDataType::Int => "int"@,
            KnownDataType::UInt => "uint"@,
            KnownDataType::Float32 => "float32"@,
            KnownDataType::Double => "double"@,
        }
    }

    /// The text that `to_string` gives for the type.
    pub open spec fn text(self) -> Seq<char> {
        match self {
            KnownDataType::UInt8 => "uint8"@,
            KnownDataType::UInt16 => "uint16"@,
            KnownDataType::UInt32 => "uint32"@,
            KnownDataType::UInt64 => "uint64"@,
            KnownDataType::Int8 => "uint8"@,
            KnownDataType::Int16 => "int16"@,
            KnownDataType::Int32 => "int32"@,
            KnownDataType::Int64 => "int64"@,
            KnownDataType::Int => "int"@,
            KnownDataType::UInt => "uInt"@,
            KnownDataType::Float32 => "float32"@,
            KnownDataType::Double => "double"@,
        }
    }
}

impl DataTypeView {
    /// Whether two types are the same: both numeric, and the same of
    /// the twelve.
    pub open spec fn is_same(self, other: DataTypeView) -> bool {
        self is Known && other is Known && self->Known_0 == other->Known_0
    }

    /// The width in bits; a type known by name has none.
    pub open spec fn bit_size(self) -> u32 {
        match self {
            DataTypeView::Known(known) => known.bits(),
            DataTypeView::UserDefined(_) => 0,
        }
    }

    /// Whether the type is a signed integer.
    pub open spec fn is_signed_integer(self) -> bool {
        self is Known && self->Known_0.signed()
    }

    /// Whether the type is an unsigned integer.
    pub open spec fn is_unsigned_integer(self) -> bool {
        self is Known && self->Known_0.unsigned()
    }

    /// Whether the type is an integer, signed or not.
    pub open spec fn is_generic_integer(self) -> bool {
        self.is_signed_integer() || self.is_unsigned_integer()
    }

    /// Whether the type is a floating-point type.
    pub open spec fn is_floating_point(self) -> bool {
        self is Known && self->Known_0.floating()
    }

    /// Whether the type is numeric.
    pub open spec fn is_numeric(self) -> bool {
        self.is_generic_integer() || self.is_floating_point()
    }

    /// Whether a value of this type becomes one of `target` without a
    /// cast. An integer becomes an integer of the same signedness that is
    /// at least as wide, and any float. A float becomes a float that is
    /// at least as wide. Nothing else converts.
    pub open spec fn can_implicitly_cast_to(self, target: DataTypeView) -> bool {
        if self.is_signed_integer() {
            (target.is_signed_integer() && target.bit_size() >= self.bit_size())
                || target.is_floating_point()
        } else if self.is_unsigned_integer() {
            (target.is_unsigned_integer() && target.bit_size() >= self.bit_size())
                || target.is_floating_point()
        } else if self.is_floating_point() {
            target.is_floating_point() && target.bit_size() >= self.bit_size()
        } else {
            false
        }
    }

    /// The type of an operation on a left and a right operand: their
    /// type where they are the same, else the left type where the right
    /// one converts to it, else the right type where the left one
    /// converts to it, else none.
    pub open spec fn binary_result(self, right: DataTypeView) -> Option<DataTypeView> {
        if self.is_same(right) {
            Some(self)
        } else if right.can_implicitly_cast_to(self) {
            Some(self)
        } else if self.can_implicitly_cast_to(right) {
            Some(right)
        } else {
            None
        }
    }

    /// The text that `to_string` gives for the type.
    pub open spec fn text(self) -> Seq<char> {
        match self {
            DataTypeView::Known(known) => known.text(),
            DataTypeView::UserDefined(name) => name,
        }
    }

    /// The name under which the catalogue describes the type.
    pub open spec fn name(self) -> Seq<char> {
        match self {
            DataTypeView::Known(known) => known.name(),
            DataTypeView::UserDefined(name) => name,
        }
    }

    /// The key of the catalogue entry that describes the type.
    pub open spec fn description_key(self) -> Seq<char> {
        "data-type-description-"@ + self.name()
    }

    /// The description of the type: the entry for it, with the value
    /// to show as a JSON string if there is one, the capitalization, the
    /// count and the two switches. Where the catalogue has no entry, a
    /// type known by name is described by its name and a numeric type by
    /// the key.
    pub open spec fn description(
        self,
        count: usize,
        capitalization: Seq<char>,
        value: Option<Seq<char>>,
        show_count: bool,
    ) -> MessageView {
        MessageView::Entry {
            key: self.description_key(),
            args: seq![
                match value {
                    Some(text) => text_arg("value"@, json_string(text)),
                    None => MessageArgView { name: "value"@, value: MessageValueView::Absent },
                },
                text_arg("capitalization"@, capitalization),
                number_arg("count"@, count),
                text_arg("show_count"@, bool_text(show_count)),
                text_arg("show_value"@, bool_text(value is Some)),
            ],
            default_value: Some(
                match self {
                    DataTypeView::Known(_) => self.description_key(),
                    DataTypeView::UserDefined(name) => name,
                },
            ),
        }
    }
}

impl Clone for DataType {
    /// The same type.
    fn clone(&self) -> (data_type: DataType)
        ensures
            data_type.deep_view() == self.deep_view(),
    {
        match self {
            DataType::Known(known) => DataType::Known(*known),
            DataType::UserDefined(name) => DataType::UserDefined(name.clone()),
        }
    }
}

impl DataType {
    /// The name of the type as text.
    pub fn to_string(&self) -> (text: String)
        ensures
            text@ == self.deep_view().text(),
    {
        match self {
            DataType::Known(known) => match known {
                KnownDataType::UInt8 => "uint8".to_string(),
                KnownDataType::UInt16 => "uint16".to_string(),
                KnownDataType::UInt32 => "uint32".to_string(),
                KnownDataType::UInt64 => "uint64".to_string(),
                KnownDataType::Int8 => "uint8".to_string(),
                KnownDataType::Int16 => "int16".to_string(),
                KnownDataType::Int32 => "int32".to_string(),
                KnownDataType::Int64 => "int64".to_string(),
                KnownDataType::Int => "int".to_string(),
                KnownDataType::UInt => "uInt".to_string(),
                KnownDataType::Float32 => "float32".to_string(),
                KnownDataType::Double => "double".to_string(),
            },
            DataType::UserDefined(name) => name.clone(),
        }
    }

    /// The name under which the catalogue describes the type.
    fn name(&self) -> (name: String)
        ensures
            name@ == self.deep_view().name(),
    {
        match self {
            DataType::Known(known) => match known {
                KnownDataType::UInt8 => "uint8".to_string(),
                KnownDataType::UInt16 => "uint16".to_string(),
                KnownDataType::UInt32 => "uint32".to_string(),
                KnownDataType::UInt64 => "uint64".to_string(),
                KnownDataType::Int8 => "int8".to_string(),
                KnownDataType::Int16 => "int16".to_string(),
                KnownDataType::Int32 => "int32".to_string(),
                KnownDataType::Int64 => "int64".to_string(),
                KnownDataType::Int => "int".to_string(),
                KnownDataType::UInt => "uint".to_string(),
                KnownDataType::Float32 => "float32".to_string(),
                KnownDataType::Double => "double".to_string(),
            },
            DataType::UserDefined(name) => name.clone(),
        }
    }

    /// A description of the type for people to read.
    pub fn description(
        &self,
        count: usize,
        capitalization: &str,
        value: Option<String>,
        show_count: bool,
    ) -> (message: Message)
        ensures
            message.deep_view() == self.deep_view().description(
                count,
                capitalization@,
                value.deep_view(),
                show_count,
            ),
    {
        let name = self.name();
        let key = "data-type-description-".to_string().concat(name.as_str());
        let default_value = match self {
            DataType::Known(_) => key.clone(),
            DataType::UserDefined(name) => name.clone(),
        };
        let mut args: Vec<MessageArg> = Vec::new();
        match &value {
            Some(text) => args.push(MessageArg::text("value", json_quote(text.as_str()))),
            None => args.push(MessageArg::absent("value")),
        }
        args.push(MessageArg::text("capitalization", capitalization.to_string()));
        args.push(MessageArg::number("count", count));
        args.push(MessageArg::text("show_count", bool_to_text(show_count)));
        args.push(MessageArg::text("show_value", bool_to_text(value.is_some())));
        let message = Message::entry_or(key, args, default_value);
        proof {
            assert(message_args_view(args@) =~= self.deep_view().description(
                count,
                capitalization@,
                value.deep_view(),
                show_count,
            )->Entry_args);
        }
        message
    }

    /// Whether two types are the same: both numeric, and the same of
    /// the twelve.
    pub fn is_same(lhs: &DataType, rhs: &DataType) -> (result: bool)
        ensures
            result == lhs.deep_view().is_same(rhs.deep_view()),
    {
        match (lhs, rhs) {
            (DataType::Known(left), DataType::Known(right)) => *left == *right,
            _ => false,
        }
    }

    /// The width in bits; a type known by name has none.
    pub fn get_bit_size(&self) -> (bits: u32)
        ensures
            bits == self.deep_view().bit_size(),
    {
        match self {
            DataType::Known(KnownDataType::UInt8) => 8,
            DataType::Known(KnownDataType::UInt16) => 16,
            DataType::Known(KnownDataType::UInt32) => 32,
            DataType::Known(KnownDataType::UInt64) => 64,
            DataType::Known(KnownDataType::Int8) => 8,
            DataType::Known(KnownDataType::Int16) => 16,
            DataType::Known(KnownDataType::Int32) => 32,
            DataType::Known(KnownDataType::Int64) => 64,
            DataType::Known(KnownDataType::Int) => 32,
            DataType::Known(KnownDataType::UInt) => 32,
            DataType::Known(KnownDataType::Float32) => 32,
            DataType::Known(KnownDataType::Double) => 64,
            DataType::UserDefined(_) => 0,
        }
    }

    /// Whether a value of `source` becomes one of `target` without a
    /// cast.
    pub fn can_implictly_cast_to(source: &DataType, target: &DataType) -> (result: bool)
        ensures
            result == source.deep_view().can_implicitly_cast_to(target.deep_view()),
    {
        let source_bit_size = source.get_bit_size();
        if source.is_signed_integer() {
            (target.is_signed_integer() && target.get_bit_size() >= source_bit_size)
                || target.is_floating_point()
        } else if source.is_unsigned_integer() {
            (target.is_unsigned_integer() && target.get_bit_size() >= source_bit_size)
                || target.is_floating_point()
        } else if source.is_floating_point() {
            target.is_floating_point() && target.get_bit_size() >= source_bit_size
        } else {
            false
        }
    }

    /// Whether the type is a signed integer.
    pub fn is_signed_integer(&self) -> (result: bool)
        ensures
            result == self.deep_view().is_signed_integer(),
    {
        match self {
            DataType::Known(KnownDataType::Int8)
            | DataType::Known(KnownDataType::Int16)
            | DataType::Known(KnownDataType::Int32)
            | DataType::Known(KnownDataType::Int64)
            | DataType::Known(KnownDataType::Int) => true,
            _ => false,
        }
    }

    /// Whether the type is an unsigned integer.
    pub fn is_unsigned_integer(&self) -> (result: bool)
        ensures
            result == self.deep_view().is_unsigned_integer(),
    {
        match self {
            DataType::Known(KnownDataType::UInt8)
            | DataType::Known(KnownDataType::UInt16)
            | DataType::Known(KnownDataType::UInt32)
            | DataType::Known(KnownDataType::UInt64)
            | DataType::Known(KnownDataType::UInt) => true,
            _ => false,
        }
    }

    /// Whether the type is an integer, signed or not.
    pub fn is_generic_integer(&self) -> (result: bool)
        ensures
            result == self.deep_view().is_generic_integer(),
    {
        self.is_signed_integer() || self.is_unsigned_integer()
    }

    /// Whether the type is a floating-point type.
    pub fn is_floating_point(&self) -> (result: bool)
        ensures
            result == self.deep_view().is_floating_point(),
    {
        match self {
            DataType::Known(KnownDataType::Float32) | DataType::Known(KnownDataType::Double) => true,
            _ => false,
        }
    }

    /// Whether the type is numeric.
    pub fn is_numeric(&self) -> (result: bool)
        ensures
            result == self.deep_view().is_numeric(),
    {
        self.is_generic_integer() || self.is_floating_point()
    }

    /// The type of an operation on a left and a right operand, if the
    /// two go together.
    pub fn binary_expr_result_data_type(left: &DataType, right: &DataType) -> (result: Option<
        DataType,
    >)
        ensures
            result.deep_view() == left.deep_view().binary_result(right.deep_view()),
    {
        if DataType::is_same(left, right) {
            Some(left.clone())
        } else if DataType::can_implictly_cast_to(right, left) {
            Some(left.clone())
        } else if DataType::can_implictly_cast_to(left, right) {
            Some(right.clone())
        } else {
            None
        }
    }
}

/// An operation on two types has a type only where both are numeric,
/// and then its type is the left or the right one.
pub proof fn lemma_binary_result_numeric(left: DataTypeView, right: DataTypeView)
    requires
        left.binary_result(right) is Some,
    ensures
        left.is_numeric(),
        right.is_numeric(),
        left.binary_result(right) == Some(left) || left.binary_result(right) == Some(right),
{
}

/// Whether two types go together does not depend on their order.
pub proof fn lemma_binary_result_symmetric(left: DataTypeView, right: DataTypeView)
    ensures
        left.binary_result(right) is Some <==> right.binary_result(left) is Some,
{
}

/// No integer converts to an integer of the other signedness, and no
/// type known by name converts at all.
pub proof fn lemma_no_cross_signedness(source: DataTypeView, target: DataTypeView)
    ensures
        source.is_signed_integer() && target.is_unsigned_integer()
            ==> !source.can_implicitly_cast_to(target),
        source.is_unsigned_integer() && target.is_signed_integer()
            ==> !source.can_implicitly_cast_to(target),
        source is UserDefined ==> !source.can_implicitly_cast_to(target),
{
}

} // verus!
