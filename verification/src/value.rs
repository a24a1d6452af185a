//! Element types and the values that cross between columns and guest code.

use vstd::prelude::*;

verus! {

/// The element type of a column, for the element types that guest code can be handed.
#[derive(Debug, Clone, Copy, PartialEq, Eq, Structural)]
pub enum ColumnType {
    /// Every cell is null.
    Null,
    /// `true` or `false`.
    Boolean,
    /// 8-bit signed integer.
    Int8,
    /// 16-bit signed integer.
    Int16,
    /// 32-bit signed integer.
    Int32,
    /// 64-bit signed integer.
    Int64,
    /// Text in UTF-8.
    Utf8,
    /// A string of bytes.
    Binary,
}

/// What a cell of a column, or a guest object, holds: the mathematical model that
/// contracts are stated over.
pub enum Value {
    /// A null cell; on the guest side, the "no value" object.
    Null,
    /// A boolean.
    Bool(bool),
    /// An integer, of any size.
    Int(int),
    /// Text, as its characters.
    Text(Seq<char>),
    /// A string of bytes.
    Bytes(Seq<u8>),
    /// A guest object of a kind that no column can hold.
    Other,
}

impl Value {
    /// The number of payload bytes that the value takes in a variable-width column:
    /// the length of the UTF-8 encoding of a text, the length of a byte string, and
    /// nothing for the rest.
    pub open spec fn size(self) -> nat {
        match self {
            Value::Text(t) => vstd::utf8::encode_utf8(t).len(),
            Value::Bytes(b) => b.len(),
            _ => 0,
        }
    }
}

impl ColumnType {
    /// The least and the greatest integer of an integer type; `None` for the other types.
    pub open spec fn int_bounds(self) -> Option<(int, int)> {
        match self {
            ColumnType::Int8 => Some((-0x80, 0x7f)),
            ColumnType::Int16 => Some((-0x8000, 0x7fff)),
            ColumnType::Int32 => Some((-0x8000_0000, 0x7fff_ffff)),
            ColumnType::Int64 => Some((-0x8000_0000_0000_0000, 0x7fff_ffff_ffff_ffff)),
            _ => None,
        }
    }

    /// Whether a cell of this type can hold `v`. Null fits every type; any other value
    /// fits the one kind of type made for it, an integer only within the type's bounds.
    pub open spec fn admits(self, v: Value) -> bool {
        match v {
            Value::Null => true,
            Value::Bool(_) => self == ColumnType::Boolean,
            Value::Int(i) => match self.int_bounds() {
                Some((lo, hi)) => lo <= i <= hi,
                None => false,
            },
            Value::Text(_) => self == ColumnType::Utf8,
            Value::Bytes(_) => self == ColumnType::Binary,
            Value::Other => false,
        }
    }

    /// Whether a cell of this type can hold `value`.
    pub fn accepts(self, value: &GuestValue) -> (b: bool)
        ensures
            b == self.admits(value@),
    {
        match value {
            GuestValue::NoValue => true,
            GuestValue::Bool(_) => self == ColumnType::Boolean,
            GuestValue::Int(i) => match self {
                ColumnType::Int8 => -0x80 <= *i && *i <= 0x7f,
                ColumnType::Int16 => -0x8000 <= *i && *i <= 0x7fff,
                ColumnType::Int32 => -0x8000_0000 <= *i && *i <= 0x7fff_ffff,
                ColumnType::Int64 => true,
                _ => false,
            },
            GuestValue::Text(_) => self == ColumnType::Utf8,
            GuestValue::Bytes(_) => self == ColumnType::Binary,
            GuestValue::Other => false,
        }
    }
}

/// A guest object as the host holds it: the "no value" object, a boolean, an integer,
/// a text, a byte string, or an object of some other kind.
#[derive(Debug, PartialEq, Eq)]
pub enum GuestValue {
    /// The guest's "no value" object.
    NoValue,
    /// A guest boolean.
    Bool(bool),
    /// A guest integer that fits 64 bits.
    Int(i64),
    /// A guest text.
    Text(String),
    /// A guest byte string.
    Bytes(Vec<u8>),
    /// A guest object of any other kind, an integer beyond 64 bits among them.
    Other,
}

impl View for GuestValue {
    type V = Value;

    open spec fn view(&self) -> Value {
        match self {
            GuestValue::NoValue => Value::Null,
            GuestValue::Bool(b) => Value::Bool(*b),
            GuestValue::Int(i) => Value::Int(*i as int),
            GuestValue::Text(t) => Value::Text(t@),
            GuestValue::Bytes(b) => Value::Bytes(b@),
            GuestValue::Other => Value::Other,
        }
    }
}

/// A copy of the bytes.
pub(crate) fn copy_bytes(bytes: &Vec<u8>) -> (copy: Vec<u8>)
    ensures
        copy@ == bytes@,
{
    let mut copy: Vec<u8> = Vec::new();
    let mut i: usize = 0;
    while i < bytes.len()
        invariant
            i <= bytes@.len(),
            copy@ == bytes@.take(i as int),
        decreases bytes@.len() - i,
    {
        copy.push(bytes[i]);
        assert(copy@ =~= bytes@.take(i + 1));
        i = i + 1;
    }
    assert(bytes@.take(i as int) =~= bytes@);
    copy
}

impl Clone for GuestValue {
    fn clone(&self) -> (copy: GuestValue)
        ensures
            copy@ == self@,
    {
        match self {
            GuestValue::NoValue => GuestValue::NoValue,
            GuestValue::Bool(b) => GuestValue::Bool(*b),
            GuestValue::Int(i) => GuestValue::Int(*i),
            GuestValue::Text(t) => GuestValue::Text(t.clone()),
            GuestValue::Bytes(b) => GuestValue::Bytes(copy_bytes(b)),
            GuestValue::Other => GuestValue::Other,
        }
    }
}

impl GuestValue {
    /// Whether this is the guest's "no value" object.
    pub fn is_no_value(&self) -> (b: bool)
        ensures
            b == (self@ == Value::Null),
    {
        match self {
            GuestValue::NoValue => true,
            _ => false,
        }
    }

    /// Tells what a guest object is from what was seen of it: whether it is the "no
    /// value" object, and what it gave when taken as a boolean, as an integer, as a
    /// text and as a byte string. The first of these that applies decides, in this
    /// order, so that a guest boolean is never taken for the integer it also counts as.
    pub fn classify(
        is_none: bool,
        as_bool: Option<bool>,
        as_int: Option<i64>,
        as_text: Option<String>,
        as_bytes: Option<Vec<u8>>,
    ) -> (v: GuestValue)
        ensures
            v@ == classified(is_none, as_bool, as_int, as_text, as_bytes),
    {
        if is_none {
            return GuestValue::NoValue;
        }
        if let Some(b) = as_bool {
            return GuestValue::Bool(b);
        }
        if let Some(i) = as_int {
            return GuestValue::Int(i);
        }
        if let Some(t) = as_text {
            return GuestValue::Text(t);
        }
        if let Some(b) = as_bytes {
            return GuestValue::Bytes(b);
        }
        GuestValue::Other
    }
}

/// The value that `GuestValue::classify` gives.
pub open spec fn classified(
    is_none: bool,
    as_bool: Option<bool>,
    as_int: Option<i64>,
    as_text: Option<String>,
    as_bytes: Option<Vec<u8>>,
) -> Value {
    if is_none {
        Value::Null
    } else if let Some(b) = as_bool {
        Value::Bool(b)
    } else if let Some(i) = as_int {
        Value::Int(i as int)
    } else if let Some(t) = as_text {
        Value::Text(t@)
    } else if let Some(b) = as_bytes {
        Value::Bytes(b@)
    } else {
        Value::Other
    }
}

/// A machine integer that a column can hold: one of the signed integer types.
pub trait IntCell: Copy + Sized {
    /// The integer that the value stands for.
    spec fn as_int(self) -> int;

    /// The element type of the columns that hold this integer type.
    spec fn column_type() -> ColumnType;

    /// The value as a 64-bit integer.
    fn widen(self) -> (wide: i64)
        ensures
            wide == self.as_int(),
    ;

    /// The 64-bit integer `wide` in this type, which must be able to hold it.
    fn narrow(wide: i64) -> (cell: Self)
        requires
            Self::column_type().admits(Value::Int(wide as int)),
        ensures
            cell.as_int() == wide,
    ;
}

impl IntCell for i8 {
    open spec fn as_int(self) -> int {
        self as int
    }

    open spec fn column_type() -> ColumnType {
        ColumnType::Int8
    }

    fn widen(self) -> (wide: i64) {
        self as i64
    }

    fn narrow(wide: i64) -> (cell: i8) {
        wide as i8
    }
}

impl IntCell for i16 {
    open spec fn as_int(self) -> int {
        self as int
    }

    open spec fn column_type() -> ColumnType {
        ColumnType::Int16
    }

    fn widen(self) -> (wide: i64) {
        self as i64
    }

    fn narrow(wide: i64) -> (cell: i16) {
        wide as i16
    }
}

impl IntCell for i32 {
    open spec fn as_int(self) -> int {
        self as int
    }

    open spec fn column_type() -> ColumnType {
        ColumnType::Int32
    }

    fn widen(self) -> (wide: i64) {
        self as i64
    }

    fn narrow(wide: i64) -> (cell: i32) {
        wide as i32
    }
}

impl IntCell for i64 {
    open spec fn as_int(self) -> int {
        self as int
    }

    open spec fn column_type() -> ColumnType {
        ColumnType::Int64
    }

    fn widen(self) -> (wide: i64) {
        self
    }

    fn narrow(wide: i64) -> (cell: i64) {
        wide
    }
}

/// The cell that an optional boolean stands for.
pub open spec fn bool_value(cell: Option<bool>) -> Value {
    match cell {
        Some(b) => Value::Bool(b),
        None => Value::Null,
    }
}

/// The cell that an optional integer stands for.
pub open spec fn int_value<T: IntCell>(cell: Option<T>) -> Value {
    match cell {
        Some(i) => Value::Int(i.as_int()),
        None => Value::Null,
    }
}

/// The cell that an optional text stands for.
pub open spec fn text_value(cell: Option<String>) -> Value {
    match cell {
        Some(t) => Value::Text(t@),
        None => Value::Null,
    }
}

/// The cell that an optional byte string stands for.
pub open spec fn bytes_value(cell: Option<Vec<u8>>) -> Value {
    match cell {
        Some(b) => Value::Bytes(b@),
        None => Value::Null,
    }
}

/// The cells that a vector of optional booleans stands for.
pub open spec fn bool_values(cells: Seq<Option<bool>>) -> Seq<Value> {
    cells.map_values(|c: Option<bool>| bool_value(c))
}

/// The cells that a vector of optional integers stands for.
pub open spec fn int_values<T: IntCell>(cells: Seq<Option<T>>) -> Seq<Value> {
    cells.map_values(|c: Option<T>| int_value(c))
}

/// The cells that a vector of optional texts stands for.
pub open spec fn text_values(cells: Seq<Option<String>>) -> Seq<Value> {
    cells.map_values(|c: Option<String>| text_value(c))
}

/// The cells that a vector of optional byte strings stands for.
pub open spec fn bytes_values(cells: Seq<Option<Vec<u8>>>) -> Seq<Value> {
    cells.map_values(|c: Option<Vec<u8>>| bytes_value(c))
}

/// A column of `rows` cells that are all null.
pub open spec fn null_values(rows: nat) -> Seq<Value> {
    Seq::new(rows, |i: int| Value::Null)
}

/// The payload bytes of all the values together.
pub open spec fn payload(values: Seq<Value>) -> nat
    decreases values.len(),
{
    if values.len() == 0 {
        0
    } else {
        payload(values.drop_last()) + values.last().size()
    }
}

/// The most payload bytes that one column of text or of byte strings can hold.
pub open spec fn payload_limit() -> nat {
    0x7fff_ffff
}

/// The views of a vector of guest values, in order.
pub open spec fn values_of(values: Seq<GuestValue>) -> Seq<Value> {
    values.map_values(|v: GuestValue| v@)
}

} // verus!
