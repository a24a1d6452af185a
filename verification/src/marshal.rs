//! Conversion between the cells of a column and guest values, in both directions.

use crate::column::{column_cells, column_type, Column};
use crate::error::Error;
use crate::value::{
    bool_value, bool_values, bytes_value, bytes_values, copy_bytes, int_value, int_values,
    null_values, payload, payload_limit, text_value, text_values, values_of, ColumnType,
    GuestValue, IntCell, Value,
};
use vstd::prelude::*;

verus! {

/// Whether `row` is the first row whose value a column of type `ty` cannot hold.
pub open spec fn is_first_rejected(ty: ColumnType, values: Seq<Value>, row: int) -> bool {
    &&& 0 <= row < values.len()
    &&& !ty.admits(values[row])
    &&& forall|i: int| 0 <= i < row ==> ty.admits(#[trigger] values[i])
}

/// The first row whose value a column of type `ty` cannot hold, if there is one.
pub open spec fn first_rejected(ty: ColumnType, values: Seq<Value>) -> Option<int> {
    if exists|row: int| is_first_rejected(ty, values, row) {
        Some(choose|row: int| is_first_rejected(ty, values, row))
    } else {
        None
    }
}

/// Whether a column of type `ty` can hold every one of the values.
pub open spec fn all_admitted(ty: ColumnType, values: Seq<Value>) -> bool {
    forall|i: int| 0 <= i < values.len() ==> ty.admits(#[trigger] values[i])
}

/// Whether the values are more text or bytes than a column of type `ty` can hold.
pub open spec fn overfull(ty: ColumnType, values: Seq<Value>) -> bool {
    (ty == ColumnType::Utf8 || ty == ColumnType::Binary) && payload(values) > payload_limit()
}

/// What building a column of type `ty` from the values comes to: the cells of the
/// column, which are the values themselves, or the failure. A value that the type
/// cannot hold is reported with its row, the first such row if there are several;
/// values that fit but are too much together are reported as too large.
pub open spec fn built(ty: ColumnType, values: Seq<Value>) -> Result<Seq<Value>, Error> {
    match first_rejected(ty, values) {
        Some(row) => Err(Error::TypeMismatch(row as usize)),
        None => if overfull(ty, values) {
            Err(Error::TooLarge)
        } else {
            Ok(values)
        },
    }
}

/// Whether the cells can be those of a column of type `ty`.
pub open spec fn well_typed(ty: ColumnType, cells: Seq<Value>) -> bool {
    all_admitted(ty, cells) && !overfull(ty, cells)
}

/// The first rejected row is the only row that is first.
pub proof fn lemma_first_rejected_is(ty: ColumnType, values: Seq<Value>, row: int)
    requires
        is_first_rejected(ty, values, row),
    ensures
        first_rejected(ty, values) == Some(row),
{
    let chosen = choose|r: int| is_first_rejected(ty, values, r);
    assert(is_first_rejected(ty, values, chosen));
    if chosen < row {
        assert(ty.admits(values[chosen]));
    }
    if row < chosen {
        assert(ty.admits(values[row]));
    }
}

/// Where every value is admitted, no row is rejected.
pub proof fn lemma_none_rejected(ty: ColumnType, values: Seq<Value>)
    requires
        all_admitted(ty, values),
    ensures
        first_rejected(ty, values) == None::<int>,
{
    if exists|row: int| is_first_rejected(ty, values, row) {
        let row = choose|row: int| is_first_rejected(ty, values, row);
        assert(ty.admits(values[row]));
    }
}

/// Where a row is rejected, there is a first rejected row, at or before it.
pub proof fn lemma_rejected_has_first(ty: ColumnType, values: Seq<Value>, row: int)
    requires
        0 <= row < values.len(),
        !ty.admits(values[row]),
    ensures
        first_rejected(ty, values) matches Some(first) && first <= row,
    decreases row,
{
    if forall|i: int| 0 <= i < row ==> ty.admits(#[trigger] values[i]) {
        lemma_first_rejected_is(ty, values, row);
    } else {
        let earlier = choose|i: int| 0 <= i < row && !ty.admits(#[trigger] values[i]);
        lemma_rejected_has_first(ty, values, earlier);
    }
}

/// What `built` gives, case by case: the values themselves exactly where they are well
/// typed; else the first rejected row, which is a row of the values, as far as it fits a
/// machine word; else, for text and byte strings that fit one by one, that they are too
/// large together.
pub proof fn lemma_built_cases(ty: ColumnType, values: Seq<Value>)
    ensures
        match built(ty, values) {
            Ok(cells) => cells == values && well_typed(ty, values),
            Err(Error::TypeMismatch(row)) => exists|first: int|
                is_first_rejected(ty, values, first) && row == first as usize,
            Err(Error::TooLarge) => all_admitted(ty, values) && overfull(ty, values),
            Err(_) => false,
        },
        well_typed(ty, values) ==> built(ty, values) == Ok::<Seq<Value>, Error>(values),
{
    if all_admitted(ty, values) {
        lemma_none_rejected(ty, values);
    } else {
        let row = choose|i: int| 0 <= i < values.len() && !ty.admits(#[trigger] values[i]);
        lemma_rejected_has_first(ty, values, row);
        let first = first_rejected(ty, values)->0;
        assert(is_first_rejected(ty, values, first));
    }
}

/// Round trip: where every cell of a column is handed to guest code and the guest values
/// that come of it are built into a column of the same type again, the new column has
/// the cells of the old one, the same values and null in the same rows.
pub proof fn lemma_round_trip(column: Column, ty: ColumnType, values: Seq<GuestValue>)
    requires
        column_type(column) == Some(ty),
        well_typed(ty, column_cells(column)),
        values.len() == column_cells(column).len(),
        forall|row: int|
            0 <= row < values.len() ==> (#[trigger] values[row])@ == column_cells(column)[row],
    ensures
        built(ty, values_of(values)) == Ok::<Seq<Value>, Error>(column_cells(column)),
{
    assert(values_of(values) =~= column_cells(column));
    lemma_built_cases(ty, column_cells(column));
}

/// Nulls fit a column of any type, however many they are.
pub proof fn lemma_nulls_are_well_typed(ty: ColumnType, values: Seq<Value>)
    requires
        forall|i: int| 0 <= i < values.len() ==> #[trigger] values[i] == Value::Null,
    ensures
        well_typed(ty, values),
        payload(values) == 0,
    decreases values.len(),
{
    if values.len() > 0 {
        lemma_nulls_are_well_typed(ty, values.drop_last());
    }
}

/// The payload of the first `n + 1` values is that of the first `n` and the size of the
/// next one.
proof fn lemma_payload_step(values: Seq<Value>, n: int)
    requires
        0 <= n < values.len(),
    ensures
        payload(values.take(n + 1)) == payload(values.take(n)) + values[n].size(),
{
    assert(values.take(n + 1).drop_last() =~= values.take(n));
}

/// The payload of the first `n` values is no more than the payload of all.
proof fn lemma_payload_grows(values: Seq<Value>, n: int)
    requires
        0 <= n <= values.len(),
    ensures
        payload(values.take(n)) <= payload(values),
    decreases values.len() - n,
{
    if n < values.len() {
        lemma_payload_step(values, n);
        lemma_payload_grows(values, n + 1);
    } else {
        assert(values.take(n) =~= values);
    }
}

/// The guest value for the cell of `column` in row `row`: the "no value" object for a
/// null cell, and the cell's own value for any other. A column of an element type that
/// has no conversion is refused.
pub fn to_guest_object(column: &Column, row: usize) -> (converted: Result<GuestValue, Error>)
    requires
        row < column_cells(*column).len(),
    ensures
        column_type(*column) is None ==> converted == Err::<GuestValue, Error>(
            Error::UnsupportedType,
        ),
        column_type(*column) matches Some(ty) ==> (converted matches Ok(value) && value@
            == column_cells(*column)[row as int] && ty.admits(value@)),
{
    let ty = match column.kind() {
        Some(ty) => ty,
        None => {
            return Err(Error::UnsupportedType);
        },
    };
    assert(ty.admits(column_cells(*column)[row as int]));
    if column.is_null_at(row) {
        return Ok(GuestValue::NoValue);
    }
    match ty {
        ColumnType::Null => Ok(GuestValue::NoValue),
        ColumnType::Boolean => Ok(GuestValue::Bool(column.bool_at(row))),
        ColumnType::Int8 => Ok(GuestValue::Int(column.int8_at(row).widen())),
        ColumnType::Int16 => Ok(GuestValue::Int(column.int16_at(row).widen())),
        ColumnType::Int32 => Ok(GuestValue::Int(column.int32_at(row).widen())),
        ColumnType::Int64 => Ok(GuestValue::Int(column.int64_at(row).widen())),
        ColumnType::Utf8 => Ok(GuestValue::Text(column.text_at(row))),
        ColumnType::Binary => Ok(GuestValue::Bytes(column.bytes_at(row))),
    }
}

/// The guest value for the cell of `column` in row `row`, as `to_guest_object` gives it,
/// or `None` where the column has no such row.
pub fn guest_object_at(
    column: &Column,
    row: usize,
) -> (converted: Option<Result<GuestValue, Error>>)
    ensures
        row >= column_cells(*column).len() ==> converted is None,
        row < column_cells(*column).len() ==> match column_type(*column) {
            Some(ty) => converted matches Some(Ok(value)) && value@ == column_cells(
                *column,
            )[row as int] && ty.admits(value@),
            None => converted == Some(Err::<GuestValue, Error>(Error::UnsupportedType)),
        },
{
    if row < column.len() {
        Some(to_guest_object(column, row))
    } else {
        None
    }
}

/// The first row whose value a column of type `ty` cannot hold.
pub fn find_rejected(ty: ColumnType, values: &Vec<GuestValue>) -> (found: Option<usize>)
    ensures
        match found {
            Some(row) => first_rejected(ty, values_of(values@)) == Some(row as int),
            None => all_admitted(ty, values_of(values@)),
        },
{
    let mut i: usize = 0;
    while i < values.len()
        invariant
            i <= values@.len(),
            forall|j: int| 0 <= j < i ==> ty.admits(#[trigger] values_of(values@)[j]),
        decreases values@.len() - i,
    {
        if !ty.accepts(&values[i]) {
            proof {
                lemma_first_rejected_is(ty, values_of(values@), i as int);
            }
            return Some(i);
        }
        i = i + 1;
    }
    None
}

/// The values as the cells of a boolean column.
fn collect_bools(values: &Vec<GuestValue>) -> (cells: Vec<Option<bool>>)
    requires
        all_admitted(ColumnType::Boolean, values_of(values@)),
    ensures
        bool_values(cells@) == values_of(values@),
{
    let mut cells: Vec<Option<bool>> = Vec::new();
    let mut i: usize = 0;
    while i < values.len()
        invariant
            i <= values@.len(),
            cells@.len() == i,
            all_admitted(ColumnType::Boolean, values_of(values@)),
            forall|j: int| 0 <= j < i ==> bool_value(#[trigger] cells@[j]) == values@[j]@,
        decreases values@.len() - i,
    {
        assert(ColumnType::Boolean.admits(values_of(values@)[i as int]));
        let cell = match &values[i] {
            GuestValue::Bool(b) => Some(*b),
            _ => None,
        };
        cells.push(cell);
        i = i + 1;
    }
    assert(bool_values(cells@) =~= values_of(values@));
    cells
}

/// The values as the cells of a column of the integer type `T`.
fn collect_ints<T: IntCell>(values: &Vec<GuestValue>) -> (cells: Vec<Option<T>>)
    requires
        T::column_type().int_bounds() is Some,
        all_admitted(T::column_type(), values_of(values@)),
    ensures
        int_values(cells@) == values_of(values@),
{
    let mut cells: Vec<Option<T>> = Vec::new();
    let mut i: usize = 0;
    while i < values.len()
        invariant
            i <= values@.len(),
            cells@.len() == i,
            T::column_type().int_bounds() is Some,
            all_admitted(T::column_type(), values_of(values@)),
            forall|j: int| 0 <= j < i ==> int_value(#[trigger] cells@[j]) == values@[j]@,
        decreases values@.len() - i,
    {
        assert(T::column_type().admits(values_of(values@)[i as int]));
        let cell = match &values[i] {
            GuestValue::Int(wide) => Some(T::narrow(*wide)),
            _ => None,
        };
        cells.push(cell);
        i = i + 1;
    }
    assert(int_values(cells@) =~= values_of(values@));
    cells
}

/// The values as the cells of a text column, unless they are too much for one.
fn collect_texts(values: &Vec<GuestValue>) -> (cells: Option<Vec<Option<String>>>)
    requires
        all_admitted(ColumnType::Utf8, values_of(values@)),
    ensures
        match cells {
            Some(cells) => text_values(cells@) == values_of(values@) && payload(
                values_of(values@),
            ) <= payload_limit(),
            None => payload(values_of(values@)) > payload_limit(),
        },
{
    let mut cells: Vec<Option<String>> = Vec::new();
    let mut total: usize = 0;
    let mut i: usize = 0;
    while i < values.len()
        invariant
            i <= values@.len(),
            cells@.len() == i,
            all_admitted(ColumnType::Utf8, values_of(values@)),
            forall|j: int| 0 <= j < i ==> text_value(#[trigger] cells@[j]) == values@[j]@,
            total == payload(values_of(values@).take(i as int)),
            total <= payload_limit(),
        decreases values@.len() - i,
    {
        assert(ColumnType::Utf8.admits(values_of(values@)[i as int]));
        proof {
            lemma_payload_step(values_of(values@), i as int);
            lemma_payload_grows(values_of(values@), i + 1);
        }
        let cell = match &values[i] {
            GuestValue::Text(text) => {
                let size: usize = text.as_str().as_bytes().len();
                if size > 0x7fff_ffff - total {
                    return None;
                }
                total = total + size;
                Some(text.clone())
            },
            _ => None,
        };
        cells.push(cell);
        i = i + 1;
    }
    assert(values_of(values@).take(i as int) =~= values_of(values@));
    assert(text_values(cells@) =~= values_of(values@));
    Some(cells)
}

/// The values as the cells of a column of byte strings, unless they are too much for one.
fn collect_byte_strings(values: &Vec<GuestValue>) -> (cells: Option<Vec<Option<Vec<u8>>>>)
    requires
        all_admitted(ColumnType::Binary, values_of(values@)),
    ensures
        match cells {
            Some(cells) => bytes_values(cells@) == values_of(values@) && payload(
                values_of(values@),
            ) <= payload_limit(),
            None => payload(values_of(values@)) > payload_limit(),
        },
{
    let mut cells: Vec<Option<Vec<u8>>> = Vec::new();
    let mut total: usize = 0;
    let mut i: usize = 0;
    while i < values.len()
        invariant
            i <= values@.len(),
            cells@.len() == i,
            all_admitted(ColumnType::Binary, values_of(values@)),
            forall|j: int| 0 <= j < i ==> bytes_value(#[trigger] cells@[j]) == values@[j]@,
            total == payload(values_of(values@).take(i as int)),
            total <= payload_limit(),
        decreases values@.len() - i,
    {
        assert(ColumnType::Binary.admits(values_of(values@)[i as int]));
        proof {
            lemma_payload_step(values_of(values@), i as int);
            lemma_payload_grows(values_of(values@), i + 1);
        }
        let cell = match &values[i] {
            GuestValue::Bytes(bytes) => {
                let size: usize = bytes.len();
                if size > 0x7fff_ffff - total {
                    return None;
                }
                total = total + size;
                Some(copy_bytes(bytes))
            },
            _ => None,
        };
        cells.push(cell);
        i = i + 1;
    }
    assert(values_of(values@).take(i as int) =~= values_of(values@));
    assert(bytes_values(cells@) =~= values_of(values@));
    Some(cells)
}

/// Builds a column of type `ty` with one cell for each value, in the order given: a null
/// cell for the "no value" object, and for any other value a cell that holds it. A value
/// that the type cannot hold fails the whole build, with the index of its row.
pub fn build_array(ty: ColumnType, values: &Vec<GuestValue>) -> (made: Result<Column, Error>)
    ensures
        match built(ty, values_of(values@)) {
            Ok(cells) => made matches Ok(column) && column_type(column) == Some(ty)
                && column_cells(column) == cells,
            Err(error) => made == Err::<Column, Error>(error),
        },
{
    match find_rejected(ty, values) {
        Some(row) => {
            return Err(Error::TypeMismatch(row));
        },
        None => {},
    }
    proof {
        lemma_none_rejected(ty, values_of(values@));
    }
    match ty {
        ColumnType::Null => {
            assert(null_values(values@.len()) =~= values_of(values@));
            Ok(Column::from_nulls(values.len()))
        },
        ColumnType::Boolean => Ok(Column::from_bools(collect_bools(values))),
        ColumnType::Int8 => Ok(Column::from_int8(collect_ints::<i8>(values))),
        ColumnType::Int16 => Ok(Column::from_int16(collect_ints::<i16>(values))),
        ColumnType::Int32 => Ok(Column::from_int32(collect_ints::<i32>(values))),
        ColumnType::Int64 => Ok(Column::from_int64(collect_ints::<i64>(values))),
        ColumnType::Utf8 => match collect_texts(values) {
            Some(cells) => Ok(Column::from_texts(cells)),
            None => Err(Error::TooLarge),
        },
        ColumnType::Binary => match collect_byte_strings(values) {
            Some(cells) => Ok(Column::from_byte_strings(cells)),
            None => Err(Error::TooLarge),
        },
    }
}

} // verus!
