//! Columns and batches of the Arrow crates, as far as the runtime reads and builds them.
//!
//! Nothing in this file is proved. A column is an Arrow array and a batch is an Arrow
//! record batch; what they hold is named by the functions `column_cells`, `column_type`,
//! `batch_columns`, `batch_names`, `batch_nullable` and `batch_rows`, and each function
//! below states over those names what the Arrow method that it calls does.

use crate::value::{
    bool_values, bytes_values, int_values, null_values, payload, payload_limit, text_values,
    ColumnType, Value,
};
use arrow_array::cast::AsArray;
use arrow_array::types::{Int16Type, Int32Type, Int64Type, Int8Type};
use arrow_array::{
    make_array, new_null_array, Array, ArrayRef, BinaryArray, BooleanArray, Int16Array,
    Int32Array, Int64Array, Int8Array, RecordBatch, StringArray,
};
use arrow_schema::{ArrowError, DataType, Field, Schema};
use std::sync::Arc;
use vstd::prelude::*;

verus! {

#[verifier::external_type_specification]
#[verifier::external_body]
pub struct ExArrowError(ArrowError);

/// One column: an Arrow array behind its shared pointer. The field is public, so that a
/// column can be made of any array and the array taken out again.
#[verifier::external_body]
pub struct Column(pub ArrayRef);

/// A batch of columns of equal length: an Arrow record batch. The field is public, so
/// that a batch can be made of any record batch and the record batch taken out again.
#[verifier::external_body]
pub struct Batch(pub RecordBatch);

/// The cells of a column, from the first row to the last. A cell that Arrow holds as
/// null is `Value::Null`, and so is every cell of a column of the null type.
pub uninterp spec fn column_cells(column: Column) -> Seq<Value>;

/// The element type of a column, or `None` where the runtime has no conversion for it.
pub uninterp spec fn column_type(column: Column) -> Option<ColumnType>;

/// The columns of a batch, in the order of its schema.
pub uninterp spec fn batch_columns(batch: Batch) -> Seq<Column>;

/// The field names of a batch's schema, one for each column.
pub uninterp spec fn batch_names(batch: Batch) -> Seq<Seq<char>>;

/// Whether the fields of a batch's schema admit nulls, one answer for each column.
pub uninterp spec fn batch_nullable(batch: Batch) -> Seq<bool>;

/// The number of rows of a batch.
pub uninterp spec fn batch_rows(batch: Batch) -> nat;

impl Column {
    /// `Array::len`: the number of cells.
    #[verifier::external_body]
    pub(crate) fn len(&self) -> (rows: usize)
        ensures
            rows == column_cells(*self).len(),
    {
        self.0.len()
    }

    /// `Array::data_type`, with the variant of `DataType` told as a `ColumnType`. The
    /// cells of a column all lie within its element type: they are read by the typed
    /// accessors below, and a column of the null type holds nulls only.
    #[verifier::external_body]
    pub(crate) fn kind(&self) -> (kind: Option<ColumnType>)
        ensures
            kind == column_type(*self),
            kind matches Some(ty) ==> forall|i: int|
                0 <= i < column_cells(*self).len() ==> ty.admits(#[trigger] column_cells(*self)[i]),
    {
        match self.0.data_type() {
            DataType::Null => Some(ColumnType::Null),
            DataType::Boolean => Some(ColumnType::Boolean),
            DataType::Int8 => Some(ColumnType::Int8),
            DataType::Int16 => Some(ColumnType::Int16),
            DataType::Int32 => Some(ColumnType::Int32),
            DataType::Int64 => Some(ColumnType::Int64),
            DataType::Utf8 => Some(ColumnType::Utf8),
            DataType::Binary => Some(ColumnType::Binary),
            _ => None,
        }
    }

    /// `Array::is_null`, which reads the array's validity bitmap and panics beyond the
    /// array's end. An array of the null type has no bitmap, so nothing is claimed of it.
    #[verifier::external_body]
    pub(crate) fn is_null_at(&self, row: usize) -> (null: bool)
        requires
            row < column_cells(*self).len(),
        ensures
            column_type(*self) matches Some(ty) && ty != ColumnType::Null ==> null == (column_cells(
                *self,
            )[row as int] == Value::Null),
    {
        self.0.is_null(row)
    }

    /// `BooleanArray::value` after `AsArray::as_boolean`, which panics on an array of
    /// another type and beyond the array's end.
    #[verifier::external_body]
    pub(crate) fn bool_at(&self, row: usize) -> (cell: bool)
        requires
            column_type(*self) == Some(ColumnType::Boolean),
            row < column_cells(*self).len(),
        ensures
            column_cells(*self)[row as int] != Value::Null ==> column_cells(*self)[row as int]
                == Value::Bool(cell),
    {
        self.0.as_boolean().value(row)
    }

    /// `PrimitiveArray::value` after `AsArray::as_primitive` for `Int8Type`, which panics
    /// on an array of another type and beyond the array's end.
    #[verifier::external_body]
    pub(crate) fn int8_at(&self, row: usize) -> (cell: i8)
        requires
            column_type(*self) == Some(ColumnType::Int8),
            row < column_cells(*self).len(),
        ensures
            column_cells(*self)[row as int] != Value::Null ==> column_cells(*self)[row as int]
                == Value::Int(cell as int),
    {
        self.0.as_primitive::<Int8Type>().value(row)
    }

    /// `PrimitiveArray::value` after `AsArray::as_primitive` for `Int16Type`, which panics
    /// on an array of another type and beyond the array's end.
    #[verifier::external_body]
    pub(crate) fn int16_at(&self, row: usize) -> (cell: i16)
        requires
            column_type(*self) == Some(ColumnType::Int16),
            row < column_cells(*self).len(),
        ensures
            column_cells(*self)[row as int] != Value::Null ==> column_cells(*self)[row as int]
                == Value::Int(cell as int),
    {
        self.0.as_primitive::<Int16Type>().value(row)
    }

    /// `PrimitiveArray::value` after `AsArray::as_primitive` for `Int32Type`, which panics
    /// on an array of another type and beyond the array's end.
    #[verifier::external_body]
    pub(crate) fn int32_at(&self, row: usize) -> (cell: i32)
        requires
            column_type(*self) == Some(ColumnType::Int32),
            row < column_cells(*self).len(),
        ensures
            column_cells(*self)[row as int] != Value::Null ==> column_cells(*self)[row as int]
                == Value::Int(cell as int),
    {
        self.0.as_primitive::<Int32Type>().value(row)
    }

    /// `PrimitiveArray::value` after `AsArray::as_primitive` for `Int64Type`, which panics
    /// on an array of another type and beyond the array's end.
    #[verifier::external_body]
    pub(crate) fn int64_at(&self, row: usize) -> (cell: i64)
        requires
            column_type(*self) == Some(ColumnType::Int64),
            row < column_cells(*self).len(),
        ensures
            column_cells(*self)[row as int] != Value::Null ==> column_cells(*self)[row as int]
                == Value::Int(cell as int),
    {
        self.0.as_primitive::<Int64Type>().value(row)
    }

    /// `GenericByteArray::value` after `AsArray::as_string` with 32-bit offsets, which
    /// panics on an array of another type and beyond the array's end; the text is copied.
    #[verifier::external_body]
    pub(crate) fn text_at(&self, row: usize) -> (cell: String)
        requires
            column_type(*self) == Some(ColumnType::Utf8),
            row < column_cells(*self).len(),
        ensures
            column_cells(*self)[row as int] != Value::Null ==> column_cells(*self)[row as int]
                == Value::Text(cell@),
    {
        self.0.as_string::<i32>().value(row).to_owned()
    }

    /// `GenericByteArray::value` after `AsArray::as_binary` with 32-bit offsets, which
    /// panics on an array of another type and beyond the array's end; the bytes are copied.
    #[verifier::external_body]
    pub(crate) fn bytes_at(&self, row: usize) -> (cell: Vec<u8>)
        requires
            column_type(*self) == Some(ColumnType::Binary),
            row < column_cells(*self).len(),
        ensures
            column_cells(*self)[row as int] != Value::Null ==> column_cells(*self)[row as int]
                == Value::Bytes(cell@),
    {
        self.0.as_binary::<i32>().value(row).to_vec()
    }

    /// `new_null_array` for the null type: an array of that type with `rows` cells.
    #[verifier::external_body]
    pub(crate) fn from_nulls(rows: usize) -> (column: Column)
        ensures
            column_type(column) == Some(ColumnType::Null),
            column_cells(column) == null_values(rows as nat),
    {
        let array = new_null_array(&DataType::Null, rows);
        Column(array)
    }

    /// `BooleanArray::from` on optional values, handed on by `make_array`: a cell for
    /// each, null where it is `None`.
    #[verifier::external_body]
    pub(crate) fn from_bools(cells: Vec<Option<bool>>) -> (column: Column)
        ensures
            column_type(column) == Some(ColumnType::Boolean),
            column_cells(column) == bool_values(cells@),
    {
        let array = make_array(BooleanArray::from(cells).into_data());
        Column(array)
    }

    /// `PrimitiveArray::from` for `Int8Type` on optional values, handed on by
    /// `make_array`: a cell for each, null where it is `None`.
    #[verifier::external_body]
    pub(crate) fn from_int8(cells: Vec<Option<i8>>) -> (column: Column)
        ensures
            column_type(column) == Some(ColumnType::Int8),
            column_cells(column) == int_values(cells@),
    {
        let array = make_array(Int8Array::from(cells).into_data());
        Column(array)
    }

    /// `PrimitiveArray::from` for `Int16Type` on optional values, handed on by
    /// `make_array`: a cell for each, null where it is `None`.
    #[verifier::external_body]
    pub(crate) fn from_int16(cells: Vec<Option<i16>>) -> (column: Column)
        ensures
            column_type(column) == Some(ColumnType::Int16),
            column_cells(column) == int_values(cells@),
    {
        let array = make_array(Int16Array::from(cells).into_data());
        Column(array)
    }

    /// `PrimitiveArray::from` for `Int32Type` on optional values, handed on by
    /// `make_array`: a cell for each, null where it is `None`.
    #[verifier::external_body]
    pub(crate) fn from_int32(cells: Vec<Option<i32>>) -> (column: Column)
        ensures
            column_type(column) == Some(ColumnType::Int32),
            column_cells(column) == int_values(cells@),
    {
        let array = make_array(Int32Array::from(cells).into_data());
        Column(array)
    }

    /// `PrimitiveArray::from` for `Int64Type` on optional values, handed on by
    /// `make_array`: a cell for each, null where it is `None`.
    #[verifier::external_body]
    pub(crate) fn from_int64(cells: Vec<Option<i64>>) -> (column: Column)
        ensures
            column_type(column) == Some(ColumnType::Int64),
            column_cells(column) == int_values(cells@),
    {
        let array = make_array(Int64Array::from(cells).into_data());
        Column(array)
    }

    /// `GenericStringArray::from` with 32-bit offsets on optional texts, handed on by
    /// `make_array`: a cell for each, null where it is `None`. Its builder panics once the texts together pass the
    /// greatest 32-bit offset.
    #[verifier::external_body]
    pub(crate) fn from_texts(cells: Vec<Option<String>>) -> (column: Column)
        requires
            payload(text_values(cells@)) <= payload_limit(),
        ensures
            column_type(column) == Some(ColumnType::Utf8),
            column_cells(column) == text_values(cells@),
    {
        let array = make_array(StringArray::from(cells).into_data());
        Column(array)
    }

    /// `GenericBinaryArray::from_iter` with 32-bit offsets on optional byte strings, handed
    /// on by `make_array`: a cell for each, null where it is `None`. Its builder panics once the byte strings
    /// together pass the greatest 32-bit offset.
    #[verifier::external_body]
    pub(crate) fn from_byte_strings(cells: Vec<Option<Vec<u8>>>) -> (column: Column)
        requires
            payload(bytes_values(cells@)) <= payload_limit(),
        ensures
            column_type(column) == Some(ColumnType::Binary),
            column_cells(column) == bytes_values(cells@),
    {
        let array = make_array(BinaryArray::from_iter(cells).into_data());
        Column(array)
    }
}

impl Batch {
    /// `RecordBatch::num_rows`.
    #[verifier::external_body]
    pub(crate) fn num_rows(&self) -> (rows: usize)
        ensures
            rows == batch_rows(*self),
    {
        self.0.num_rows()
    }

    /// `RecordBatch::num_columns`.
    #[verifier::external_body]
    pub(crate) fn num_columns(&self) -> (columns: usize)
        ensures
            columns == batch_columns(*self).len(),
    {
        self.0.num_columns()
    }

    /// `RecordBatch::column`, which panics beyond the last column; the shared pointer is
    /// cloned. A record batch holds only columns of as many cells as it has rows.
    #[verifier::external_body]
    pub(crate) fn column(&self, index: usize) -> (column: Column)
        requires
            index < batch_columns(*self).len(),
        ensures
            column == batch_columns(*self)[index as int],
            column_cells(column).len() == batch_rows(*self),
    {
        Column(self.0.column(index).clone())
    }

    /// `RecordBatch::try_new` on one column, under a schema of one nullable field that has
    /// the given name and the column's own data type. None of the checks that `try_new`
    /// makes can fail on these: there is one field for the one column, the row count is
    /// the column's length, a nullable field admits nulls, and the field's type is the
    /// column's.
    #[verifier::external_body]
    pub(crate) fn single(name: &str, column: Column) -> (made: Result<Batch, ArrowError>)
        ensures
            made is Ok,
            made matches Ok(batch) ==> {
                &&& batch_columns(batch) == seq![column]
                &&& batch_names(batch) == seq![name@]
                &&& batch_nullable(batch) == seq![true]
                &&& batch_rows(batch) == column_cells(column).len()
            },
    {
        let field = Field::new(name, column.0.data_type().clone(), true);
        RecordBatch::try_new(Arc::new(Schema::new(vec![field])), vec![column.0]).map(Batch)
    }
}

} // verus!
