use std::sync::Arc;

use arrow_array::cast::AsArray;
use arrow_array::types::{Int32Type, Int64Type};
use arrow_array::{
    Array, ArrayRef, BinaryArray, BooleanArray, Float64Array, Int32Array, Int64Array, RecordBatch,
    StringArray,
};
use arrow_schema::{DataType, Field, Schema};
use arrow_udf_python::{
    sandbox, sandbox_script, Batch, CallMode, ColumnType, Error, Function, GuestValue, Loaded,
    Runtime,
};
use pyo3::{PyObject, Python};

fn batch(columns: Vec<(&str, ArrayRef)>) -> Batch {
    let fields: Vec<Field> = columns
        .iter()
        .map(|(name, array)| Field::new(*name, array.data_type().clone(), true))
        .collect();
    let arrays: Vec<ArrayRef> = columns.into_iter().map(|(_, array)| array).collect();
    Batch(RecordBatch::try_new(Arc::new(Schema::new(fields)), arrays).unwrap())
}

fn int32(values: Vec<Option<i32>>) -> ArrayRef {
    Arc::new(Int32Array::from(values))
}

fn with_runtime(test: impl FnOnce(Python<'_>, &mut Runtime)) {
    pyo3::prepare_freethreaded_python();
    Python::with_gil(|py| {
        let mut runtime = Runtime::new(py).unwrap();
        test(py, &mut runtime);
        runtime.clear(py);
    });
}

const COUNTING: &str = r#"
calls = 0

def count(a, b):
    global calls
    calls += 1
    return calls
"#;

#[test]
fn null_row_is_skipped_without_a_call() {
    with_runtime(|py, runtime| {
        runtime
            .add_function(py, "count", ColumnType::Int32, CallMode::ReturnNullOnNullInput, COUNTING)
            .unwrap();
        let input = batch(vec![
            ("a", int32(vec![Some(1), None, Some(3), None, Some(5)])),
            ("b", int32(vec![Some(1), Some(2), None, None, Some(5)])),
        ]);
        let output = runtime.call(py, "count", &input).unwrap();
        assert_eq!(
            output.0.column(0).as_primitive::<Int32Type>(),
            &Int32Array::from(vec![Some(1), None, None, None, Some(2)])
        );
    });
}

#[test]
fn called_on_null_input_calls_every_row() {
    with_runtime(|py, runtime| {
        runtime
            .add_function(py, "count", ColumnType::Int32, CallMode::CalledOnNullInput, COUNTING)
            .unwrap();
        let input = batch(vec![
            ("a", int32(vec![Some(1), None, Some(3), None])),
            ("b", int32(vec![Some(1), Some(2), None, None])),
        ]);
        let output = runtime.call(py, "count", &input).unwrap();
        assert_eq!(
            output.0.column(0).as_primitive::<Int32Type>(),
            &Int32Array::from(vec![Some(1), Some(2), Some(3), Some(4)])
        );
    });
}

#[test]
fn called_on_null_input_sees_the_null() {
    with_runtime(|py, runtime| {
        runtime
            .add_function(
                py,
                "or_zero",
                ColumnType::Int32,
                CallMode::CalledOnNullInput,
                "def or_zero(a):\n    return 0 if a is None else a\n",
            )
            .unwrap();
        let input = batch(vec![("a", int32(vec![Some(7), None]))]);
        let output = runtime.call(py, "or_zero", &input).unwrap();
        assert_eq!(
            output.0.column(0).as_primitive::<Int32Type>(),
            &Int32Array::from(vec![Some(7), Some(0)])
        );
    });
}

#[test]
fn guest_may_return_null_for_a_row_without_null() {
    with_runtime(|py, runtime| {
        runtime
            .add_function(
                py,
                "positive",
                ColumnType::Int32,
                CallMode::ReturnNullOnNullInput,
                "def positive(a):\n    return a if a > 0 else None\n",
            )
            .unwrap();
        let input = batch(vec![("a", int32(vec![Some(7), Some(-7), None]))]);
        let output = runtime.call(py, "positive", &input).unwrap();
        assert_eq!(
            output.0.column(0).as_primitive::<Int32Type>(),
            &Int32Array::from(vec![Some(7), None, None])
        );
    });
}

#[test]
fn output_has_the_rows_name_and_type_declared() {
    with_runtime(|py, runtime| {
        runtime
            .add_function(
                py,
                "twice",
                ColumnType::Int64,
                CallMode::CalledOnNullInput,
                "def twice(a):\n    return 2 * a\n",
            )
            .unwrap();
        for rows in [0usize, 1, 5] {
            let values: Vec<Option<i32>> = (0..rows).map(|i| Some(i as i32)).collect();
            let input = batch(vec![("a", int32(values))]);
            let output = runtime.call(py, "twice", &input).unwrap();
            assert_eq!(output.0.num_rows(), rows);
            assert_eq!(output.0.num_columns(), 1);
            let schema = output.0.schema();
            assert_eq!(schema.field(0).name(), "twice");
            assert_eq!(schema.field(0).data_type(), &DataType::Int64);
            assert!(schema.field(0).is_nullable());
            let expected: Vec<i64> = (0..rows).map(|i| 2 * i as i64).collect();
            assert_eq!(
                output.0.column(0).as_primitive::<Int64Type>(),
                &Int64Array::from(expected)
            );
        }
    });
}

#[test]
fn arguments_come_in_column_order() {
    with_runtime(|py, runtime| {
        runtime
            .add_function(
                py,
                "minus",
                ColumnType::Int32,
                CallMode::ReturnNullOnNullInput,
                "def minus(a, b):\n    return a - b\n",
            )
            .unwrap();
        let input = batch(vec![
            ("a", int32(vec![Some(10), Some(1)])),
            ("b", int32(vec![Some(3), Some(5)])),
        ]);
        let output = runtime.call(py, "minus", &input).unwrap();
        assert_eq!(
            output.0.column(0).as_primitive::<Int32Type>(),
            &Int32Array::from(vec![7, -4])
        );
    });
}

#[test]
fn text_bytes_and_booleans_pass_through_the_guest() {
    with_runtime(|py, runtime| {
        runtime
            .add_function(
                py,
                "shout",
                ColumnType::Utf8,
                CallMode::ReturnNullOnNullInput,
                "def shout(text, loud):\n    return text.upper() + '!' if loud else text\n",
            )
            .unwrap();
        runtime
            .add_function(
                py,
                "encode",
                ColumnType::Binary,
                CallMode::ReturnNullOnNullInput,
                "def encode(text, loud):\n    return text.encode('utf-8')\n",
            )
            .unwrap();
        runtime
            .add_function(
                py,
                "is_long",
                ColumnType::Boolean,
                CallMode::ReturnNullOnNullInput,
                "def is_long(text, loud):\n    return len(text) > 2\n",
            )
            .unwrap();
        let texts: ArrayRef = Arc::new(StringArray::from(vec![Some("hé"), Some("abc"), None]));
        let louds: ArrayRef = Arc::new(BooleanArray::from(vec![Some(true), Some(false), Some(true)]));
        let input = batch(vec![("text", texts), ("loud", louds)]);

        let output = runtime.call(py, "shout", &input).unwrap();
        assert_eq!(
            output.0.column(0).as_string::<i32>(),
            &StringArray::from(vec![Some("HÉ!"), Some("abc"), None])
        );
        let output = runtime.call(py, "encode", &input).unwrap();
        assert_eq!(
            output.0.column(0).as_binary::<i32>(),
            &BinaryArray::from(vec![Some("hé".as_bytes()), Some("abc".as_bytes()), None])
        );
        let output = runtime.call(py, "is_long", &input).unwrap();
        assert_eq!(
            output.0.column(0).as_boolean(),
            &BooleanArray::from(vec![Some(false), Some(true), None])
        );
    });
}

#[test]
fn bytes_reach_the_guest_as_bytes() {
    with_runtime(|py, runtime| {
        runtime
            .add_function(
                py,
                "size",
                ColumnType::Int32,
                CallMode::ReturnNullOnNullInput,
                "def size(blob):\n    assert isinstance(blob, bytes)\n    return len(blob)\n",
            )
            .unwrap();
        let blobs: ArrayRef = Arc::new(BinaryArray::from(vec![Some(&[1u8, 2, 3][..]), None]));
        let output = runtime.call(py, "size", &batch(vec![("blob", blobs)])).unwrap();
        assert_eq!(
            output.0.column(0).as_primitive::<Int32Type>(),
            &Int32Array::from(vec![Some(3), None])
        );
    });
}

#[test]
fn second_registration_replaces_the_first() {
    with_runtime(|py, runtime| {
        runtime
            .add_function(
                py,
                "f",
                ColumnType::Int32,
                CallMode::CalledOnNullInput,
                "def f(a):\n    return a + 1\n",
            )
            .unwrap();
        let input = batch(vec![("a", int32(vec![Some(1), None]))]);
        let first = runtime.call(py, "f", &batch(vec![("a", int32(vec![Some(1)]))])).unwrap();
        assert_eq!(
            first.0.column(0).as_primitive::<Int32Type>(),
            &Int32Array::from(vec![2])
        );
        runtime
            .add_function(
                py,
                "f",
                ColumnType::Int64,
                CallMode::ReturnNullOnNullInput,
                "def f(a):\n    return a * 100\n",
            )
            .unwrap();
        let second = runtime.call(py, "f", &input).unwrap();
        assert_eq!(second.0.schema().field(0).data_type(), &DataType::Int64);
        assert_eq!(
            second.0.column(0).as_primitive::<Int64Type>(),
            &Int64Array::from(vec![Some(100), None])
        );
    });
}

#[test]
fn unknown_function_is_not_found() {
    with_runtime(|py, runtime| {
        let input = batch(vec![("a", int32(vec![Some(1)]))]);
        assert_eq!(runtime.call(py, "absent", &input).err(), Some(Error::NotFound));
        runtime
            .add_function(
                py,
                "present",
                ColumnType::Int32,
                CallMode::CalledOnNullInput,
                "def present(a):\n    return a\n",
            )
            .unwrap();
        assert!(runtime.call(py, "present", &input).is_ok());
        assert_eq!(runtime.call(py, "Present", &input).err(), Some(Error::NotFound));
        runtime.clear(py);
        assert_eq!(runtime.call(py, "present", &input).err(), Some(Error::NotFound));
    });
}

#[test]
fn code_that_does_not_compile_registers_nothing() {
    with_runtime(|py, runtime| {
        let failed = runtime.add_function(
            py,
            "broken",
            ColumnType::Int32,
            CallMode::CalledOnNullInput,
            "def broken(a:\n    return a\n",
        );
        assert!(matches!(failed, Err(Error::Compile(_))));
        let input = batch(vec![("a", int32(vec![Some(1)]))]);
        assert_eq!(runtime.call(py, "broken", &input).err(), Some(Error::NotFound));
    });
}

#[test]
fn failed_registration_keeps_the_earlier_function() {
    with_runtime(|py, runtime| {
        runtime
            .add_function(
                py,
                "keep",
                ColumnType::Int32,
                CallMode::CalledOnNullInput,
                "def keep(a):\n    return a + 1\n",
            )
            .unwrap();
        let failed = runtime.add_function(
            py,
            "keep",
            ColumnType::Int32,
            CallMode::CalledOnNullInput,
            "def keep(a)\n    return a + 2\n",
        );
        assert!(matches!(failed, Err(Error::Compile(_))));
        let input = batch(vec![("a", int32(vec![Some(1)]))]);
        let output = runtime.call(py, "keep", &input).unwrap();
        assert_eq!(
            output.0.column(0).as_primitive::<Int32Type>(),
            &Int32Array::from(vec![2])
        );
    });
}

#[test]
fn missing_or_uncallable_name_is_a_lookup_failure() {
    with_runtime(|py, runtime| {
        let missing = runtime.add_function(
            py,
            "wanted",
            ColumnType::Int32,
            CallMode::CalledOnNullInput,
            "def other(a):\n    return a\n",
        );
        assert!(matches!(missing, Err(Error::Lookup(_))));
        let uncallable = runtime.add_function(
            py,
            "number",
            ColumnType::Int32,
            CallMode::CalledOnNullInput,
            "number = 3\n",
        );
        assert!(matches!(uncallable, Err(Error::Lookup(_))));
        let input = batch(vec![("a", int32(vec![Some(1)]))]);
        assert_eq!(runtime.call(py, "wanted", &input).err(), Some(Error::NotFound));
        assert_eq!(runtime.call(py, "number", &input).err(), Some(Error::NotFound));
    });
}

#[test]
fn guest_exception_fails_the_whole_call() {
    with_runtime(|py, runtime| {
        runtime
            .add_function(
                py,
                "inverse",
                ColumnType::Int32,
                CallMode::ReturnNullOnNullInput,
                "def inverse(a):\n    if a == 0:\n        raise ValueError('no inverse of zero')\n    return 100 // a\n",
            )
            .unwrap();
        let input = batch(vec![("a", int32(vec![Some(5), Some(0), Some(10)]))]);
        match runtime.call(py, "inverse", &input) {
            Err(Error::GuestExecution(text)) => assert_eq!(text, "no inverse of zero"),
            other => panic!("{:?}", other.map(|_| ())),
        }
    });
}

#[test]
fn wrong_argument_count_shows_at_the_call() {
    with_runtime(|py, runtime| {
        runtime
            .add_function(
                py,
                "one",
                ColumnType::Int32,
                CallMode::CalledOnNullInput,
                "def one(a):\n    return a\n",
            )
            .unwrap();
        let input = batch(vec![
            ("a", int32(vec![Some(1)])),
            ("b", int32(vec![Some(2)])),
        ]);
        assert!(matches!(
            runtime.call(py, "one", &input),
            Err(Error::GuestExecution(_))
        ));
    });
}

#[test]
fn result_of_the_wrong_type_names_its_row() {
    with_runtime(|py, runtime| {
        runtime
            .add_function(
                py,
                "odd_text",
                ColumnType::Int32,
                CallMode::ReturnNullOnNullInput,
                "def odd_text(a):\n    return 'odd' if a % 2 else a\n",
            )
            .unwrap();
        let input = batch(vec![("a", int32(vec![Some(2), None, Some(4), Some(5), Some(7)]))]);
        assert_eq!(
            runtime.call(py, "odd_text", &input).err(),
            Some(Error::TypeMismatch(3))
        );
    });
}

#[test]
fn results_beyond_the_type_are_mismatches() {
    with_runtime(|py, runtime| {
        let cases = [
            ("big", ColumnType::Int32, "def big(a):\n    return 2 ** 31\n"),
            ("huge", ColumnType::Int64, "def huge(a):\n    return 2 ** 63\n"),
            ("truth", ColumnType::Int32, "def truth(a):\n    return True\n"),
            ("one", ColumnType::Boolean, "def one(a):\n    return 1\n"),
            ("half", ColumnType::Int32, "def half(a):\n    return 0.5\n"),
            ("pair", ColumnType::Binary, "def pair(a):\n    return [1, 2]\n"),
            ("text", ColumnType::Binary, "def text(a):\n    return 'ab'\n"),
            ("blob", ColumnType::Utf8, "def blob(a):\n    return b'ab'\n"),
            ("some", ColumnType::Null, "def some(a):\n    return 0\n"),
        ];
        let input = batch(vec![("a", int32(vec![Some(1)]))]);
        for (name, return_type, code) in cases {
            runtime
                .add_function(py, name, return_type, CallMode::CalledOnNullInput, code)
                .unwrap();
            assert_eq!(
                runtime.call(py, name, &input).err(),
                Some(Error::TypeMismatch(0)),
                "{}",
                name
            );
        }
    });
}

#[test]
fn greatest_results_fit_their_types() {
    with_runtime(|py, runtime| {
        runtime
            .add_function(
                py,
                "top",
                ColumnType::Int64,
                CallMode::CalledOnNullInput,
                "def top(a):\n    return 2 ** 63 - 1\n",
            )
            .unwrap();
        runtime
            .add_function(
                py,
                "nothing",
                ColumnType::Null,
                CallMode::CalledOnNullInput,
                "def nothing(a):\n    return None\n",
            )
            .unwrap();
        let input = batch(vec![("a", int32(vec![Some(1)]))]);
        let output = runtime.call(py, "top", &input).unwrap();
        assert_eq!(
            output.0.column(0).as_primitive::<Int64Type>(),
            &Int64Array::from(vec![i64::MAX])
        );
        let output = runtime.call(py, "nothing", &input).unwrap();
        assert_eq!(output.0.column(0).data_type(), &DataType::Null);
        assert_eq!(output.0.num_rows(), 1);
    });
}

#[test]
fn column_without_conversion_fails_the_call() {
    with_runtime(|py, runtime| {
        runtime
            .add_function(
                py,
                "same",
                ColumnType::Int32,
                CallMode::ReturnNullOnNullInput,
                "def same(a, b):\n    return a\n",
            )
            .unwrap();
        let floats: ArrayRef = Arc::new(Float64Array::from(vec![None, Some(1.5)]));
        let input = batch(vec![("a", int32(vec![None, Some(1)])), ("b", floats)]);
        assert_eq!(
            runtime.call(py, "same", &input).err(),
            Some(Error::UnsupportedType)
        );
        let no_floats: ArrayRef = Arc::new(Float64Array::from(Vec::<f64>::new()));
        let empty = batch(vec![("a", int32(vec![])), ("b", no_floats)]);
        assert_eq!(runtime.call(py, "same", &empty).unwrap().0.num_rows(), 0);
    });
}

#[test]
fn sandbox_keeps_guest_code_from_the_system() {
    with_runtime(|py, runtime| {
        let attempts = [
            ("load", "def load(a):\n    import os\n    return a\n"),
            ("read", "def read(a):\n    open('/etc/hostname')\n    return a\n"),
            ("evaluate", "def evaluate(a):\n    return eval('a + 1')\n"),
            ("execute", "def execute(a):\n    exec('a = 1')\n    return a\n"),
            ("build", "def build(a):\n    compile('1', 'x', 'eval')\n    return a\n"),
            ("leave", "def leave(a):\n    exit(1)\n"),
            ("show", "def show(a):\n    print(a)\n    return a\n"),
            ("ask", "def ask(a):\n    return input()\n"),
            ("stop", "def stop(a):\n    breakpoint()\n    return a\n"),
            ("explain", "def explain(a):\n    help(a)\n    return a\n"),
        ];
        let input = batch(vec![("a", int32(vec![Some(1)]))]);
        for (name, code) in attempts {
            runtime
                .add_function(py, name, ColumnType::Int32, CallMode::CalledOnNullInput, code)
                .unwrap();
            assert!(
                matches!(runtime.call(py, name, &input), Err(Error::GuestExecution(_))),
                "{}",
                name
            );
        }
    });
}

#[test]
fn import_at_load_time_fails_the_registration() {
    with_runtime(|py, runtime| {
        let failed = runtime.add_function(
            py,
            "f",
            ColumnType::Int32,
            CallMode::CalledOnNullInput,
            "import os\n\ndef f(a):\n    return a\n",
        );
        assert!(matches!(failed, Err(Error::Compile(_))));
    });
}

#[test]
fn sandbox_fails_where_a_builtin_is_gone() {
    pyo3::prepare_freethreaded_python();
    Python::with_gil(|py| {
        assert_eq!(sandbox(py), Ok(()));
        assert!(matches!(sandbox(py), Err(Error::Init(_))));
        assert!(matches!(Runtime::new(py), Err(Error::Init(_))));
    });
}

#[test]
fn mode_decides_which_rows_are_skipped() {
    let none = vec![];
    let plain = vec![GuestValue::Int(1), GuestValue::Text("x".to_string())];
    let with_null = vec![GuestValue::Int(1), GuestValue::NoValue];
    assert!(!CallMode::ReturnNullOnNullInput.skips(&none));
    assert!(!CallMode::ReturnNullOnNullInput.skips(&plain));
    assert!(CallMode::ReturnNullOnNullInput.skips(&with_null));
    assert!(!CallMode::CalledOnNullInput.skips(&none));
    assert!(!CallMode::CalledOnNullInput.skips(&plain));
    assert!(!CallMode::CalledOnNullInput.skips(&with_null));
}

#[test]
fn default_mode_calls_on_null_input() {
    assert_eq!(CallMode::default(), CallMode::CalledOnNullInput);
    assert!(CallMode::CalledOnNullInput < CallMode::ReturnNullOnNullInput);
}

#[test]
fn registered_callable_is_found_and_called() {
    with_runtime(|py, runtime| {
        let callable: PyObject = py.eval("lambda a: a + 1", None, None).unwrap().into();
        assert!(!runtime.contains("inc"));
        assert!(runtime.get("inc").is_none());
        runtime.register(
            py,
            "inc",
            Function {
                function: callable,
                return_type: ColumnType::Int32,
                mode: CallMode::ReturnNullOnNullInput,
            },
        );
        assert!(runtime.contains("inc"));
        assert!(!runtime.contains("dec"));
        let found = runtime.get("inc").unwrap();
        assert_eq!(found.return_type, ColumnType::Int32);
        assert_eq!(found.mode, CallMode::ReturnNullOnNullInput);
        let input = batch(vec![("a", int32(vec![Some(1), None]))]);
        let output = runtime.call(py, "inc", &input).unwrap();
        assert_eq!(
            output.0.column(0).as_primitive::<Int32Type>(),
            &Int32Array::from(vec![Some(2), None])
        );
    });
}

#[test]
fn output_is_one_nullable_column_under_the_name() {
    pyo3::prepare_freethreaded_python();
    Python::with_gil(|py| {
        let function = Function {
            function: py.None(),
            return_type: ColumnType::Int16,
            mode: CallMode::CalledOnNullInput,
        };
        let results = vec![GuestValue::Int(1), GuestValue::NoValue, GuestValue::Int(-3)];
        let output = function.output("total", &results).unwrap();
        assert_eq!(output.0.num_columns(), 1);
        assert_eq!(output.0.num_rows(), 3);
        let schema = output.0.schema();
        assert_eq!(schema.field(0).name(), "total");
        assert_eq!(schema.field(0).data_type(), &DataType::Int16);
        assert!(schema.field(0).is_nullable());
        assert_eq!(
            output.0.column(0).as_primitive::<arrow_array::types::Int16Type>(),
            &arrow_array::Int16Array::from(vec![Some(1), None, Some(-3)])
        );
        let results = vec![GuestValue::Int(1), GuestValue::Int(40000)];
        assert_eq!(
            function.output("total", &results).err(),
            Some(Error::TypeMismatch(1))
        );
    });
}

#[test]
fn sandbox_script_removes_each_forbidden_builtin() {
    assert_eq!(
        sandbox_script(),
        "del __builtins__.__import__\n\
         del __builtins__.breakpoint\n\
         del __builtins__.compile\n\
         del __builtins__.exit\n\
         del __builtins__.eval\n\
         del __builtins__.exec\n\
         del __builtins__.help\n\
         del __builtins__.input\n\
         del __builtins__.open\n\
         del __builtins__.print\n"
    );
}

#[test]
fn install_registers_a_callable_and_nothing_else() {
    pyo3::prepare_freethreaded_python();
    Python::with_gil(|py| {
        let mut runtime = Runtime::empty();
        let mode = CallMode::CalledOnNullInput;
        assert_eq!(
            runtime.install(py, "f", ColumnType::Int32, mode, Loaded::Rejected("bad".to_string())),
            Err(Error::Compile("bad".to_string()))
        );
        assert_eq!(
            runtime.install(py, "f", ColumnType::Int32, mode, Loaded::Missing("none".to_string())),
            Err(Error::Lookup("none".to_string()))
        );
        assert!(matches!(
            runtime.install(py, "f", ColumnType::Int32, mode, Loaded::NotCallable),
            Err(Error::Lookup(_))
        ));
        assert!(!runtime.contains("f"));
        let callable: PyObject = py.eval("lambda a: -a", None, None).unwrap().into();
        assert_eq!(
            runtime.install(py, "f", ColumnType::Int32, mode, Loaded::Callable(callable)),
            Ok(())
        );
        assert!(runtime.contains("f"));
        let input = batch(vec![("a", int32(vec![Some(4)]))]);
        let output = runtime.call(py, "f", &input).unwrap();
        assert_eq!(
            output.0.column(0).as_primitive::<Int32Type>(),
            &Int32Array::from(vec![-4])
        );
        runtime.clear(py);
        assert!(!runtime.contains("f"));
    });
}

#[test]
fn call_succeeds_where_every_row_is_skipped() {
    with_runtime(|py, runtime| {
        runtime
            .add_function(
                py,
                "fail",
                ColumnType::Utf8,
                CallMode::ReturnNullOnNullInput,
                "def fail(a, b):\n    raise RuntimeError('called')\n",
            )
            .unwrap();
        let input = batch(vec![
            ("a", int32(vec![None, Some(2), None])),
            ("b", int32(vec![Some(1), None, None])),
        ]);
        let output = runtime.call(py, "fail", &input).unwrap();
        assert_eq!(
            output.0.column(0).as_string::<i32>(),
            &StringArray::from(vec![None::<&str>, None, None])
        );
        let empty = batch(vec![("a", int32(vec![])), ("b", int32(vec![]))]);
        assert_eq!(runtime.call(py, "fail", &empty).unwrap().0.num_rows(), 0);
        let one = batch(vec![("a", int32(vec![Some(1)])), ("b", int32(vec![Some(1)]))]);
        assert_eq!(
            runtime.call(py, "fail", &one).err(),
            Some(Error::GuestExecution("called".to_string()))
        );
    });
}

#[test]
fn each_registration_starts_from_fresh_code() {
    with_runtime(|py, runtime| {
        runtime
            .add_function(
                py,
                "f",
                ColumnType::Int32,
                CallMode::CalledOnNullInput,
                "step = 1\n\ndef f(a):\n    return a + step\n",
            )
            .unwrap();
        let stale = runtime.add_function(
            py,
            "f",
            ColumnType::Int64,
            CallMode::CalledOnNullInput,
            "g = 3\n",
        );
        assert!(matches!(stale, Err(Error::Lookup(_))));
        let unseen = runtime.add_function(
            py,
            "g",
            ColumnType::Int32,
            CallMode::CalledOnNullInput,
            "def g(a):\n    return a + step\n",
        );
        assert_eq!(unseen, Ok(()));
        let input = batch(vec![("a", int32(vec![Some(1)]))]);
        let output = runtime.call(py, "f", &input).unwrap();
        assert_eq!(
            output.0.column(0).as_primitive::<Int32Type>(),
            &Int32Array::from(vec![2])
        );
        assert!(matches!(
            runtime.call(py, "g", &input),
            Err(Error::GuestExecution(_))
        ));
    });
}

#[test]
fn code_may_define_helpers_and_classes() {
    with_runtime(|py, runtime| {
        runtime
            .add_function(
                py,
                "area",
                ColumnType::Int32,
                CallMode::ReturnNullOnNullInput,
                "class Square:\n    def __init__(self, side):\n        self.side = side\n\n    def area(self):\n        return self.side * self.side\n\ndef area(side):\n    return Square(side).area()\n",
            )
            .unwrap();
        let input = batch(vec![("side", int32(vec![Some(3), None]))]);
        let output = runtime.call(py, "area", &input).unwrap();
        assert_eq!(
            output.0.column(0).as_primitive::<Int32Type>(),
            &Int32Array::from(vec![Some(9), None])
        );
    });
}

#[test]
fn nul_in_name_or_code_never_compiles() {
    with_runtime(|py, runtime| {
        let in_code = runtime.add_function(
            py,
            "f",
            ColumnType::Int32,
            CallMode::CalledOnNullInput,
            "def f(a):\n    return a\n\0",
        );
        assert!(matches!(in_code, Err(Error::Compile(_))));
        let in_name = runtime.add_function(
            py,
            "f\0",
            ColumnType::Int32,
            CallMode::CalledOnNullInput,
            "def f(a):\n    return a\n",
        );
        assert!(matches!(in_name, Err(Error::Compile(_))));
        assert!(!runtime.contains("f"));
        assert!(!runtime.contains("f\0"));
        let clean = runtime.add_function(
            py,
            "f",
            ColumnType::Int32,
            CallMode::CalledOnNullInput,
            "def f(a):\n    return a\n",
        );
        assert_eq!(clean, Ok(()));
    });
}
