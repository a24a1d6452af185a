//! The runtime: the functions registered in one guest instance, and the call of one of
//! them on a batch.

use crate::column::{
    batch_columns, batch_names, batch_nullable, batch_rows, column_cells, column_type, Batch,
    Column,
};
use crate::error::Error;
use crate::guest::invoke;
use crate::marshal::{
    build_array, built, lemma_built_cases, lemma_nulls_are_well_typed, to_guest_object,
    well_typed,
};
use crate::python::{attribute, error_text, is_callable, new_module, run, run_in};
use crate::value::{values_of, ColumnType, GuestValue, Value};
use pyo3::{PyObject, Python};
use vstd::hash_map::StringHashMap;
use vstd::prelude::*;
use vstd::string::StringExecFns;

verus! {

/// Whether the function will be called when some of its arguments are null.
#[derive(Debug, Clone, Copy, PartialEq, Eq, Structural, PartialOrd, Ord)]
pub enum CallMode {
    /// The function is called normally when some of its arguments are null. It is then
    /// for the function's author to check for null values and to respond to them.
    CalledOnNullInput,
    /// The function always returns null when any of its arguments is null. The function
    /// is not executed on such a row; a null result is taken for it.
    ReturnNullOnNullInput,
}

impl Default for CallMode {
    fn default() -> (mode: CallMode)
        ensures
            mode == CallMode::CalledOnNullInput,
    {
        CallMode::CalledOnNullInput
    }
}

/// Whether one of the values is null.
pub open spec fn has_null(values: Seq<Value>) -> bool {
    exists|i: int| 0 <= i < values.len() && values[i] == Value::Null
}

impl CallMode {
    /// Whether a row with these arguments gets a null result without a call of the
    /// function.
    pub open spec fn skips_row(self, arguments: Seq<Value>) -> bool {
        self == CallMode::ReturnNullOnNullInput && has_null(arguments)
    }

    /// Whether a row with these arguments gets a null result without a call of the
    /// function: under `ReturnNullOnNullInput`, where an argument is null.
    pub fn skips(&self, arguments: &Vec<GuestValue>) -> (skip: bool)
        ensures
            skip == self.skips_row(values_of(arguments@)),
    {
        match self {
            CallMode::CalledOnNullInput => false,
            CallMode::ReturnNullOnNullInput => {
                let mut i: usize = 0;
                while i < arguments.len()
                    invariant
                        i <= arguments@.len(),
                        *self == CallMode::ReturnNullOnNullInput,
                        forall|j: int| 0 <= j < i ==> values_of(arguments@)[j] != Value::Null,
                    decreases arguments@.len() - i,
                {
                    if arguments[i].is_no_value() {
                        assert(values_of(arguments@)[i as int] == Value::Null);
                        assert(has_null(values_of(arguments@)));
                        return true;
                    }
                    i = i + 1;
                }
                false
            },
        }
    }
}

/// Under `CalledOnNullInput` no row is skipped, whatever its arguments are: the function
/// is called for every row and decides the result itself.
pub proof fn lemma_called_on_null_input_skips_no_row(arguments: Seq<Value>)
    ensures
        !CallMode::CalledOnNullInput.skips_row(arguments),
{
}

/// The values of the input's columns in one row, in the order of the columns: the
/// arguments of the call for that row.
pub open spec fn row_of(input: Batch, row: int) -> Seq<Value> {
    cells_in_row(batch_columns(input), row)
}

/// The cells that the columns hold in one row.
pub open spec fn cells_in_row(columns: Seq<Column>, row: int) -> Seq<Value> {
    Seq::new(columns.len(), |c: int| column_cells(columns[c])[row])
}

/// Whether every one of the columns has an element type with a conversion.
pub open spec fn all_supported(columns: Seq<Column>) -> bool {
    forall|c: int| 0 <= c < columns.len() ==> column_type(#[trigger] columns[c]) is Some
}

/// Whether the mode skips every row of the input, so that the function is not called at
/// all.
pub open spec fn skips_all(mode: CallMode, input: Batch) -> bool {
    forall|row: int| 0 <= row < batch_rows(input) ==> mode.skips_row(#[trigger] row_of(input, row))
}

/// A Python function that was registered under a name.
pub struct Function {
    /// The guest callable. It belongs to the instance that compiled it.
    pub function: PyObject,
    /// The element type of the column of results.
    pub return_type: ColumnType,
    /// What happens on a row that has a null argument.
    pub mode: CallMode,
}

/// Whether `output` is the batch for the results `cells` of the function registered as
/// `name`: one column under that name, which admits nulls, of the declared type, with
/// those cells.
pub open spec fn is_output(
    output: Batch,
    name: Seq<char>,
    ty: ColumnType,
    cells: Seq<Value>,
) -> bool {
    &&& batch_names(output) == seq![name]
    &&& batch_nullable(output) == seq![true]
    &&& batch_columns(output).len() == 1
    &&& column_type(batch_columns(output)[0]) == Some(ty)
    &&& column_cells(batch_columns(output)[0]) == cells
    &&& batch_rows(output) == cells.len()
}

/// Whether the results answer the rows of `input` one for one, with a null result for
/// every row that `mode` skips.
pub open spec fn agrees(mode: CallMode, input: Batch, results: Seq<Value>) -> bool {
    &&& results.len() == batch_rows(input)
    &&& forall|row: int|
        0 <= row < results.len() && mode.skips_row(row_of(input, row)) ==> #[trigger] results[row]
            == Value::Null
}

/// Whether `output` is an answer of `function`, registered as `name`, to `input`: a batch
/// whose one column has the function's name and return type and a cell for each row of
/// the input, holds values of that type only, and is null in every row that the
/// function's mode skips.
pub open spec fn answers(function: Function, name: Seq<char>, input: Batch, output: Batch) -> bool {
    let cells = column_cells(batch_columns(output)[0]);
    &&& is_output(output, name, function.return_type, cells)
    &&& agrees(function.mode, input, cells)
    &&& well_typed(function.return_type, cells)
    &&& batch_rows(input) > 0 ==> all_supported(batch_columns(input))
}

/// Null propagation: in an answer of a function registered with `ReturnNullOnNullInput`,
/// every row of the input that has a null argument has a null result.
pub proof fn lemma_null_argument_gives_null(
    function: Function,
    name: Seq<char>,
    input: Batch,
    output: Batch,
    row: int,
)
    requires
        answers(function, name, input, output),
        function.mode == CallMode::ReturnNullOnNullInput,
        0 <= row < batch_rows(input),
        has_null(row_of(input, row)),
    ensures
        column_cells(batch_columns(output)[0])[row] == Value::Null,
{
}

/// An answer has as many rows as the input, and its one column a cell for each of them.
pub proof fn lemma_answer_keeps_rows(
    function: Function,
    name: Seq<char>,
    input: Batch,
    output: Batch,
)
    requires
        answers(function, name, input, output),
    ensures
        batch_rows(output) == batch_rows(input),
        batch_columns(output).len() == 1,
        column_cells(batch_columns(output)[0]).len() == batch_rows(input),
{
}

impl Function {
    /// The output batch for the results of the rows: a single column of the function's
    /// return type under the name `name`, with one cell for each result in the order
    /// given. It fails where a result does not fit the return type.
    pub fn output(&self, name: &str, results: &Vec<GuestValue>) -> (made: Result<Batch, Error>)
        ensures
            match built(self.return_type, values_of(results@)) {
                Ok(cells) => made matches Ok(batch) && is_output(
                    batch,
                    name@,
                    self.return_type,
                    cells,
                ),
                Err(error) => made == Err::<Batch, Error>(error),
            },
    {
        let column = match build_array(self.return_type, results) {
            Ok(column) => column,
            Err(error) => {
                return Err(error);
            },
        };
        match Batch::single(name, column) {
            Ok(batch) => Ok(batch),
            Err(_) => unreached(),
        }
    }
}

/// The columns of the batch.
fn columns_of(input: &Batch) -> (columns: Vec<Column>)
    ensures
        columns@ == batch_columns(*input),
        forall|c: int|
            0 <= c < columns@.len() ==> column_cells(#[trigger] columns@[c]).len() == batch_rows(
                *input,
            ),
{
    let count: usize = input.num_columns();
    let mut columns: Vec<Column> = Vec::new();
    let mut c: usize = 0;
    while c < count
        invariant
            c <= count,
            count == batch_columns(*input).len(),
            columns@ == batch_columns(*input).take(c as int),
            forall|k: int|
                0 <= k < columns@.len() ==> column_cells(#[trigger] columns@[k]).len()
                    == batch_rows(*input),
        decreases count - c,
    {
        let column = input.column(c);
        columns.push(column);
        assert(columns@ =~= batch_columns(*input).take(c + 1));
        c = c + 1;
    }
    assert(batch_columns(*input).take(c as int) =~= batch_columns(*input));
    columns
}

/// The arguments for one row: the guest value of each column's cell in that row, in the
/// order of the columns.
fn arguments_of(columns: &Vec<Column>, row: usize) -> (arguments: Result<Vec<GuestValue>, Error>)
    requires
        forall|c: int| 0 <= c < columns@.len() ==> row < column_cells(#[trigger] columns@[c]).len(),
    ensures
        all_supported(columns@) ==> (arguments matches Ok(values) && values_of(values@)
            == cells_in_row(columns@, row as int) && forall|i: int|
            0 <= i < values@.len() ==> (#[trigger] values@[i])@ != Value::Other),
        !all_supported(columns@) ==> arguments == Err::<Vec<GuestValue>, Error>(
            Error::UnsupportedType,
        ),
{
    let mut values: Vec<GuestValue> = Vec::new();
    let mut c: usize = 0;
    while c < columns.len()
        invariant
            c <= columns@.len(),
            values@.len() == c,
            forall|k: int|
                0 <= k < columns@.len() ==> row < column_cells(#[trigger] columns@[k]).len(),
            forall|k: int| 0 <= k < c ==> column_type(#[trigger] columns@[k]) is Some,
            forall|k: int|
                0 <= k < c ==> (#[trigger] values@[k])@ == column_cells(columns@[k])[row as int],
            forall|k: int| 0 <= k < c ==> (#[trigger] values@[k])@ != Value::Other,
        decreases columns@.len() - c,
    {
        match to_guest_object(&columns[c], row) {
            Ok(value) => {
                values.push(value);
            },
            Err(error) => {
                assert(column_type(columns@[c as int]) is None);
                return Err(error);
            },
        }
        c = c + 1;
    }
    assert(values_of(values@) =~= cells_in_row(columns@, row as int));
    Ok(values)
}

/// Runs the function on every row of the input, from the first to the last, and gathers
/// the results in that order. A row that the function's mode skips gets the "no value"
/// object without a call. The first exception that the guest raises ends the run.
fn results_of<'py>(
    py: Python<'py>,
    function: &Function,
    input: &Batch,
) -> (gathered: Result<Vec<GuestValue>, Error>)
    ensures
        match gathered {
            Ok(results) => agrees(function.mode, *input, values_of(results@)) && (batch_rows(*input)
                > 0 ==> all_supported(batch_columns(*input))),
            Err(error) => batch_rows(*input) > 0 && if all_supported(batch_columns(*input)) {
                error is GuestExecution && !skips_all(function.mode, *input)
            } else {
                error == Error::UnsupportedType
            },
        },
        batch_rows(*input) > 0 && !all_supported(batch_columns(*input)) ==> gathered == Err::<
            Vec<GuestValue>,
            Error,
        >(Error::UnsupportedType),
{
    let rows: usize = input.num_rows();
    let columns = columns_of(input);
    let mut results: Vec<GuestValue> = Vec::new();
    let mut row: usize = 0;
    while row < rows
        invariant
            row <= rows,
            rows == batch_rows(*input),
            columns@ == batch_columns(*input),
            forall|c: int|
                0 <= c < columns@.len() ==> column_cells(#[trigger] columns@[c]).len() == rows,
            results@.len() == row,
            row > 0 ==> all_supported(columns@),
            forall|r: int|
                0 <= r < row && function.mode.skips_row(row_of(*input, r)) ==> (
                #[trigger] results@[r])@ == Value::Null,
        decreases rows - row,
    {
        let arguments = match arguments_of(&columns, row) {
            Ok(arguments) => arguments,
            Err(error) => {
                return Err(error);
            },
        };
        if function.mode.skips(&arguments) {
            results.push(GuestValue::NoValue);
        } else {
            match invoke(py, &function.function, &arguments) {
                Ok(result) => {
                    results.push(result);
                },
                Err(text) => {
                    assert(!function.mode.skips_row(row_of(*input, row as int)));
                    return Err(Error::GuestExecution(text));
                },
            }
        }
        row = row + 1;
    }
    Ok(results)
}

/// The Python runtime: the functions registered in one guest instance, each under its
/// name.
pub struct Runtime {
    functions: StringHashMap<Function>,
}

impl View for Runtime {
    type V = Map<Seq<char>, Function>;

    closed spec fn view(&self) -> Map<Seq<char>, Function> {
        self.functions@
    }
}

/// The names that the sandbox takes from the guest's builtins: the import of modules,
/// the entry to the debugger, the compiling and the running of code given as text, the
/// exit of the process, the console's help, input and output, and the opening of files.
pub open spec fn forbidden_builtins() -> Seq<Seq<char>> {
    seq![
        "__import__"@,
        "breakpoint"@,
        "compile"@,
        "exit"@,
        "eval"@,
        "exec"@,
        "help"@,
        "input"@,
        "open"@,
        "print"@,
    ]
}

/// The guest statement that takes one name from the builtins.
pub open spec fn removal(name: Seq<char>) -> Seq<char> {
    "del __builtins__."@ + name + "\n"@
}

/// The guest statements that take the names from the builtins, one after the other.
pub open spec fn removals(names: Seq<Seq<char>>) -> Seq<char>
    decreases names.len(),
{
    if names.len() == 0 {
        Seq::empty()
    } else {
        removals(names.drop_last()) + removal(names.last())
    }
}

/// The script that sandboxes an instance: one statement for each forbidden builtin.
pub fn sandbox_script() -> (script: String)
    ensures
        script@ == removals(forbidden_builtins()),
{
    let names: [&'static str; 10] = [
        "__import__",
        "breakpoint",
        "compile",
        "exit",
        "eval",
        "exec",
        "help",
        "input",
        "open",
        "print",
    ];
    let mut script = String::new();
    let mut i: usize = 0;
    while i < 10
        invariant
            i <= 10,
            names@.len() == 10,
            forall|k: int| 0 <= k < 10 ==> (#[trigger] names@[k])@ == forbidden_builtins()[k],
            script@ == removals(forbidden_builtins().take(i as int)),
        decreases 10 - i,
    {
        assert(forbidden_builtins().take(i + 1).drop_last() =~= forbidden_builtins().take(
            i as int,
        ));
        script.append("del __builtins__.");
        script.append(names[i]);
        script.append("\n");
        i = i + 1;
    }
    assert(forbidden_builtins().take(10) =~= forbidden_builtins());
    script
}

/// Takes from the instance's builtins the import of modules, the entry to the debugger,
/// the compiling and the running of code given as text, the exit of the process, the
/// console's help, input and output, and the opening of files. It fails where one of
/// them is not there to be taken.
pub fn sandbox<'py>(py: Python<'py>) -> (done: Result<(), Error>)
    ensures
        done matches Err(error) ==> error is Init,
{
    match run(py, sandbox_script().as_str()) {
        Ok(()) => Ok(()),
        Err(error) => Err(Error::Init(error_text(py, &error))),
    }
}

/// What loading the code of a function came to.
pub enum Loaded {
    /// The code did not compile, or raised while it was run; the text says why.
    Rejected(String),
    /// The code defines nothing under the function's name; the text says so.
    Missing(String),
    /// What the code defines under the function's name cannot be called.
    NotCallable,
    /// The code defines this callable under the function's name.
    Callable(PyObject),
}

/// Compiles and runs `code` in a new module named `name`, and takes from the module what
/// is named `name`. A name or a code with a NUL character in it is rejected before the
/// interpreter sees it; what becomes of any other is for the interpreter to decide.
fn load_callable<'py>(py: Python<'py>, code: &str, name: &str) -> (loaded: Loaded)
    ensures
        name@.contains('\0') || code@.contains('\0') ==> loaded is Rejected,
{
    let module = match new_module(py, name) {
        Ok(module) => module,
        Err(error) => {
            return Loaded::Rejected(error_text(py, &error));
        },
    };
    match run_in(py, code, &module) {
        Ok(()) => {},
        Err(error) => {
            return Loaded::Rejected(error_text(py, &error));
        },
    }
    let callable = match attribute(py, &module, name) {
        Ok(callable) => callable,
        Err(error) => {
            return Loaded::Missing(error_text(py, &error));
        },
    };
    if is_callable(py, &callable) {
        Loaded::Callable(callable)
    } else {
        Loaded::NotCallable
    }
}

impl Runtime {
    /// A runtime with no function registered, for an instance that is sandboxed already.
    pub fn empty() -> (runtime: Runtime)
        ensures
            runtime@ == Map::<Seq<char>, Function>::empty(),
    {
        Runtime { functions: StringHashMap::new() }
    }

    /// A runtime on the instance that the token stands for, with no function registered.
    /// The instance is sandboxed first; where that fails there is no runtime.
    pub fn new<'py>(py: Python<'py>) -> (made: Result<Runtime, Error>)
        ensures
            match made {
                Ok(runtime) => runtime@ == Map::<Seq<char>, Function>::empty(),
                Err(error) => error is Init,
            },
    {
        match sandbox(py) {
            Ok(()) => Ok(Runtime::empty()),
            Err(error) => Err(error),
        }
    }

    /// Whether a function is registered under `name`.
    pub fn contains(&self, name: &str) -> (found: bool)
        ensures
            found == self@.contains_key(name@),
    {
        self.functions.contains_key(name)
    }

    /// The function registered under `name`, if there is one.
    pub fn get(&self, name: &str) -> (found: Option<&Function>)
        ensures
            match found {
                Some(function) => self@.contains_key(name@) && *function == self@[name@],
                None => !self@.contains_key(name@),
            },
    {
        self.functions.get(name)
    }

    /// Registers `function` under `name`, in place of what was registered under that name
    /// before. The token says that the caller holds the instance, in which the function
    /// that gives way is released.
    pub fn register<'py>(&mut self, _py: Python<'py>, name: &str, function: Function)
        ensures
            final(self)@ == old(self)@.insert(name@, function),
    {
        self.functions.insert(name.to_owned(), function);
    }

    /// Registers what loading the code of a function gave, if it gave a callable, under
    /// `name` with the return type and mode; else nothing changes, and the failure says
    /// whether the code was rejected or has nothing callable under the name.
    pub fn install<'py>(
        &mut self,
        py: Python<'py>,
        name: &str,
        return_type: ColumnType,
        mode: CallMode,
        loaded: Loaded,
    ) -> (added: Result<(), Error>)
        ensures
            match loaded {
                Loaded::Callable(callable) => added == Ok::<(), Error>(()) && final(self)@ == old(
                    self,
                )@.insert(name@, (Function { function: callable, return_type, mode })),
                Loaded::Rejected(text) => added == Err::<(), Error>(Error::Compile(text))
                    && final(self)@ == old(self)@,
                Loaded::Missing(text) => added == Err::<(), Error>(Error::Lookup(text))
                    && final(self)@ == old(self)@,
                Loaded::NotCallable => added matches Err(Error::Lookup(_)) && final(self)@ == old(
                    self,
                )@,
            },
    {
        match loaded {
            Loaded::Callable(callable) => {
                self.register(py, name, Function { function: callable, return_type, mode });
                Ok(())
            },
            Loaded::Rejected(text) => Err(Error::Compile(text)),
            Loaded::Missing(text) => Err(Error::Lookup(text)),
            Loaded::NotCallable => Err(Error::Lookup("not callable".to_owned())),
        }
    }

    /// Adds a function from Python code: compiles and runs `code` in a new module of its
    /// own, takes from it what is named `name`, which must be callable, and registers it
    /// under that name with its return type and mode. Where the code does not compile,
    /// or defines nothing callable under the name, nothing is registered and nothing
    /// changes. A name or a code with a NUL character in it never compiles.
    pub fn add_function<'py>(
        &mut self,
        py: Python<'py>,
        name: &str,
        return_type: ColumnType,
        mode: CallMode,
        code: &str,
    ) -> (added: Result<(), Error>)
        ensures
            match added {
                Ok(()) => exists|callable: PyObject|
                    final(self)@ == old(self)@.insert(
                        name@,
                        (Function { function: callable, return_type, mode }),
                    ),
                Err(error) => final(self)@ == old(self)@ && (error is Compile || error is Lookup),
            },
            name@.contains('\0') || code@.contains('\0') ==> added matches Err(Error::Compile(_)),
    {
        let loaded = load_callable(py, code, name);
        self.install(py, name, return_type, mode, loaded)
    }

    /// Calls the function registered under `name` on every row of `input`, and gives the
    /// results as a batch of one column, which has the function's name and return type
    /// and a cell for each row of the input. The call fails as a whole where no function
    /// has that name, where an input column has an element type without a conversion,
    /// where the guest raises on a row, and where a result does not fit the return type.
    pub fn call<'py>(
        &self,
        py: Python<'py>,
        name: &str,
        input: &Batch,
    ) -> (answer: Result<Batch, Error>)
        ensures
            !self@.contains_key(name@) ==> answer == Err::<Batch, Error>(Error::NotFound),
            self@.contains_key(name@) ==> match answer {
                Ok(output) => batch_rows(output) == batch_rows(*input) && answers(
                    self@[name@],
                    name@,
                    *input,
                    output,
                ),
                Err(error) => match error {
                    Error::UnsupportedType => batch_rows(*input) > 0 && !all_supported(
                        batch_columns(*input),
                    ),
                    Error::GuestExecution(_) => all_supported(batch_columns(*input)) && !skips_all(
                        self@[name@].mode,
                        *input,
                    ),
                    Error::TypeMismatch(row) => row < batch_rows(*input) && !self@[name@].mode.skips_row(
                        row_of(*input, row as int),
                    ),
                    Error::TooLarge => self@[name@].return_type == ColumnType::Utf8
                        || self@[name@].return_type == ColumnType::Binary,
                    _ => false,
                },
            },
            self@.contains_key(name@) && batch_rows(*input) > 0 && !all_supported(
                batch_columns(*input),
            ) ==> answer == Err::<Batch, Error>(Error::UnsupportedType),
            self@.contains_key(name@) && skips_all(self@[name@].mode, *input) && (batch_rows(*input)
                == 0 || all_supported(batch_columns(*input))) ==> answer is Ok,
    {
        let function = match self.get(name) {
            Some(function) => function,
            None => {
                return Err(Error::NotFound);
            },
        };
        let results = match results_of(py, function, input) {
            Ok(results) => results,
            Err(error) => {
                return Err(error);
            },
        };
        proof {
            lemma_built_cases(function.return_type, values_of(results@));
            if skips_all(function.mode, *input) {
                assert forall|row: int| 0 <= row < results@.len() implies #[trigger] values_of(
                    results@,
                )[row] == Value::Null by {
                    assert(function.mode.skips_row(row_of(*input, row)));
                }
                lemma_nulls_are_well_typed(function.return_type, values_of(results@));
            }
        }
        function.output(name, &results)
    }

    /// Releases every registered function. The token says that the caller holds the
    /// instance: the guest callables are released in it, and only then may it end.
    pub fn clear<'py>(&mut self, _py: Python<'py>)
        ensures
            final(self)@ == Map::<Seq<char>, Function>::empty(),
    {
        self.functions.clear();
    }
}

/// Registering a second function under a name that is in use replaces the first: the
/// name then stands for the second function, and every other name for what it stood for.
pub proof fn lemma_registration_replaces(
    functions: Map<Seq<char>, Function>,
    name: Seq<char>,
    first: Function,
    second: Function,
)
    ensures
        functions.insert(name, first).insert(name, second) == functions.insert(name, second),
        functions.insert(name, first).insert(name, second)[name] == second,
{
    assert(functions.insert(name, first).insert(name, second) =~= functions.insert(name, second));
}

} // verus!
