//! Invoking an export of an instance with arguments given as text.

use crate::engine::{
    call, engine_error_text, engine_value, export_of, into_function, kind_of_type,
    parameter_types, value_of,
};
use crate::linker::GuestInstance;
use crate::value::{parse, parsed, render, rendered, Argument, CodecError, Output, Value, ValueKind};
use vstd::prelude::*;

verus! {

/// Why an invocation failed.
#[derive(Clone, Debug, PartialEq, Eq)]
#[allow(inconsistent_fields)]
pub enum InvokeError {
    /// The instance exports nothing under the name.
    ExportNotFound { name: String },
    /// What the instance exports under the name is not a function.
    NotCallable { name: String },
    /// The export declares `expected` parameters and `got` arguments were given.
    ArityMismatch { expected: usize, got: usize },
    /// The export declares a parameter of a kind that is not read from text.
    UnsupportedParameterKind { position: usize, kind: ValueKind },
    /// The argument at `position` does not denote a value of the parameter's kind.
    ArgumentError { position: usize, kind: ValueKind, cause: CodecError },
    /// The guest code faulted, or the engine refused the call.
    GuestTrap { export: String, cause: String },
}

/// Whether every one of `kinds` can be read from text.
pub open spec fn all_numeric(kinds: Seq<ValueKind>) -> bool {
    forall|i: int| 0 <= i < kinds.len() ==> (#[trigger] kinds[i]).is_numeric()
}

/// Checks the arguments against the declared parameters and reads each as its
/// parameter's kind. In this order: the numbers of parameters and arguments must agree;
/// every parameter must be of a kind that is read from text, and the first that is not
/// is reported before any argument is read; then the arguments are read in order, and
/// the first that cannot be read is reported.
pub fn coerce_arguments(params: &Vec<ValueKind>, args: &Vec<Argument>) -> (r: Result<
    Vec<Value>,
    InvokeError,
>)
    ensures
        params.len() != args.len() ==> r == Err::<Vec<Value>, InvokeError>(
            InvokeError::ArityMismatch { expected: params.len(), got: args.len() },
        ),
        params.len() == args.len() && !all_numeric(params@) ==> r matches Err(
            InvokeError::UnsupportedParameterKind { .. },
        ),
        match r {
            Ok(values) => {
                &&& params.len() == args.len()
                &&& all_numeric(params@)
                &&& values.len() == args.len()
                &&& forall|i: int|
                    0 <= i < args.len() ==> parsed((#[trigger] args[i])@, params[i]) == Some(
                        values[i],
                    )
            },
            Err(InvokeError::ArityMismatch { expected, got }) => {
                &&& params.len() != args.len()
                &&& expected == params.len()
                &&& got == args.len()
            },
            Err(InvokeError::UnsupportedParameterKind { position, kind }) => {
                &&& params.len() == args.len()
                &&& position < params.len()
                &&& kind == params[position as int]
                &&& !kind.is_numeric()
                &&& all_numeric(params@.take(position as int))
            },
            Err(InvokeError::ArgumentError { position, kind, cause }) => {
                &&& params.len() == args.len()
                &&& all_numeric(params@)
                &&& position < args.len()
                &&& kind == params[position as int]
                &&& parsed(args[position as int]@, kind) is None
                &&& forall|j: int|
                    0 <= j < position ==> parsed((#[trigger] args[j])@, params[j]) is Some
                &&& cause matches CodecError::ParseFailure { text, kind: k }
                &&& text@ == args[position as int].text@
                &&& k == kind
            },
            Err(_) => false,
        },
{
    let n = params.len();
    if n != args.len() {
        return Err(InvokeError::ArityMismatch { expected: n, got: args.len() });
    }
    let mut p: usize = 0;
    while p < n
        invariant
            p <= n,
            n == params.len(),
            n == args.len(),
            all_numeric(params@.take(p as int)),
        decreases n - p,
    {
        let kind = params[p];
        if !kind.numeric() {
            return Err(InvokeError::UnsupportedParameterKind { position: p, kind });
        }
        proof {
            assert forall|i: int| 0 <= i < p + 1 implies (#[trigger] params@.take(
                p + 1,
            )[i]).is_numeric() by {
                if i < p {
                    assert(params@.take(p as int)[i].is_numeric());
                }
            }
        }
        p = p + 1;
    }
    proof {
        assert(params@.take(n as int) =~= params@);
    }
    let mut values: Vec<Value> = Vec::new();
    let mut i: usize = 0;
    while i < n
        invariant
            i <= n,
            n == params.len(),
            n == args.len(),
            all_numeric(params@),
            values.len() == i,
            forall|j: int| 0 <= j < i ==> parsed((#[trigger] args[j])@, params[j]) == Some(values[j]),
        decreases n - i,
    {
        match parse(&args[i], params[i]) {
            Ok(value) => {
                values.push(value);
            },
            Err(cause) => {
                proof {
                    assert(params[i as int].is_numeric());
                }
                return Err(InvokeError::ArgumentError { position: i, kind: params[i], cause });
            },
        }
        i = i + 1;
    }
    Ok(values)
}

/// Writes each value, in order.
pub fn render_results(results: &Vec<Value>) -> (lines: Vec<Output>)
    ensures
        lines.len() == results.len(),
        forall|i: int| 0 <= i < results.len() ==> (#[trigger] lines[i])@ == rendered(results[i]),
{
    let mut lines: Vec<Output> = Vec::new();
    let mut i: usize = 0;
    while i < results.len()
        invariant
            i <= results.len(),
            lines.len() == i,
            forall|j: int| 0 <= j < i ==> (#[trigger] lines[j])@ == rendered(results[j]),
        decreases results.len() - i,
    {
        lines.push(render(&results[i]));
        i = i + 1;
    }
    lines
}

/// Whether `argument` denotes a value of some kind that is read from text.
pub open spec fn readable(argument: Argument) -> bool {
    exists|kind: ValueKind| kind.is_numeric() && #[trigger] parsed(argument@, kind) is Some
}

/// Invokes the export `name` of `instance` on `args` and writes what it returns, one
/// output for each result in the order in which the export declares them; each output
/// is what `render` writes for a value.
///
/// The steps, each of which ends the invocation where it fails: the export is looked
/// up and must be a function; the arguments are checked and read against its
/// parameters as `coerce_arguments` does; the function is called; the results are
/// written as `render_results` does. What the instance exports and what the call
/// returns are the engine's to say.
pub fn invoke_export(instance: GuestInstance, name: &str, args: Vec<Argument>) -> (r: Result<
    Vec<Output>,
    InvokeError,
>)
    ensures
        match r {
            Ok(lines) => {
                &&& forall|i: int| 0 <= i < args.len() ==> readable(#[trigger] args[i])
                &&& forall|i: int|
                    0 <= i < lines.len() ==> exists|value: Value|
                        (#[trigger] lines[i])@ == rendered(value)
            },
            Err(InvokeError::ExportNotFound { name: n }) => n@ == name@,
            Err(InvokeError::NotCallable { name: n }) => n@ == name@,
            Err(InvokeError::ArityMismatch { expected, got }) => got == args.len() && expected
                != got,
            Err(InvokeError::UnsupportedParameterKind { position, kind }) => position < args.len()
                && !kind.is_numeric(),
            Err(InvokeError::ArgumentError { position, kind, cause }) => {
                &&& position < args.len()
                &&& kind.is_numeric()
                &&& parsed(args[position as int]@, kind) is None
                &&& forall|j: int| 0 <= j < position ==> readable(#[trigger] args[j])
                &&& cause matches CodecError::ParseFailure { text, kind: k }
                &&& text@ == args[position as int].text@
                &&& k == kind
            },
            Err(InvokeError::GuestTrap { export, .. }) => {
                &&& export@ == name@
                &&& forall|i: int| 0 <= i < args.len() ==> readable(#[trigger] args[i])
            },
        },
{
    let mut registry = instance.registry;
    let item = match export_of(&instance.instance, &mut registry.store, name) {
        Some(item) => item,
        None => {
            return Err(InvokeError::ExportNotFound { name: name.to_owned() });
        },
    };
    let function = match into_function(item) {
        Some(function) => function,
        None => {
            return Err(InvokeError::NotCallable { name: name.to_owned() });
        },
    };
    let types = parameter_types(&function, &registry.store);
    let mut params: Vec<ValueKind> = Vec::new();
    let mut t: usize = 0;
    while t < types.len()
        invariant
            t <= types.len(),
            params.len() == t,
        decreases types.len() - t,
    {
        params.push(kind_of_type(&types[t]));
        t = t + 1;
    }
    let values = match coerce_arguments(&params, &args) {
        Ok(values) => values,
        Err(error) => {
            proof {
                if let InvokeError::ArgumentError { position, .. } = error {
                    assert forall|j: int| 0 <= j < position implies readable(
                        #[trigger] args[j],
                    ) by {
                        assert(params[j].is_numeric());
                        assert(parsed(args[j]@, params[j]) is Some);
                    }
                }
            }
            return Err(error);
        },
    };
    proof {
        assert forall|i: int| 0 <= i < args.len() implies readable(#[trigger] args[i]) by {
            assert(params[i].is_numeric());
            assert(parsed(args[i]@, params[i]) is Some);
        }
    }
    let mut given: Vec<wasmtime::Val> = Vec::new();
    let mut g: usize = 0;
    while g < values.len()
        invariant
            g <= values.len(),
            given.len() == g,
        decreases values.len() - g,
    {
        given.push(engine_value(&values[g]));
        g = g + 1;
    }
    let returned = match call(&function, &mut registry.store, &given) {
        Ok(returned) => returned,
        Err(error) => {
            return Err(
                InvokeError::GuestTrap { export: name.to_owned(), cause: engine_error_text(&error) },
            );
        },
    };
    let mut results: Vec<Value> = Vec::new();
    let mut k: usize = 0;
    while k < returned.len()
        invariant
            k <= returned.len(),
            results.len() == k,
        decreases returned.len() - k,
    {
        results.push(value_of(&returned[k]));
        k = k + 1;
    }
    let lines = render_results(&results);
    proof {
        assert forall|i: int| 0 <= i < lines.len() implies exists|value: Value|
            (#[trigger] lines[i])@ == rendered(value) by {
            assert(lines[i]@ == rendered(results[i]));
        }
    }
    Ok(lines)
}

} // verus!
