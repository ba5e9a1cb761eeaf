//! Values that cross the boundary between host and guest, and their textual forms.
//!
//! Integers are read and written here, in decimal. A float is held as its IEEE 754 bit
//! pattern and never computed with: whoever supplies an argument says what its text
//! denotes as a float, and whoever prints a result writes the float that the bits encode.

use crate::decimal::{decimal_of, decimal_within, digits_of, lemma_decimal_round_trip, read_decimal, write_decimal, write_digits};
use vstd::prelude::*;
use vstd::string::*;

verus! {

/// The kinds of value that a guest function can take or return.
#[derive(Clone, Copy, Debug, PartialEq, Eq, Structural)]
pub enum ValueKind {
    Int32,
    Int64,
    Float32,
    Float64,
    FunctionRef,
    AnyRef,
    Vector128,
}

impl ValueKind {
    /// The kinds that can be read from text: the two integer and the two float kinds.
    pub open spec fn is_numeric(self) -> bool {
        self is Int32 || self is Int64 || self is Float32 || self is Float64
    }

    /// Whether a value of this kind can be read from text.
    pub fn numeric(&self) -> (r: bool)
        ensures
            r == self.is_numeric(),
    {
        match self {
            ValueKind::Int32 | ValueKind::Int64 | ValueKind::Float32 | ValueKind::Float64 => true,
            _ => false,
        }
    }
}

/// A value of one of the seven kinds. A float is its bit pattern; a reference is known
/// by its kind alone.
#[derive(Clone, Copy, Debug, PartialEq, Eq, Structural)]
pub enum Value {
    Int32(i32),
    Int64(i64),
    Float32(u32),
    Float64(u64),
    FunctionRef,
    AnyRef,
    Vector128(u128),
}

impl Value {
    /// The kind of this value.
    pub open spec fn kind_of(self) -> ValueKind {
        match self {
            Value::Int32(_) => ValueKind::Int32,
            Value::Int64(_) => ValueKind::Int64,
            Value::Float32(_) => ValueKind::Float32,
            Value::Float64(_) => ValueKind::Float64,
            Value::FunctionRef => ValueKind::FunctionRef,
            Value::AnyRef => ValueKind::AnyRef,
            Value::Vector128(_) => ValueKind::Vector128,
        }
    }

    /// The kind of this value.
    pub fn kind(&self) -> (k: ValueKind)
        ensures
            k == self.kind_of(),
    {
        match self {
            Value::Int32(_) => ValueKind::Int32,
            Value::Int64(_) => ValueKind::Int64,
            Value::Float32(_) => ValueKind::Float32,
            Value::Float64(_) => ValueKind::Float64,
            Value::FunctionRef => ValueKind::FunctionRef,
            Value::AnyRef => ValueKind::AnyRef,
            Value::Vector128(_) => ValueKind::Vector128,
        }
    }
}

/// One argument as it was given: its text, and the bit patterns of the floats that the
/// text denotes in decimal, at single and at double width, where it denotes one.
#[derive(Clone, Debug, PartialEq, Eq)]
pub struct Argument {
    pub text: String,
    pub single: Option<u32>,
    pub double: Option<u64>,
}

/// An argument as contracts see it.
pub struct ArgumentView {
    pub text: Seq<char>,
    pub single: Option<u32>,
    pub double: Option<u64>,
}

impl View for Argument {
    type V = ArgumentView;

    open spec fn view(&self) -> ArgumentView {
        ArgumentView { text: self.text@, single: self.single, double: self.double }
    }
}

/// Why an argument could not be read.
#[derive(Clone, Debug, PartialEq, Eq)]
pub enum CodecError {
    /// No value of this kind is read from text.
    UnsupportedInputKind { kind: ValueKind },
    /// The text does not denote a value of this kind.
    ParseFailure { text: String, kind: ValueKind },
}

/// What is written for one value: a finished line, or a float for the writer to put
/// in decimal.
#[derive(Clone, Debug, PartialEq, Eq)]
pub enum Output {
    Text(String),
    Single(u32),
    Double(u64),
}

/// An output as contracts see it.
pub enum OutputView {
    Text(Seq<char>),
    Single(u32),
    Double(u64),
}

impl View for Output {
    type V = OutputView;

    open spec fn view(&self) -> OutputView {
        match self {
            Output::Text(t) => OutputView::Text(t@),
            Output::Single(b) => OutputView::Single(*b),
            Output::Double(b) => OutputView::Double(*b),
        }
    }
}

/// The value of kind `kind` that `argument` denotes, if it denotes one: for an integer
/// kind the decimal integer of its text, where that fits the kind's width; for a float
/// kind its reading at that width; for any other kind, none.
pub open spec fn parsed(argument: ArgumentView, kind: ValueKind) -> Option<Value> {
    match kind {
        ValueKind::Int32 => match decimal_within(argument.text, i32::MIN as int, i32::MAX as int) {
            Some(v) => Some(Value::Int32(v as i32)),
            None => None,
        },
        ValueKind::Int64 => match decimal_within(argument.text, i64::MIN as int, i64::MAX as int) {
            Some(v) => Some(Value::Int64(v as i64)),
            None => None,
        },
        ValueKind::Float32 => match argument.single {
            Some(bits) => Some(Value::Float32(bits)),
            None => None,
        },
        ValueKind::Float64 => match argument.double {
            Some(bits) => Some(Value::Float64(bits)),
            None => None,
        },
        _ => None,
    }
}

/// What is written for `value`: the decimal text of an integer or of a vector's bit
/// pattern, a float's bits, and for a reference a token that tells its kind.
pub open spec fn rendered(value: Value) -> OutputView {
    match value {
        Value::Int32(n) => OutputView::Text(decimal_of(n as int)),
        Value::Int64(n) => OutputView::Text(decimal_of(n as int)),
        Value::Float32(bits) => OutputView::Single(bits),
        Value::Float64(bits) => OutputView::Double(bits),
        Value::FunctionRef => OutputView::Text("<funcref>"@),
        Value::AnyRef => OutputView::Text("<anyref>"@),
        Value::Vector128(bits) => OutputView::Text(digits_of(bits as nat)),
    }
}

/// Reads `argument` as a value of kind `kind`.
pub fn parse(argument: &Argument, kind: ValueKind) -> (r: Result<Value, CodecError>)
    ensures
        match r {
            Ok(v) => parsed(argument@, kind) == Some(v),
            Err(CodecError::UnsupportedInputKind { kind: k }) => !kind.is_numeric() && k == kind,
            Err(CodecError::ParseFailure { text, kind: k }) => kind.is_numeric() && parsed(
                argument@,
                kind,
            ) is None && text@ == argument.text@ && k == kind,
        },
{
    let read = match kind {
        ValueKind::Int32 => match read_decimal(
            argument.text.as_str(),
            i32::MIN as i64,
            i32::MAX as i64,
        ) {
            Some(v) => Some(Value::Int32(v as i32)),
            None => None,
        },
        ValueKind::Int64 => match read_decimal(argument.text.as_str(), i64::MIN, i64::MAX) {
            Some(v) => Some(Value::Int64(v)),
            None => None,
        },
        ValueKind::Float32 => match argument.single {
            Some(bits) => Some(Value::Float32(bits)),
            None => None,
        },
        ValueKind::Float64 => match argument.double {
            Some(bits) => Some(Value::Float64(bits)),
            None => None,
        },
        _ => {
            return Err(CodecError::UnsupportedInputKind { kind });
        },
    };
    match read {
        Some(v) => Ok(v),
        None => Err(CodecError::ParseFailure { text: argument.text.clone(), kind }),
    }
}

/// Writes `value`.
pub fn render(value: &Value) -> (r: Output)
    ensures
        r@ == rendered(*value),
{
    match value {
        Value::Int32(n) => Output::Text(write_decimal(*n as i64)),
        Value::Int64(n) => Output::Text(write_decimal(*n)),
        Value::Float32(bits) => Output::Single(*bits),
        Value::Float64(bits) => Output::Double(*bits),
        Value::FunctionRef => Output::Text(String::from_str("<funcref>")),
        Value::AnyRef => Output::Text(String::from_str("<anyref>")),
        Value::Vector128(bits) => {
            let mut text = String::new();
            write_digits(&mut text, *bits);
            assert(text@ =~= digits_of(*bits as nat));
            Output::Text(text)
        },
    }
}

/// Reading back what was written for an integer gives that integer: the text of a value
/// of kind `Int32` or `Int64`, read as that kind, denotes the value, whatever the text
/// is said to denote as a float.
pub proof fn lemma_integer_round_trip(value: Value, single: Option<u32>, double: Option<u64>)
    requires
        value is Int32 || value is Int64,
    ensures
        rendered(value) is Text,
        parsed(
            ArgumentView { text: rendered(value)->Text_0, single, double },
            value.kind_of(),
        ) == Some(value),
{
    match value {
        Value::Int32(n) => {
            lemma_decimal_round_trip(n as int);
        },
        Value::Int64(n) => {
            lemma_decimal_round_trip(n as int);
        },
        _ => {},
    }
}

/// Whether `argument` carries what `output` holds: its text, where `output` is text;
/// its bits as the reading of their width, where `output` is a float.
pub open spec fn carries(argument: ArgumentView, output: OutputView) -> bool {
    match output {
        OutputView::Text(text) => argument.text == text,
        OutputView::Single(bits) => argument.single == Some(bits),
        OutputView::Double(bits) => argument.double == Some(bits),
    }
}

/// Reading back what was written for a value of a numeric kind gives that value. For an
/// integer the argument carries the text that was written. For a float it carries, as
/// its reading, the bits that were handed out; that the decimal text of a float denotes
/// its bits is for whoever writes and reads that text to see to.
pub proof fn lemma_numeric_round_trip(value: Value, argument: ArgumentView)
    requires
        value.kind_of().is_numeric(),
        carries(argument, rendered(value)),
    ensures
        parsed(argument, value.kind_of()) == Some(value),
{
    match value {
        Value::Int32(_) | Value::Int64(_) => {
            lemma_integer_round_trip(value, argument.single, argument.double);
        },
        _ => {},
    }
}

} // verus!
