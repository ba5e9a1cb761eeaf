//! The execution engine and the text assembler, as this library uses them. Nothing in
//! this file is proved: each contract here is taken from the named crate's source.
//!
//! A store owns what is made in it, and the engine panics where an item is used with a
//! store that does not own it, or a linker with a store of another engine. The library
//! makes one store and one linker for a registry, from one engine, keeps both to itself,
//! and calls the functions below on these alone.
//!
//! The engine answers with an error where memory runs out. The contracts here leave
//! that out, as contracts on allocating calls do: where one says that a call succeeds,
//! it says so of a host that has the memory.

use crate::calculator::guest_add;
use crate::linker::{import_views, ImportDeclaration, ImportView};
use crate::registry::WasiContexts;
use crate::value::{Value, ValueKind};
use vstd::prelude::*;

verus! {

/// `wasmtime::Engine`: the compiler and its settings.
#[verifier::external_type_specification]
#[verifier::external_body]
pub struct ExEngine(wasmtime::Engine);

/// `wasmtime::Store`: what owns the functions and instances made in it, and the host's
/// data.
#[verifier::external_type_specification]
#[verifier::external_body]
#[verifier::reject_recursive_types(T)]
pub struct ExStore<T: 'static>(wasmtime::Store<T>);

/// `wasmtime::Module`: a compiled module.
#[verifier::external_type_specification]
#[verifier::external_body]
pub struct ExModule(wasmtime::Module);

/// `wasmtime::Linker`: definitions by namespace and symbol, which a module's imports
/// are matched against.
#[verifier::external_type_specification]
#[verifier::external_body]
#[verifier::reject_recursive_types(T)]
pub struct ExLinker<T>(wasmtime::Linker<T>);

/// `wasmtime::Instance`: an instantiated module.
#[verifier::external_type_specification]
#[verifier::external_body]
pub struct ExInstance(wasmtime::Instance);

/// `wasmtime::Extern`: an item that a linker defines or an instance exports.
#[verifier::external_type_specification]
#[verifier::external_body]
pub struct ExItem(wasmtime::Extern);

/// `wasmtime::Func`: a callable function, of the host or of a guest.
#[verifier::external_type_specification]
#[verifier::external_body]
pub struct ExFunc(wasmtime::Func);

/// `wasmtime::Val`: a value as the engine holds it.
#[verifier::external_type_specification]
#[verifier::external_body]
pub struct ExVal(wasmtime::Val);

/// `wasmtime::ValType`: a value's kind as the engine names it.
#[verifier::external_type_specification]
#[verifier::external_body]
pub struct ExValType(wasmtime::ValType);

/// `wasmtime::Error`: the error that the engine's calls return.
#[verifier::external_type_specification]
#[verifier::external_body]
pub struct ExEngineError(wasmtime::Error);

/// `wat::Error`: the error that the assembler returns.
#[verifier::external_type_specification]
#[verifier::external_body]
pub struct ExAssemblerError(wat::Error);

/// The binary module that `wat::parse_bytes` returns for `source`, where it returns one.
pub uninterp spec fn assembled(source: Seq<u8>) -> Option<Seq<u8>>;

/// The imports that the module made from `binary` by `wasmtime::Module::new` declares,
/// as `wasmtime::Module::imports` lists them. They are read from the bytes, whatever
/// the engine's settings.
pub uninterp spec fn declared(binary: Seq<u8>) -> Seq<ImportView>;

/// The pairs of namespace and symbol under which `linker` holds a definition.
pub uninterp spec fn defined(linker: wasmtime::Linker<WasiContexts>) -> Set<(Seq<char>, Seq<char>)>;

/// Whether `source` begins with the four bytes that open a binary module.
pub open spec fn is_binary(source: Seq<u8>) -> bool {
    source.len() >= 4 && source[0] == 0x00 && source[1] == 0x61 && source[2] == 0x73 && source[3]
        == 0x6d
}

/// `wat::parse_bytes`. Its result is a function of the bytes alone. As documented, bytes
/// that begin like a binary module come back unchanged; anything else is read as module
/// text, which must be UTF-8.
#[verifier::external_body]
pub(crate) fn assemble(source: &[u8]) -> (r: Result<Vec<u8>, wat::Error>)
    ensures
        match r {
            Ok(binary) => assembled(source@) == Some(binary@),
            Err(_) => assembled(source@) is None,
        },
        is_binary(source@) ==> r is Ok && r->Ok_0@ == source@,
{
    wat::parse_bytes(source).map(|binary| binary.into_owned())
}

/// The message of a `wat::Error`, as its `Display` writes it.
#[verifier::external_body]
pub(crate) fn assembler_error_text(error: &wat::Error) -> String {
    format!("{}", error)
}

/// The message of a `wasmtime::Error` with its chain of causes, as `{:#}` writes it.
#[verifier::external_body]
pub(crate) fn engine_error_text(error: &wasmtime::Error) -> String {
    format!("{:#}", error)
}

/// `wasmtime::Error::msg`: an error that carries `message`.
#[verifier::external_body]
pub(crate) fn new_fault(message: &str) -> wasmtime::Error {
    wasmtime::Error::msg(message.to_string())
}

/// `wasmtime::Store::new`: a store of `engine` that holds `contexts` as the host's data.
#[verifier::external_body]
pub(crate) fn new_store(engine: &wasmtime::Engine, contexts: WasiContexts) -> wasmtime::Store<
    WasiContexts,
> {
    wasmtime::Store::new(engine, contexts)
}

/// `wasmtime::Linker::new`, for the engine of `store`: a linker that holds no
/// definition.
#[verifier::external_body]
pub(crate) fn new_linker(store: &wasmtime::Store<WasiContexts>) -> (linker: wasmtime::Linker<
    WasiContexts,
>)
    ensures
        defined(linker) == Set::<(Seq<char>, Seq<char>)>::empty(),
{
    wasmtime::Linker::new(store.engine())
}

/// `wasmtime::Module::new`, for the engine of `store`, and of the module that it gives
/// `wasmtime::Module::imports`: validates and compiles `binary`, and lists what the
/// module imports, in the order of its declarations and with repetitions kept, of each
/// import the two names as `ImportType::module` and `ImportType::name` give them.
/// Nothing is said of when it succeeds. Where it does, the imports are those that the
/// bytes declare.
#[verifier::external_body]
pub(crate) fn compile(store: &wasmtime::Store<WasiContexts>, binary: &[u8]) -> (r: Result<
    (wasmtime::Module, Vec<ImportDeclaration>),
    wasmtime::Error,
>)
    ensures
        r matches Ok(pair) ==> import_views(pair.1@) == declared(binary@),
{
    let module = wasmtime::Module::new(store.engine(), binary)?;
    let imports = module
        .imports()
        .map(|import| ImportDeclaration {
            namespace: import.module().to_string(),
            symbol: import.name().to_string(),
        })
        .collect();
    Ok((module, imports))
}

/// `wasmtime::Linker::get`: the item that `linker` defines under the two names, made
/// ready in `store`. The linker has one exactly where it holds a definition under the
/// names; the call changes the store and leaves the linker as it was.
#[verifier::external_body]
pub(crate) fn definition(
    linker: &wasmtime::Linker<WasiContexts>,
    store: &mut wasmtime::Store<WasiContexts>,
    namespace: &str,
    symbol: &str,
) -> (r: Option<wasmtime::Extern>)
    ensures
        r.is_some() == defined(*linker).contains((namespace@, symbol@)),
{
    linker.get(store, namespace, symbol).ok()
}

/// `wasmtime::Linker::define`. It succeeds where the linker holds no definition under
/// the two names: its `insert` refuses a pair that is there already and nothing else.
/// Where it succeeds the linker holds a definition under the two names besides what it
/// held; where it fails the linker holds what it held.
#[verifier::external_body]
pub(crate) fn define(
    linker: &mut wasmtime::Linker<WasiContexts>,
    store: &wasmtime::Store<WasiContexts>,
    namespace: &str,
    symbol: &str,
    item: wasmtime::Extern,
) -> (r: Result<(), wasmtime::Error>)
    ensures
        !defined(*old(linker)).contains((namespace@, symbol@)) ==> r is Ok,
        r is Ok ==> defined(*final(linker)) == defined(*old(linker)).insert(
            (namespace@, symbol@),
        ),
        r is Err ==> defined(*final(linker)) == defined(*old(linker)),
{
    linker.define(store, namespace, symbol, item).map(|_| ())
}

/// `wasmtime::Linker::func_wrap`, with the library's `guest_add` as the function: it
/// defines under the two names a host function from two 32-bit integers to one. It
/// succeeds where `define` does, and success and failure leave the linker as `define`
/// does.
#[verifier::external_body]
pub(crate) fn define_add(
    linker: &mut wasmtime::Linker<WasiContexts>,
    namespace: &str,
    symbol: &str,
) -> (r: Result<(), wasmtime::Error>)
    ensures
        !defined(*old(linker)).contains((namespace@, symbol@)) ==> r is Ok,
        r is Ok ==> defined(*final(linker)) == defined(*old(linker)).insert(
            (namespace@, symbol@),
        ),
        r is Err ==> defined(*final(linker)) == defined(*old(linker)),
{
    linker.func_wrap(namespace, symbol, |lh: i32, rh: i32| guest_add(lh, rh)).map(|_| ())
}

/// `wasmtime::Linker::instantiate`: matches each import of `module` with the definition
/// of its names, checks the signatures, instantiates the module in `store` and runs its
/// start function. It fails where an import has no matching definition, where the
/// engine refuses the module, and where the start function faults; a start function
/// that does not end keeps it from returning.
#[verifier::external_body]
pub(crate) fn link(
    linker: &wasmtime::Linker<WasiContexts>,
    store: &mut wasmtime::Store<WasiContexts>,
    module: &wasmtime::Module,
) -> Result<wasmtime::Instance, wasmtime::Error> {
    linker.instantiate(store, module)
}

/// `wasmtime::Instance::get_export`: the item that the instance exports as `name`,
/// where it exports one.
#[verifier::external_body]
pub(crate) fn export_of(
    instance: &wasmtime::Instance,
    store: &mut wasmtime::Store<WasiContexts>,
    name: &str,
) -> Option<wasmtime::Extern> {
    instance.get_export(store, name)
}

/// `wasmtime::Extern::into_func`: the function that `item` is, where it is one.
#[verifier::external_body]
pub(crate) fn into_function(item: wasmtime::Extern) -> Option<wasmtime::Func> {
    item.into_func()
}

/// `wasmtime::Func::ty` and, of its result, `FuncType::params`: the kinds of the
/// function's parameters, in order.
#[verifier::external_body]
pub(crate) fn parameter_types(
    function: &wasmtime::Func,
    store: &wasmtime::Store<WasiContexts>,
) -> Vec<wasmtime::ValType> {
    function.ty(store).params().collect()
}

/// The library's name for a kind of the engine. The four numeric kinds and the vector
/// kind go variant for variant. Of the reference kinds, those of functions (whose
/// hierarchy has `HeapType::Func` at the top) are `FunctionRef`, all others `AnyRef`.
#[verifier::external_body]
pub(crate) fn kind_of_type(ty: &wasmtime::ValType) -> ValueKind {
    match ty {
        wasmtime::ValType::I32 => ValueKind::Int32,
        wasmtime::ValType::I64 => ValueKind::Int64,
        wasmtime::ValType::F32 => ValueKind::Float32,
        wasmtime::ValType::F64 => ValueKind::Float64,
        wasmtime::ValType::V128 => ValueKind::Vector128,
        wasmtime::ValType::Ref(reference) => match reference.heap_type().top() {
            wasmtime::HeapType::Func => ValueKind::FunctionRef,
            _ => ValueKind::AnyRef,
        },
    }
}

/// The engine's form of a value of the library, variant for variant. A reference, of
/// which the library keeps the kind alone, becomes the null reference of its kind.
#[verifier::external_body]
pub(crate) fn engine_value(value: &Value) -> wasmtime::Val {
    match value {
        Value::Int32(n) => wasmtime::Val::I32(*n),
        Value::Int64(n) => wasmtime::Val::I64(*n),
        Value::Float32(bits) => wasmtime::Val::F32(*bits),
        Value::Float64(bits) => wasmtime::Val::F64(*bits),
        Value::Vector128(bits) => wasmtime::Val::V128((*bits).into()),
        Value::FunctionRef => wasmtime::Val::FuncRef(None),
        Value::AnyRef => wasmtime::Val::ExternRef(None),
    }
}

/// The library's form of a value of the engine. Of a reference only the kind is kept:
/// `FunctionRef` for a function reference, `AnyRef` for every other.
#[verifier::external_body]
pub(crate) fn value_of(val: &wasmtime::Val) -> Value {
    match val {
        wasmtime::Val::I32(n) => Value::Int32(*n),
        wasmtime::Val::I64(n) => Value::Int64(*n),
        wasmtime::Val::F32(bits) => Value::Float32(*bits),
        wasmtime::Val::F64(bits) => Value::Float64(*bits),
        wasmtime::Val::V128(bits) => Value::Vector128(bits.as_u128()),
        wasmtime::Val::FuncRef(_) => Value::FunctionRef,
        wasmtime::Val::ExternRef(_) => Value::AnyRef,
        wasmtime::Val::AnyRef(_) => Value::AnyRef,
        wasmtime::Val::ExnRef(_) => Value::AnyRef,
        wasmtime::Val::ContRef(_) => Value::AnyRef,
    }
}

/// `wasmtime::Func::call`, with room for as many results as `Func::ty` declares. It
/// fails where the arguments do not match the function's parameters in number and
/// kind, and where the guest code faults; guest code that does not end keeps it from
/// returning.
#[verifier::external_body]
pub(crate) fn call(
    function: &wasmtime::Func,
    store: &mut wasmtime::Store<WasiContexts>,
    arguments: &Vec<wasmtime::Val>,
) -> Result<Vec<wasmtime::Val>, wasmtime::Error> {
    let mut results = vec![wasmtime::Val::I32(0); function.ty(&*store).results().len()];
    function.call(store, arguments, &mut results).map(|_| results)
}

} // verus!
