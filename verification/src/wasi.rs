//! The two generations of the system interface, as this library uses them. Nothing in
//! this file is proved: each contract here is taken from the named crate's source.

use crate::engine::defined;
use crate::registry::{Namespace, WasiContexts};
use vstd::prelude::*;

verus! {

/// `wasi_common::WasiCtx`: what a guest may reach through a system interface.
#[verifier::external_type_specification]
#[verifier::external_body]
pub struct ExContext(wasi_common::WasiCtx);

/// A context whose three standard streams are those of the host process:
/// `wasi_common::sync::WasiCtxBuilder`, from `new` through the three `inherit_std*`
/// calls to `build`, in one expression, since `build` may run only once on a builder.
#[verifier::external_body]
pub(crate) fn inherited_context() -> wasi_common::WasiCtx {
    wasi_common::sync::WasiCtxBuilder::new().inherit_stdin().inherit_stdout().inherit_stderr().build()
}

/// Whether the current interface has a function called `symbol`: whether
/// `add_wasi_snapshot_preview1_to_linker` defines one of that name. The functions are
/// those that the interface's description lists, so the answer depends on the name alone.
pub uninterp spec fn preview1_exports(symbol: Seq<char>) -> bool;

/// Whether the earlier interface has a function called `symbol`: whether
/// `add_wasi_unstable_to_linker` defines one of that name. The functions are those that
/// the interface's description lists, so the answer depends on the name alone.
pub uninterp spec fn unstable_exports(symbol: Seq<char>) -> bool;

/// The pairs of the name of `namespace` and a symbol that `exports` holds of.
pub open spec fn functions_of(namespace: Namespace, exports: spec_fn(Seq<char>) -> bool) -> Set<
    (Seq<char>, Seq<char>),
> {
    Set::new(|name: (Seq<char>, Seq<char>)| name.0 == namespace.name() && exports(name.1))
}

/// `wasi_common::sync::snapshots::preview_1::add_wasi_snapshot_preview1_to_linker`:
/// defines in `linker` the functions of the current interface, each under the
/// namespace `wasi_snapshot_preview1` and its own name; they work on the first of the
/// store's two contexts. It defines them one by one with `Linker::func_wrap` and stops
/// with an error at the first that the linker refuses; of the linker nothing is said
/// then. The names of the interface differ from each other, so it succeeds where the
/// linker holds none of them.
#[verifier::external_body]
pub(crate) fn add_preview1(linker: &mut wasmtime::Linker<WasiContexts>) -> (r: Result<
    (),
    wasmtime::Error,
>)
    ensures
        defined(*old(linker)).disjoint(
            functions_of(Namespace::Preview1, |symbol: Seq<char>| preview1_exports(symbol)),
        ) ==> r is Ok,
        r is Ok ==> defined(*final(linker)) == defined(*old(linker)).union(
            functions_of(Namespace::Preview1, |symbol: Seq<char>| preview1_exports(symbol)),
        ),
{
    wasi_common::sync::snapshots::preview_1::add_wasi_snapshot_preview1_to_linker(
        linker,
        |contexts: &mut WasiContexts| &mut contexts.wasi_snapshot_preview1,
    )
}

/// `wasi_common::sync::snapshots::preview_0::add_wasi_unstable_to_linker`: defines in
/// `linker` the functions of the earlier interface, each under the namespace
/// `wasi_unstable` and its own name; they work on the second of the store's two
/// contexts. It defines them one by one with `Linker::func_wrap` and stops with an
/// error at the first that the linker refuses; of the linker nothing is said then. The
/// names of the interface differ from each other, so it succeeds where the linker holds
/// none of them.
#[verifier::external_body]
pub(crate) fn add_unstable(linker: &mut wasmtime::Linker<WasiContexts>) -> (r: Result<
    (),
    wasmtime::Error,
>)
    ensures
        defined(*old(linker)).disjoint(
            functions_of(Namespace::Unstable, |symbol: Seq<char>| unstable_exports(symbol)),
        ) ==> r is Ok,
        r is Ok ==> defined(*final(linker)) == defined(*old(linker)).union(
            functions_of(Namespace::Unstable, |symbol: Seq<char>| unstable_exports(symbol)),
        ),
{
    wasi_common::sync::snapshots::preview_0::add_wasi_unstable_to_linker(
        linker,
        |contexts: &mut WasiContexts| &mut contexts.wasi_unstable,
    )
}

} // verus!
