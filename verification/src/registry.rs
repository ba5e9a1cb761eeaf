//! The host namespaces that a guest module may import from, and the registry of the
//! two that the system interface provides.

use crate::engine::{definition, defined, engine_error_text, new_linker, new_store};
use crate::text::same_text;
use crate::wasi::{
    add_preview1, add_unstable, functions_of, inherited_context, preview1_exports,
    unstable_exports,
};
use vstd::prelude::*;
use vstd::string::*;

verus! {

/// The namespaces that the host knows.
#[derive(Clone, Copy, Debug, PartialEq, Eq, Structural)]
pub enum Namespace {
    /// The current system interface, `wasi_snapshot_preview1`.
    Preview1,
    /// The earlier system interface, `wasi_unstable`.
    Unstable,
    /// The arithmetic namespace, `calculator`.
    Calculator,
}

impl Namespace {
    /// The name under which a module imports from this namespace.
    pub open spec fn name(self) -> Seq<char> {
        match self {
            Namespace::Preview1 => "wasi_snapshot_preview1"@,
            Namespace::Unstable => "wasi_unstable"@,
            Namespace::Calculator => "calculator"@,
        }
    }

    /// The namespace that `name` names, if it names one.
    pub open spec fn named(name: Seq<char>) -> Option<Namespace> {
        if name == Namespace::Preview1.name() {
            Some(Namespace::Preview1)
        } else if name == Namespace::Unstable.name() {
            Some(Namespace::Unstable)
        } else if name == Namespace::Calculator.name() {
            Some(Namespace::Calculator)
        } else {
            None
        }
    }

    /// The three names differ: each namespace is the one that its name names, and two
    /// namespaces of one name are the same.
    pub proof fn lemma_names_differ()
        ensures
            Namespace::named(Namespace::Preview1.name()) == Some(Namespace::Preview1),
            Namespace::named(Namespace::Unstable.name()) == Some(Namespace::Unstable),
            Namespace::named(Namespace::Calculator.name()) == Some(Namespace::Calculator),
            forall|a: Namespace, b: Namespace| #[trigger] a.name() == #[trigger] b.name() ==> a == b,
    {
        reveal_strlit("wasi_snapshot_preview1");
        reveal_strlit("wasi_unstable");
        reveal_strlit("calculator");
        assert("wasi_snapshot_preview1"@.len() != "wasi_unstable"@.len());
        assert("wasi_snapshot_preview1"@.len() != "calculator"@.len());
        assert("wasi_unstable"@.len() != "calculator"@.len());
    }

    /// The name under which a module imports from this namespace.
    pub fn text(&self) -> (r: &'static str)
        ensures
            r@ == self.name(),
    {
        match self {
            Namespace::Preview1 => "wasi_snapshot_preview1",
            Namespace::Unstable => "wasi_unstable",
            Namespace::Calculator => "calculator",
        }
    }

    /// The namespace that `name` names, if it names one.
    pub fn recognize(name: &str) -> (r: Option<Namespace>)
        ensures
            r == Namespace::named(name@),
    {
        if same_text(name, "wasi_snapshot_preview1") {
            Some(Namespace::Preview1)
        } else if same_text(name, "wasi_unstable") {
            Some(Namespace::Unstable)
        } else if same_text(name, "calculator") {
            Some(Namespace::Calculator)
        } else {
            None
        }
    }
}

/// Why the registry could not be built.
#[derive(Clone, Debug, PartialEq, Eq)]
pub enum RegistryInitError {
    /// The functions of a namespace could not be defined.
    Unavailable { namespace: Namespace, cause: String },
}

/// The functions of the two system interfaces, as pairs of namespace name and symbol.
pub open spec fn system_functions() -> Set<(Seq<char>, Seq<char>)> {
    functions_of(Namespace::Preview1, |symbol: Seq<char>| preview1_exports(symbol)).union(
        functions_of(Namespace::Unstable, |symbol: Seq<char>| unstable_exports(symbol)),
    )
}

/// What the guest may reach through each of the two system interfaces.
pub struct WasiContexts {
    pub(crate) wasi_snapshot_preview1: wasi_common::WasiCtx,
    pub(crate) wasi_unstable: wasi_common::WasiCtx,
}

/// The functions of the two system interfaces, with the store that they and the guest
/// live in. It is made once and its functions do not change afterwards.
pub struct ModuleRegistry {
    pub(crate) store: wasmtime::Store<WasiContexts>,
    pub(crate) functions: wasmtime::Linker<WasiContexts>,
}

impl ModuleRegistry {
    /// The pairs of namespace name and symbol that the registry has a function for.
    pub closed spec fn names(&self) -> Set<(Seq<char>, Seq<char>)> {
        defined(self.functions)
    }

    /// The registry's names are those of its functions, whatever its store holds.
    pub(crate) proof fn lemma_names_of_functions(self, other: ModuleRegistry)
        requires
            self.functions == other.functions,
        ensures
            self.names() == other.names(),
    {
    }

    /// Whether the registry has a function called `symbol` in `namespace`.
    pub open spec fn has(&self, namespace: Namespace, symbol: Seq<char>) -> bool {
        self.names().contains((namespace.name(), symbol))
    }

    /// Builds the registry for `engine`: a store whose two contexts are on the standard
    /// streams of the host process, and the functions of both system interfaces and no
    /// others. It succeeds: the functions go into a new linker, which holds none of
    /// their names, and the two interfaces share no name. The error is for an engine
    /// that refuses the functions of an interface all the same, which one that has the
    /// memory does not.
    pub fn new(engine: &wasmtime::Engine) -> (r: Result<ModuleRegistry, RegistryInitError>)
        ensures
            r matches Ok(registry) && registry.names() == system_functions(),
    {
        let cx1 = inherited_context();
        let cx2 = inherited_context();
        let store = new_store(
            engine,
            WasiContexts { wasi_snapshot_preview1: cx1, wasi_unstable: cx2 },
        );
        let mut functions = new_linker(&store);
        proof {
            Namespace::lemma_names_differ();
        }
        match add_preview1(&mut functions) {
            Ok(_) => {},
            Err(error) => {
                return Err(
                    RegistryInitError::Unavailable {
                        namespace: Namespace::Preview1,
                        cause: engine_error_text(&error),
                    },
                );
            },
        }
        match add_unstable(&mut functions) {
            Ok(_) => {},
            Err(error) => {
                return Err(
                    RegistryInitError::Unavailable {
                        namespace: Namespace::Unstable,
                        cause: engine_error_text(&error),
                    },
                );
            },
        }
        assert(defined(functions) =~= system_functions());
        Ok(ModuleRegistry { store, functions })
    }

    /// The function called `symbol` in the namespace called `namespace`: there is one
    /// exactly where the name is that of a system interface and the registry has the
    /// symbol in it. A symbol is looked for only in the namespace that was named. The
    /// registry has afterwards what it had.
    pub fn lookup(&mut self, namespace: &str, symbol: &str) -> (r: Option<wasmtime::Extern>)
        ensures
            final(self).names() == old(self).names(),
            r.is_some() == match Namespace::named(namespace@) {
                Some(Namespace::Preview1) => old(self).has(Namespace::Preview1, symbol@),
                Some(Namespace::Unstable) => old(self).has(Namespace::Unstable, symbol@),
                _ => false,
            },
    {
        match Namespace::recognize(namespace) {
            Some(Namespace::Preview1) | Some(Namespace::Unstable) => definition(
                &self.functions,
                &mut self.store,
                namespace,
                symbol,
            ),
            _ => None,
        }
    }
}

} // verus!
