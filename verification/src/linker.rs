//! Matching a module's imports against the host namespaces, and instantiating it.

use crate::calculator::CalculatorCtx;
use crate::engine::{
    assemble, assembled, assembler_error_text, compile, declared, define, define_add, defined,
    engine_error_text, is_binary, link, new_linker,
};
use crate::registry::{ModuleRegistry, Namespace, WasiContexts};
use crate::text::same_text;
use vstd::prelude::*;
use vstd::string::*;

verus! {

/// One import of a module: the namespace and the symbol that it asks for.
#[derive(Clone, Debug, PartialEq, Eq)]
pub struct ImportDeclaration {
    pub namespace: String,
    pub symbol: String,
}

/// An import as contracts see it.
pub struct ImportView {
    pub namespace: Seq<char>,
    pub symbol: Seq<char>,
}

impl View for ImportDeclaration {
    type V = ImportView;

    open spec fn view(&self) -> ImportView {
        ImportView { namespace: self.namespace@, symbol: self.symbol@ }
    }
}

/// The imports of a list as contracts see them.
pub open spec fn import_views(imports: Seq<ImportDeclaration>) -> Seq<ImportView> {
    imports.map_values(|import: ImportDeclaration| import@)
}

/// Why a module could not be loaded.
#[derive(Clone, Debug, PartialEq, Eq)]
pub enum ParseError {
    /// The source is neither a binary module nor well-formed module text.
    Text { cause: String },
    /// The engine refused the binary module.
    Module { cause: String },
}

/// A loaded module: the compiled module, and its imports in the order of their
/// declarations. It is made by `load` alone, so the imports are the module's own.
pub struct ModuleDescriptor {
    pub(crate) module: wasmtime::Module,
    pub(crate) imports: Vec<ImportDeclaration>,
}

impl View for ModuleDescriptor {
    type V = Seq<ImportView>;

    /// The imports that the module declares, in order.
    closed spec fn view(&self) -> Seq<ImportView> {
        import_views(self.imports@)
    }
}

impl ModuleDescriptor {
    /// Loads a module from `source`, which holds a binary module or module text, for
    /// the engine of `registry`. The source is refused as text exactly where the
    /// assembler has no binary for it, which is never so for a source that begins like
    /// a binary module. Whether the engine then accepts the binary is the engine's to
    /// say; where it does, the module that comes back has the imports that the binary
    /// declares.
    pub fn load(registry: &ModuleRegistry, source: &[u8]) -> (r: Result<
        ModuleDescriptor,
        ParseError,
    >)
        ensures
            r matches Err(ParseError::Text { .. }) <==> assembled(source@) is None,
            is_binary(source@) ==> !(r matches Err(ParseError::Text { .. })),
            r matches Ok(module) ==> assembled(source@) matches Some(binary) && module@
                == declared(binary),
    {
        let binary = match assemble(source) {
            Ok(binary) => binary,
            Err(error) => {
                return Err(ParseError::Text { cause: assembler_error_text(&error) });
            },
        };
        match compile(&registry.store, binary.as_slice()) {
            Ok((module, imports)) => Ok(ModuleDescriptor { module, imports }),
            Err(error) => Err(ParseError::Module { cause: engine_error_text(&error) }),
        }
    }

    /// The imports that the module declares, in order.
    pub fn imports(&self) -> (imports: &Vec<ImportDeclaration>)
        ensures
            import_views(imports@) == self@,
    {
        &self.imports
    }
}

/// What to do with an import from a namespace that the host does not know.
#[derive(Clone, Copy, Debug, PartialEq, Eq, Structural)]
pub enum Policy {
    /// Leave it unbound, on the assumption that the guest will not call it.
    Permissive,
    /// Refuse the module.
    Strict,
}

/// One entry of a link set: a symbol of a namespace. The namespace says what the entry
/// is bound to: the registry's function of that name, or the `add` of the arithmetic
/// namespace.
#[derive(Clone, Debug, PartialEq, Eq)]
pub struct Binding {
    pub namespace: Namespace,
    pub symbol: String,
}

/// Why the imports of a module could not be resolved.
#[derive(Clone, Debug, PartialEq, Eq)]
pub enum LinkError {
    /// The named namespace has no such symbol, or, under the strict policy, the host
    /// does not know the namespace.
    UnresolvedImport { namespace: String, symbol: String },
}

/// Whether `namespace` has a function called `symbol`: a system interface has what
/// the registry, whose functions are `registered`, holds for it; the arithmetic
/// namespace has `add` and nothing else.
pub open spec fn provides(
    registered: Set<(Seq<char>, Seq<char>)>,
    namespace: Namespace,
    symbol: Seq<char>,
) -> bool {
    match namespace {
        Namespace::Calculator => symbol == "add"@,
        _ => registered.contains((namespace.name(), symbol)),
    }
}

/// Whether an import cannot be bound: its namespace is known and lacks the symbol, or
/// its namespace is unknown and the policy is strict.
pub open spec fn unresolved(
    registered: Set<(Seq<char>, Seq<char>)>,
    import: ImportView,
    policy: Policy,
) -> bool {
    match Namespace::named(import.namespace) {
        Some(namespace) => !provides(registered, namespace, import.symbol),
        None => policy is Strict,
    }
}

/// Whether every one of `imports` can be bound.
pub open spec fn none_unresolved(
    registered: Set<(Seq<char>, Seq<char>)>,
    imports: Seq<ImportView>,
    policy: Policy,
) -> bool {
    forall|i: int| 0 <= i < imports.len() ==> !unresolved(registered, #[trigger] imports[i], policy)
}

/// Whether the first of `imports` that cannot be bound has the names `namespace` and
/// `symbol`.
pub open spec fn first_unresolved(
    registered: Set<(Seq<char>, Seq<char>)>,
    imports: Seq<ImportView>,
    policy: Policy,
    namespace: Seq<char>,
    symbol: Seq<char>,
) -> bool {
    exists|i: int|
        {
            &&& 0 <= i < imports.len()
            &&& unresolved(registered, #[trigger] imports[i], policy)
            &&& forall|j: int| 0 <= j < i ==> !unresolved(registered, #[trigger] imports[j], policy)
            &&& namespace == imports[i].namespace
            &&& symbol == imports[i].symbol
        }
}

/// The entries that resolving `imports` binds, in order: one for each pair of a known
/// namespace and a symbol, at the place of the pair's first import.
pub open spec fn link_keys(imports: Seq<ImportView>) -> Seq<(Namespace, Seq<char>)>
    decreases imports.len(),
{
    if imports.len() == 0 {
        Seq::empty()
    } else {
        let earlier = link_keys(imports.drop_last());
        match Namespace::named(imports.last().namespace) {
            Some(namespace) => if earlier.contains((namespace, imports.last().symbol)) {
                earlier
            } else {
                earlier.push((namespace, imports.last().symbol))
            },
            None => earlier,
        }
    }
}

/// The bindings of a module's imports: at most one for a pair of namespace and symbol.
#[derive(Debug, PartialEq, Eq)]
pub struct LinkSet {
    bindings: Vec<Binding>,
}

impl View for LinkSet {
    type V = Seq<(Namespace, Seq<char>)>;

    closed spec fn view(&self) -> Seq<(Namespace, Seq<char>)> {
        self.bindings@.map_values(|binding: Binding| (binding.namespace, binding.symbol@))
    }
}

impl LinkSet {
    /// No pair has two entries.
    #[verifier::type_invariant]
    spec fn distinct(&self) -> bool {
        self@.no_duplicates()
    }

    /// The empty set.
    pub fn new() -> (links: LinkSet)
        ensures
            links@ == Seq::<(Namespace, Seq<char>)>::empty(),
    {
        let links = LinkSet { bindings: Vec::new() };
        assert(links@ =~= Seq::<(Namespace, Seq<char>)>::empty());
        links
    }

    /// The number of entries.
    pub fn len(&self) -> (n: usize)
        ensures
            n == self@.len(),
    {
        self.bindings.len()
    }

    /// The entry at `index`, where the set has that many.
    pub fn get(&self, index: usize) -> (r: Option<&Binding>)
        ensures
            r is Some <==> index < self@.len(),
            r matches Some(binding) ==> (binding.namespace, binding.symbol@) == self@[index as int],
    {
        if index < self.bindings.len() {
            Some(&self.bindings[index])
        } else {
            None
        }
    }

    /// Whether the set has an entry for `symbol` of `namespace`.
    pub fn contains(&self, namespace: Namespace, symbol: &str) -> (r: bool)
        ensures
            r == self@.contains((namespace, symbol@)),
    {
        let mut i: usize = 0;
        while i < self.bindings.len()
            invariant
                i <= self.bindings.len(),
                forall|j: int| 0 <= j < i ==> self@[j] != (namespace, symbol@),
            decreases self.bindings.len() - i,
        {
            let binding = &self.bindings[i];
            if binding.namespace == namespace && same_text(binding.symbol.as_str(), symbol) {
                assert(self@[i as int] == (namespace, symbol@));
                return true;
            }
            i = i + 1;
        }
        false
    }

    /// Adds an entry for `symbol` of `namespace` at the end, unless the set has one.
    /// It says whether it added one.
    pub fn insert(&mut self, namespace: Namespace, symbol: &str) -> (added: bool)
        ensures
            added == !old(self)@.contains((namespace, symbol@)),
            added ==> final(self)@ == old(self)@.push((namespace, symbol@)),
            !added ==> final(self)@ == old(self)@,
            final(self)@.no_duplicates(),
    {
        proof {
            use_type_invariant(&*self);
        }
        if self.contains(namespace, symbol) {
            false
        } else {
            let ghost before = self@;
            let mut bindings: Vec<Binding> = Vec::new();
            std::mem::swap(&mut self.bindings, &mut bindings);
            bindings.push(Binding { namespace, symbol: symbol.to_owned() });
            let ghost after = bindings@.map_values(
                |binding: Binding| (binding.namespace, binding.symbol@),
            );
            proof {
                assert(after =~= before.push((namespace, symbol@)));
                assert forall|i: int, j: int| 0 <= i < j < after.len() implies after[i]
                    != after[j] by {
                    assert(before[i] == after[i]);
                    if j < before.len() {
                        assert(before[j] == after[j]);
                    } else {
                        assert(before.contains(after[i]));
                    }
                }
            }
            std::mem::swap(&mut self.bindings, &mut bindings);
            true
        }
    }
}

/// The entries that resolving binds name each pair once, each of them is the pair of
/// some import from a known namespace, and every such import has its entry.
pub proof fn lemma_link_keys(imports: Seq<ImportView>)
    ensures
        link_keys(imports).no_duplicates(),
        forall|key: (Namespace, Seq<char>)| #[trigger]
            link_keys(imports).contains(key) <==> exists|i: int|
                0 <= i < imports.len() && Namespace::named((#[trigger] imports[i]).namespace)
                    == Some(key.0) && imports[i].symbol == key.1,
    decreases imports.len(),
{
    if imports.len() > 0 {
        let shorter = imports.drop_last();
        let last = imports.last();
        let earlier = link_keys(shorter);
        lemma_link_keys(shorter);
        let keys = link_keys(imports);
        assert forall|key: (Namespace, Seq<char>)| #[trigger] keys.contains(key) implies exists|
            i: int,
        |
            0 <= i < imports.len() && Namespace::named((#[trigger] imports[i]).namespace) == Some(
                key.0,
            ) && imports[i].symbol == key.1 by {
            if earlier.contains(key) {
                let i = choose|i: int|
                    0 <= i < shorter.len() && Namespace::named((#[trigger] shorter[i]).namespace)
                        == Some(key.0) && shorter[i].symbol == key.1;
                assert(imports[i] == shorter[i]);
            } else {
                let k = choose|k: int| 0 <= k < keys.len() && keys[k] == key;
                if k < earlier.len() {
                    assert(earlier[k] == key);
                }
                assert(imports[imports.len() - 1] == last);
            }
        }
        assert forall|key: (Namespace, Seq<char>)|
            (exists|i: int|
                0 <= i < imports.len() && Namespace::named((#[trigger] imports[i]).namespace)
                    == Some(key.0) && imports[i].symbol == key.1) implies #[trigger] keys.contains(
            key,
        ) by {
            let i = choose|i: int|
                0 <= i < imports.len() && Namespace::named((#[trigger] imports[i]).namespace)
                    == Some(key.0) && imports[i].symbol == key.1;
            if i < shorter.len() {
                assert(shorter[i] == imports[i]);
                assert(earlier.contains(key));
                let k = choose|k: int| 0 <= k < earlier.len() && earlier[k] == key;
                assert(keys[k] == key);
            } else {
                assert(imports[i] == last);
                if earlier.contains(key) {
                    let k = choose|k: int| 0 <= k < earlier.len() && earlier[k] == key;
                    assert(keys[k] == key);
                } else {
                    assert(keys[keys.len() - 1] == key);
                }
            }
        }
        assert forall|i: int, j: int| 0 <= i < j < keys.len() implies keys[i] != keys[j] by {
            if j < earlier.len() {
            } else {
                assert(earlier[i] == keys[i]);
                assert(earlier.contains(keys[i]));
            }
        }
    }
}

/// Resolves the imports of `module` in the order of their declarations. An import from
/// a system interface is bound where `registry` has a function of that name in that
/// interface, one from the arithmetic namespace where `extra` has the symbol; a pair
/// that is imported again keeps its one binding. An import from an unknown namespace is
/// passed over under the permissive policy.
///
/// It succeeds where every import is of a known namespace that has the symbol. It fails
/// where some import is of a known namespace that lacks the symbol. In general it fails
/// exactly where an import cannot be bound, with the first such import. The registry
/// has afterwards the functions that it had.
pub fn resolve(
    module: &ModuleDescriptor,
    registry: &mut ModuleRegistry,
    extra: &CalculatorCtx,
    policy: Policy,
) -> (r: Result<LinkSet, LinkError>)
    ensures
        final(registry).names() == old(registry).names(),
        (forall|i: int|
            0 <= i < module@.len() ==> (Namespace::named((#[trigger] module@[i]).namespace) matches Some(
                namespace,
            ) && provides(old(registry).names(), namespace, module@[i].symbol))) ==> r is Ok,
        (exists|i: int|
            0 <= i < module@.len() && (Namespace::named((#[trigger] module@[i]).namespace) matches Some(
                namespace,
            ) && !provides(old(registry).names(), namespace, module@[i].symbol))) ==> r is Err,
        match r {
            Ok(links) => {
                &&& none_unresolved(old(registry).names(), module@, policy)
                &&& links@ == link_keys(module@)
                &&& links@.no_duplicates()
            },
            Err(LinkError::UnresolvedImport { namespace, symbol }) => first_unresolved(
                old(registry).names(),
                module@,
                policy,
                namespace@,
                symbol@,
            ),
        },
{
    let ghost views = import_views(module.imports@);
    let ghost registered = registry.names();
    let mut links = LinkSet::new();
    let n = module.imports.len();
    let mut i: usize = 0;
    while i < n
        invariant
            i <= n,
            n == module.imports.len(),
            views == import_views(module.imports@),
            views == module@,
            registry.names() == registered,
            registered == old(registry).names(),
            forall|j: int| 0 <= j < i ==> !unresolved(registered, #[trigger] views[j], policy),
            links@ == link_keys(views.take(i as int)),
        decreases n - i,
    {
        let import = &module.imports[i];
        proof {
            Namespace::lemma_names_differ();
            assert(views.take(i + 1).drop_last() =~= views.take(i as int));
            assert(views[i as int] == import@);
            assert(views.take(i + 1).last() == import@);
        }
        match Namespace::recognize(import.namespace.as_str()) {
            None => {
                if policy == Policy::Strict {
                    return Err(
                        LinkError::UnresolvedImport {
                            namespace: import.namespace.clone(),
                            symbol: import.symbol.clone(),
                        },
                    );
                }
            },
            Some(namespace) => {
                let found = match namespace {
                    Namespace::Calculator => extra.provides(import.symbol.as_str()),
                    _ => registry.lookup(namespace.text(), import.symbol.as_str()).is_some(),
                };
                if !found {
                    return Err(
                        LinkError::UnresolvedImport {
                            namespace: import.namespace.clone(),
                            symbol: import.symbol.clone(),
                        },
                    );
                }
                links.insert(namespace, import.symbol.as_str());
            },
        }
        i = i + 1;
    }
    proof {
        assert(views.take(n as int) =~= views);
        lemma_link_keys(views);
    }
    Ok(links)
}

/// Why a module could not be instantiated.
#[derive(Clone, Debug, PartialEq, Eq)]
pub enum InstantiateError {
    /// A binding names a function that its namespace does not have.
    Rejected { namespace: Namespace, symbol: String, cause: String },
    /// The engine refused a definition or the module with its bindings, or the start
    /// function faulted.
    Engine { cause: String },
}

/// Whether each of the first `count` entries of `keys` names a function that its
/// namespace has, the system interfaces having what `registered` holds for them.
pub open spec fn all_provided(
    registered: Set<(Seq<char>, Seq<char>)>,
    keys: Seq<(Namespace, Seq<char>)>,
    count: int,
) -> bool {
    forall|i: int|
        0 <= i < count && i < keys.len() ==> provides(
            registered,
            (#[trigger] keys[i]).0,
            keys[i].1,
        )
}

/// Whether the first of `keys` whose namespace lacks the function that it names is the
/// entry for `symbol` of `namespace`.
pub open spec fn first_unprovided(
    registered: Set<(Seq<char>, Seq<char>)>,
    keys: Seq<(Namespace, Seq<char>)>,
    namespace: Namespace,
    symbol: Seq<char>,
) -> bool {
    exists|k: int|
        {
            &&& 0 <= k < keys.len()
            &&& #[trigger] keys[k] == (namespace, symbol)
            &&& all_provided(registered, keys, k)
            &&& !provides(registered, namespace, symbol)
        }
}

/// The pairs of names under which the entries `keys` are defined.
spec fn names_of(keys: Seq<(Namespace, Seq<char>)>) -> Set<(Seq<char>, Seq<char>)> {
    Set::new(
        |name: (Seq<char>, Seq<char>)|
            exists|i: int|
                0 <= i < keys.len() && name == ((#[trigger] keys[i]).0.name(), keys[i].1),
    )
}

/// Defines each binding of `links` in `linker`, which holds nothing yet, in order and
/// under the name of its namespace and its symbol: for a system interface the
/// registry's function of that name, for the arithmetic namespace `add`. It stops at
/// the first binding whose namespace lacks the function, and reports that binding.
/// Where there is none, the linker holds the names of `links` and nothing else: no
/// pair stands twice in `links`, so the linker refuses none.
fn bind(
    registry: &mut ModuleRegistry,
    extra: &CalculatorCtx,
    linker: &mut wasmtime::Linker<WasiContexts>,
    links: &LinkSet,
) -> (r: Result<(), InstantiateError>)
    requires
        defined(*old(linker)) == Set::<(Seq<char>, Seq<char>)>::empty(),
    ensures
        final(registry).names() == old(registry).names(),
        match r {
            Ok(_) => {
                &&& all_provided(old(registry).names(), links@, links@.len() as int)
                &&& defined(*final(linker)) == names_of(links@)
            },
            Err(InstantiateError::Rejected { namespace, symbol, .. }) => first_unprovided(
                old(registry).names(),
                links@,
                namespace,
                symbol@,
            ),
            Err(InstantiateError::Engine { .. }) => false,
        },
{
    proof {
        use_type_invariant(links);
        Namespace::lemma_names_differ();
        assert(names_of(links@.take(0)) =~= Set::<(Seq<char>, Seq<char>)>::empty());
    }
    let n = links.len();
    let mut k: usize = 0;
    while k < n
        invariant
            k <= n,
            n == links@.len(),
            links@.no_duplicates(),
            registry.names() == old(registry).names(),
            all_provided(old(registry).names(), links@, k as int),
            defined(*linker) == names_of(links@.take(k as int)),
        decreases n - k,
    {
        let binding = &links.bindings[k];
        assert(links@[k as int] == (binding.namespace, binding.symbol@));
        proof {
            Namespace::lemma_names_differ();
            lemma_names_new(links@, k as int);
        }
        // What the binding names, where its namespace has it: a function of the
        // registry, or (as the inner `None`) the `add` of the arithmetic namespace.
        let item = match binding.namespace {
            Namespace::Calculator => if extra.provides(binding.symbol.as_str()) {
                Some(None)
            } else {
                None
            },
            _ => match registry.lookup(binding.namespace.text(), binding.symbol.as_str()) {
                Some(item) => Some(Some(item)),
                None => None,
            },
        };
        let outcome = match item {
            None => {
                return Err(
                    InstantiateError::Rejected {
                        namespace: binding.namespace,
                        symbol: binding.symbol.clone(),
                        cause: String::from_str("the namespace has no such function"),
                    },
                );
            },
            Some(None) => define_add(linker, binding.namespace.text(), binding.symbol.as_str()),
            Some(Some(item)) => define(
                linker,
                &registry.store,
                binding.namespace.text(),
                binding.symbol.as_str(),
                item,
            ),
        };
        match outcome {
            Ok(_) => {
                proof {
                    lemma_names_push(links@, k as int);
                }
            },
            Err(error) => {
                return Err(InstantiateError::Engine { cause: engine_error_text(&error) });
            },
        }
        k = k + 1;
    }
    proof {
        assert(links@.take(n as int) =~= links@);
    }
    Ok(())
}

/// The name of entry `k` is not among those of the entries before it, where no entry
/// stands twice.
proof fn lemma_names_new(keys: Seq<(Namespace, Seq<char>)>, k: int)
    requires
        0 <= k < keys.len(),
        keys.no_duplicates(),
    ensures
        !names_of(keys.take(k)).contains((keys[k].0.name(), keys[k].1)),
{
    Namespace::lemma_names_differ();
    let shorter = keys.take(k);
    if names_of(shorter).contains((keys[k].0.name(), keys[k].1)) {
        let i = choose|i: int|
            0 <= i < shorter.len() && (keys[k].0.name(), keys[k].1) == (
                (#[trigger] shorter[i]).0.name(),
                shorter[i].1,
            );
        assert(shorter[i] == keys[i]);
        assert(keys[i].0 == keys[k].0);
        assert(keys[i] == keys[k]);
    }
}

/// The names of the first `k + 1` entries are those of the first `k` and that of
/// entry `k`.
proof fn lemma_names_push(keys: Seq<(Namespace, Seq<char>)>, k: int)
    requires
        0 <= k < keys.len(),
    ensures
        names_of(keys.take(k + 1)) =~= names_of(keys.take(k)).insert((keys[k].0.name(), keys[k].1)),
{
    let longer = keys.take(k + 1);
    let shorter = keys.take(k);
    assert forall|name: (Seq<char>, Seq<char>)| names_of(longer).contains(name) implies names_of(
        shorter,
    ).insert((keys[k].0.name(), keys[k].1)).contains(name) by {
        let i = choose|i: int|
            0 <= i < longer.len() && name == ((#[trigger] longer[i]).0.name(), longer[i].1);
        if i < k {
            assert(shorter[i] == longer[i]);
        }
    }
    assert forall|name: (Seq<char>, Seq<char>)|
        names_of(shorter).insert((keys[k].0.name(), keys[k].1)).contains(name) implies names_of(
        longer,
    ).contains(name) by {
        if names_of(shorter).contains(name) {
            let i = choose|i: int|
                0 <= i < shorter.len() && name == ((#[trigger] shorter[i]).0.name(), shorter[i].1);
            assert(longer[i] == shorter[i]);
        } else {
            assert(longer[k] == keys[k]);
        }
    }
}

/// An instantiated module, with the store that it lives in. It is used for one
/// invocation.
pub struct GuestInstance {
    pub(crate) registry: ModuleRegistry,
    pub(crate) instance: wasmtime::Instance,
}

impl GuestInstance {
    /// The functions of the registry in whose store the instance lives, as pairs of
    /// namespace name and symbol.
    pub closed spec fn names(&self) -> Set<(Seq<char>, Seq<char>)> {
        self.registry.names()
    }
}

/// Instantiates `module` in the store of `registry` with the bindings of `links`: a new
/// linker takes the bindings, in their order, then the engine matches the module's
/// imports against them.
///
/// The set is rejected exactly where one of its bindings names a function that its
/// namespace does not have, with the first such binding; the engine is not asked then.
/// Otherwise every binding is defined, and whether the engine accepts the module is the
/// engine's to say: an import that `links` leaves unbound, and any other mismatch, it
/// refuses. The instance that comes back lives in the store of the registry that was
/// handed in.
pub fn instantiate(registry: ModuleRegistry, module: &ModuleDescriptor, links: &LinkSet) -> (r:
    Result<GuestInstance, InstantiateError>)
    ensures
        r matches Err(InstantiateError::Rejected { .. }) <==> !all_provided(
            registry.names(),
            links@,
            links@.len() as int,
        ),
        match r {
            Ok(guest) => guest.names() == registry.names(),
            Err(InstantiateError::Rejected { namespace, symbol, .. }) => first_unprovided(
                registry.names(),
                links@,
                namespace,
                symbol@,
            ),
            Err(InstantiateError::Engine { .. }) => true,
        },
{
    let mut registry = registry;
    let mut linker = new_linker(&registry.store);
    let extra = CalculatorCtx {  };
    match bind(&mut registry, &extra, &mut linker, links) {
        Ok(_) => {},
        Err(error) => {
            return Err(error);
        },
    }
    // The linker holds the bindings of `links` and nothing else.
    assert(defined(linker) == names_of(links@));
    let ghost bound = registry;
    match link(&linker, &mut registry.store, &module.module) {
        Ok(instance) => {
            proof {
                bound.lemma_names_of_functions(registry);
            }
            Ok(GuestInstance { registry, instance })
        },
        Err(error) => Err(InstantiateError::Engine { cause: engine_error_text(&error) }),
    }
}

/// Why a module could not be brought to run.
#[derive(Clone, Debug, PartialEq, Eq)]
pub enum HostError {
    /// The module could not be loaded.
    Parse(ParseError),
    /// An import of the module could not be bound.
    Link(LinkError),
    /// The module could not be instantiated with its bindings.
    Instantiate(InstantiateError),
}

/// Loads the module that `source` holds, resolves its imports against `registry` and
/// the arithmetic namespace under `policy`, and instantiates it in the registry's
/// store.
///
/// The steps, each of which ends the attempt where it fails. The source is refused as
/// text exactly where the assembler has no binary for it. Whether the engine accepts
/// the binary is the engine's to say. The imports that the binary declares are then
/// resolved: where one of them cannot be bound, no instance comes back, and the first
/// such import is reported; where all can be bound, no link error comes back. The
/// bindings that resolving gives each name a function, so the link set is never
/// rejected. Whether the engine then accepts the module with its bindings is again the
/// engine's to say.
/// The instance that comes back lives in the store of the registry that was handed in,
/// which has the functions that it had.
pub fn instantiate_module(registry: ModuleRegistry, source: &[u8], policy: Policy) -> (r: Result<
    GuestInstance,
    HostError,
>)
    ensures
        r matches Err(HostError::Parse(ParseError::Text { .. })) <==> assembled(source@) is None,
        is_binary(source@) ==> !(r matches Err(HostError::Parse(ParseError::Text { .. }))),
        assembled(source@) matches Some(binary) && !none_unresolved(
            registry.names(),
            declared(binary),
            policy,
        ) ==> r matches Err(HostError::Parse(ParseError::Module { .. })) || r matches Err(
            HostError::Link(_),
        ),
        assembled(source@) matches Some(binary) && none_unresolved(
            registry.names(),
            declared(binary),
            policy,
        ) ==> !(r matches Err(HostError::Link(_))),
        match r {
            Ok(guest) => {
                &&& assembled(source@) matches Some(binary) && none_unresolved(
                    registry.names(),
                    declared(binary),
                    policy,
                )
                &&& guest.names() == registry.names()
            },
            Err(HostError::Parse(ParseError::Text { .. })) => assembled(source@) is None,
            Err(HostError::Parse(ParseError::Module { .. })) => assembled(source@) is Some,
            Err(HostError::Link(LinkError::UnresolvedImport { namespace, symbol })) => {
                &&& assembled(source@) matches Some(binary) && first_unresolved(
                    registry.names(),
                    declared(binary),
                    policy,
                    namespace@,
                    symbol@,
                )
                &&& unresolved(
                    registry.names(),
                    (ImportView { namespace: namespace@, symbol: symbol@ }),
                    policy,
                )
            },
            Err(HostError::Instantiate(InstantiateError::Rejected { .. })) => false,
            Err(HostError::Instantiate(InstantiateError::Engine { .. })) => {
                assembled(source@) matches Some(binary) && none_unresolved(
                    registry.names(),
                    declared(binary),
                    policy,
                )
            },
        },
{
    let ghost registered = registry.names();
    let mut registry = registry;
    let module = match ModuleDescriptor::load(&registry, source) {
        Ok(module) => module,
        Err(error) => {
            return Err(HostError::Parse(error));
        },
    };
    let extra = CalculatorCtx {  };
    let links = match resolve(&module, &mut registry, &extra, policy) {
        Ok(links) => links,
        Err(error) => {
            proof {
                let LinkError::UnresolvedImport { namespace, symbol } = error;
                let i = choose|i: int|
                    {
                        &&& 0 <= i < module@.len()
                        &&& unresolved(registered, #[trigger] module@[i], policy)
                        &&& namespace@ == module@[i].namespace
                        &&& symbol@ == module@[i].symbol
                    };
                assert(module@[i] == (ImportView { namespace: namespace@, symbol: symbol@ }));
            }
            return Err(HostError::Link(error));
        },
    };
    proof {
        lemma_link_keys(module@);
        assert forall|k: int| 0 <= k < links@.len() implies provides(
            registered,
            (#[trigger] links@[k]).0,
            links@[k].1,
        ) by {
            let key = links@[k];
            assert(link_keys(module@).contains(key));
            let i = choose|i: int|
                0 <= i < module@.len() && Namespace::named((#[trigger] module@[i]).namespace)
                    == Some(key.0) && module@[i].symbol == key.1;
            assert(!unresolved(registered, module@[i], policy));
        }
    }
    match instantiate(registry, &module, &links) {
        Ok(instance) => Ok(instance),
        Err(error) => Err(HostError::Instantiate(error)),
    }
}

} // verus!
