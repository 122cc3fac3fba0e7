//! The table of loaded plugin modules, keyed by algorithm, and the
//! dispatcher that resolves a caller's key against it.

use crate::invoker::Operation;
use std::collections::HashMap;
use vstd::prelude::*;
use wasmtime::component::types::{ComponentItem, Type};
use wasmtime::component::Component;
use wasmtime::Engine;

verus! {

broadcast use vstd::std_specs::hash::group_hash_axioms;

/// The key that selects which plugin handles a request.
#[derive(Clone, Copy, Debug, PartialEq, Eq, Hash, Structural)]
pub enum Algorithm {
    Caesar,
    Vigenere,
}

impl Algorithm {
    /// The text that names the algorithm in a request.
    pub open spec fn spelled(self) -> Seq<char> {
        match self {
            Algorithm::Caesar => "Caesar"@,
            Algorithm::Vigenere => "Vigenere"@,
        }
    }

    /// The algorithm that `name` names, if it names one.
    pub open spec fn named(name: Seq<char>) -> Option<Algorithm> {
        if name == "Caesar"@ {
            Some(Algorithm::Caesar)
        } else if name == "Vigenere"@ {
            Some(Algorithm::Vigenere)
        } else {
            None
        }
    }

    /// The number under which the registry keeps the algorithm's plugin.
    spec fn slot(self) -> u64 {
        match self {
            Algorithm::Caesar => 0,
            Algorithm::Vigenere => 1,
        }
    }

    fn index(self) -> (slot: u64)
        ensures
            slot == self.slot(),
    {
        match self {
            Algorithm::Caesar => 0,
            Algorithm::Vigenere => 1,
        }
    }

    /// The text that names the algorithm in a request.
    pub fn name(self) -> (name: &'static str)
        ensures
            name@ == self.spelled(),
    {
        match self {
            Algorithm::Caesar => "Caesar",
            Algorithm::Vigenere => "Vigenere",
        }
    }

    /// Reads an algorithm from the text that names it in a request.
    pub fn from_name(name: &str) -> (found: Option<Algorithm>)
        ensures
            found == Algorithm::named(name@),
    {
        let wanted = name.to_owned();
        if wanted == "Caesar".to_owned() {
            Some(Algorithm::Caesar)
        } else if wanted == "Vigenere".to_owned() {
            Some(Algorithm::Vigenere)
        } else {
            None
        }
    }
}

/// Each algorithm is found again by the text that names it.
pub proof fn lemma_name_names_algorithm(algorithm: Algorithm)
    ensures
        Algorithm::named(algorithm.spelled()) == Some(algorithm),
{
    reveal_strlit("Caesar");
    reveal_strlit("Vigenere");
    assert("Caesar"@.len() != "Vigenere"@.len());
}

/// Why a plugin could not be loaded or found.
#[derive(Clone, Copy, Debug, PartialEq, Eq, Structural)]
pub enum ConfigError {
    /// No plugin is registered under the key.
    UnknownKey,
    /// There is no binary to load.
    MissingBinary,
    /// The binary is no valid component, or lacks an operation that every
    /// plugin exports.
    MalformedBinary,
}

/// wasmtime's `Engine`, which compiles components. The library hands it on
/// and knows of it only what `compilation` says.
#[verifier::external_type_specification]
#[verifier::external_body]
pub struct ExEngine(Engine);

/// wasmtime's `Component`, a compiled plugin. The library knows of it only
/// what `exported_functions` and `imported_names` say.
#[verifier::external_type_specification]
#[verifier::external_body]
pub struct ExComponent(Component);

/// wasmtime's `Error`, with which a compilation fails. The library only
/// tells it from success.
#[verifier::external_type_specification]
#[verifier::external_body]
pub struct ExCompileError(wasmtime::Error);

/// The signature of a function, as far as the host looks at it: for each
/// parameter and for each result, in order, whether its type is `string`.
struct Signature {
    params: Vec<bool>,
    results: Vec<bool>,
}

impl View for Signature {
    type V = (Seq<bool>, Seq<bool>);

    closed spec fn view(&self) -> (Seq<bool>, Seq<bool>) {
        (self.params@, self.results@)
    }
}

/// The functions that a component exports at its root: for each name that
/// wasmtime resolves to an exported function, the function's signature.
pub uninterp spec fn exported_functions(component: Component) -> Map<
    Seq<char>,
    (Seq<bool>, Seq<bool>),
>;

/// What compiling a binary for an engine gives: the functions that the
/// compiled component exports, or nothing where the engine refuses the
/// binary. Compilation reads the engine's configuration and the bytes, and
/// nothing else.
pub uninterp spec fn compilation(engine: Engine, binary: Seq<u8>) -> Option<
    Map<Seq<char>, (Seq<bool>, Seq<bool>)>,
>;

/// `Component::get_export`, asked at the root of the component: the signature
/// of the function that a lookup of `name` finds, and nothing where it finds
/// no export or an export that is no function.
#[verifier::external_body]
fn function_export(component: &Component, name: &str) -> (found: Option<Signature>)
    ensures
        match found {
            Some(signature) => {
                &&& exported_functions(*component).contains_key(name@)
                &&& exported_functions(*component)[name@] == signature@
            },
            None => !exported_functions(*component).contains_key(name@),
        },
{
    match component.get_export(None, name) {
        Some((ComponentItem::ComponentFunc(function), _)) => Some(
            Signature {
                params: function.params().map(|(_, ty)| matches!(ty, Type::String)).collect(),
                results: function.results().map(|ty| matches!(ty, Type::String)).collect(),
            },
        ),
        _ => None,
    }
}

/// `Component::from_binary`: validates the binary image of a component and
/// compiles it for `engine`. It succeeds on the binaries that the engine
/// accepts, and the component that it gives exports the functions that the
/// binary declares.
#[verifier::external_body]
fn compile(engine: &Engine, binary: &[u8]) -> (compiled: Result<Component, wasmtime::Error>)
    ensures
        match compiled {
            Ok(component) => compilation(*engine, binary@) == Some(exported_functions(component)),
            Err(_) => compilation(*engine, binary@) is None,
        },
{
    Component::from_binary(engine, binary)
}

/// The signature of both operations: one string in, one string out.
pub open spec fn text_to_text() -> (Seq<bool>, Seq<bool>) {
    (seq![true], seq![true])
}

/// Whether `exports` holds `operation` as a function from a string to a
/// string.
pub open spec fn offers(
    exports: Map<Seq<char>, (Seq<bool>, Seq<bool>)>,
    operation: Operation,
) -> bool {
    exports.contains_key(operation.export()) && exports[operation.export()] == text_to_text()
}

/// Whether `exports` holds the interface of a plugin: both operations, each
/// from a string to a string.
pub open spec fn offers_operations(exports: Map<Seq<char>, (Seq<bool>, Seq<bool>)>) -> bool {
    offers(exports, Operation::Encrypt) && offers(exports, Operation::Decrypt)
}

/// Whether a component exports the interface of a plugin.
pub open spec fn serves_operations(component: Component) -> bool {
    offers_operations(exported_functions(component))
}

/// Whether a component exports `operation` as a function from a string to a
/// string.
fn serves(component: &Component, operation: Operation) -> (found: bool)
    ensures
        found == offers(exported_functions(*component), operation),
{
    match function_export(component, operation.export_name()) {
        Some(signature) => {
            let fits = signature.params.len() == 1 && signature.params[0]
                && signature.results.len() == 1 && signature.results[0];
            proof {
                if fits {
                    assert(signature.params@ =~= seq![true]);
                    assert(signature.results@ =~= seq![true]);
                } else {
                    assert(seq![true].len() == 1 && seq![true][0]);
                }
            }
            fits
        },
        None => false,
    }
}

/// A loaded plugin: its compiled component and the configuration that every
/// call of it runs under, as ordered pairs of name and value.
pub struct Guest {
    pub component: Component,
    pub env_vars: Vec<(String, String)>,
}

/// A plugin as the registry keeps it: one that exports the interface.
struct Entry {
    guest: Guest,
}

impl Entry {
    #[verifier::type_invariant]
    spec fn well_formed(&self) -> bool {
        serves_operations(self.guest.component)
    }
}

/// The plugins that were loaded at startup, by algorithm.
pub struct Registry {
    entries: HashMap<u64, Entry>,
}

impl View for Registry {
    type V = Map<Algorithm, Guest>;

    closed spec fn view(&self) -> Map<Algorithm, Guest> {
        Map::new(
            |key: Algorithm| self.entries@.contains_key(key.slot()),
            |key: Algorithm| self.entries@[key.slot()].guest,
        )
    }
}

impl Registry {
    /// A registry that holds no plugin.
    pub fn new() -> (registry: Registry)
        ensures
            registry@ == Map::<Algorithm, Guest>::empty(),
    {
        let registry = Registry { entries: HashMap::new() };
        assert(registry@ =~= Map::<Algorithm, Guest>::empty());
        registry
    }

    /// Registers what compiling a plugin's binary gave, together with the
    /// plugin's configuration. A component that exports both operations,
    /// each from a string to a string, is stored under `key`, in place of
    /// what was there; a failed compilation and a component without this
    /// interface are refused and change nothing.
    pub fn install(
        &mut self,
        key: Algorithm,
        compiled: Result<Component, wasmtime::Error>,
        config: Vec<(String, String)>,
    ) -> (outcome: Result<(), ConfigError>)
        ensures
            match compiled {
                Ok(component) if serves_operations(component) => {
                    &&& outcome == Ok::<(), ConfigError>(())
                    &&& final(self)@ == old(self)@.insert(
                        key,
                        Guest { component, env_vars: config },
                    )
                },
                _ => {
                    &&& outcome == Err::<(), ConfigError>(ConfigError::MalformedBinary)
                    &&& final(self)@ == old(self)@
                },
            },
    {
        match compiled {
            Ok(component) => {
                if serves(&component, Operation::Encrypt) && serves(
                    &component,
                    Operation::Decrypt,
                ) {
                    let entry = Entry { guest: Guest { component, env_vars: config } };
                    self.entries.insert(key.index(), entry);
                    assert(self@ =~= old(self)@.insert(
                        key,
                        Guest { component, env_vars: config },
                    ));
                    Ok(())
                } else {
                    Err(ConfigError::MalformedBinary)
                }
            },
            Err(_) => Err(ConfigError::MalformedBinary),
        }
    }

    /// Loads a plugin from the bytes of its binary, `None` where there is no
    /// binary, and registers it under `key` with `config`.
    ///
    /// Without a binary the outcome is `MissingBinary`. A binary is loaded
    /// exactly if the engine compiles it and the component exports both
    /// operations, each from a string to a string: the registry then holds
    /// under `key` a component with those exports, with `config`, and every
    /// other key is as before. Any other binary is a `MalformedBinary`.
    /// Every failure leaves the registry unchanged.
    pub fn load(
        &mut self,
        engine: &Engine,
        key: Algorithm,
        binary: Option<&[u8]>,
        config: Vec<(String, String)>,
    ) -> (outcome: Result<(), ConfigError>)
        ensures
            match binary {
                None => {
                    &&& outcome == Err::<(), ConfigError>(ConfigError::MissingBinary)
                    &&& final(self)@ == old(self)@
                },
                Some(bytes) => match compilation(*engine, bytes@) {
                    Some(exports) if offers_operations(exports) => {
                        &&& outcome == Ok::<(), ConfigError>(())
                        &&& final(self)@.dom() == old(self)@.dom().insert(key)
                        &&& final(self)@[key].env_vars == config
                        &&& exported_functions(final(self)@[key].component) == exports
                        &&& final(self)@.remove(key) == old(self)@.remove(key)
                    },
                    _ => {
                        &&& outcome == Err::<(), ConfigError>(ConfigError::MalformedBinary)
                        &&& final(self)@ == old(self)@
                    },
                },
            },
    {
        match binary {
            None => Err(ConfigError::MissingBinary),
            Some(bytes) => {
                let compiled = compile(engine, bytes);
                let outcome = self.install(key, compiled, config);
                proof {
                    if outcome is Ok {
                        assert(self@.remove(key) =~= old(self)@.remove(key));
                        assert(self@.dom() =~= old(self)@.dom().insert(key));
                    }
                }
                outcome
            },
        }
    }

    /// The plugin registered under `key`.
    pub fn lookup(&self, key: Algorithm) -> (found: Result<&Guest, ConfigError>)
        ensures
            match found {
                Ok(guest) => {
                    &&& self@.dom().contains(key)
                    &&& *guest == self@[key]
                    &&& serves_operations(guest.component)
                },
                Err(error) => error == ConfigError::UnknownKey && !self@.dom().contains(key),
            },
    {
        let slot = key.index();
        match self.entries.get(&slot) {
            Some(entry) => {
                proof {
                    use_type_invariant(entry);
                }
                Ok(&entry.guest)
            },
            None => Err(ConfigError::UnknownKey),
        }
    }

    /// Resolves the key of a request, as the request spells it, to the plugin
    /// that handles it. A text that names no algorithm, and the name of an
    /// algorithm that has no plugin, are both unknown keys.
    pub fn resolve(&self, key: &str) -> (found: Result<&Guest, ConfigError>)
        ensures
            match found {
                Ok(guest) => {
                    &&& Algorithm::named(key@) matches Some(algorithm)
                    &&& self@.dom().contains(algorithm)
                    &&& *guest == self@[algorithm]
                    &&& serves_operations(guest.component)
                },
                Err(error) => {
                    &&& error == ConfigError::UnknownKey
                    &&& match Algorithm::named(key@) {
                        Some(algorithm) => !self@.dom().contains(algorithm),
                        None => true,
                    }
                },
            },
    {
        match Algorithm::from_name(key) {
            Some(algorithm) => self.lookup(algorithm),
            None => Err(ConfigError::UnknownKey),
        }
    }
}

} // verus!
