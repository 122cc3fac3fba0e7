//! What the host offers to plugins: the audit recorder, and the namespace of
//! bound capabilities that a plugin's imports are resolved against.

use vstd::prelude::*;
use vstd::string::StringExecFns;
use wasmtime::component::Component;

verus! {

/// The interface under which plugins import the audit recorder.
pub const AUDIT_LOG: &'static str = "saritnike:cipher/audit-log";

/// One call of the audit recorder: what a plugin did, and a detail of it.
#[derive(Clone, Debug, PartialEq, Eq)]
pub struct AuditRecord {
    pub action: String,
    pub detail: String,
}

/// The line that the audit recorder writes for a record.
pub open spec fn audit_text(action: Seq<char>, detail: Seq<char>) -> Seq<char> {
    "[AUDIT] Action: "@ + action + " | Detail: "@ + detail
}

/// The line that the audit recorder writes for a record.
pub fn audit_line(action: &str, detail: &str) -> (line: String)
    ensures
        line@ == audit_text(action@, detail@),
{
    let mut line = "[AUDIT] Action: ".to_owned();
    line.append(action);
    line.append(" | Detail: ");
    line.append(detail);
    line
}

/// The decimal digit for a number below ten.
pub open spec fn digit(n: nat) -> char {
    (('0' as int) + n) as char
}

/// The decimal spelling of a number, without sign or leading zero.
pub open spec fn decimal_text(n: nat) -> Seq<char>
    decreases n,
{
    if n < 10 {
        seq![digit(n)]
    } else {
        decimal_text(n / 10).push(digit(n % 10))
    }
}

/// Appends the decimal spelling of `n` to `out`.
pub fn push_decimal(out: &mut String, n: usize)
    ensures
        final(out)@ == old(out)@ + decimal_text(n as nat),
    decreases n,
{
    if n >= 10 {
        push_decimal(out, n / 10);
    }
    let last: u8 = (n % 10) as u8;
    out.push((('0' as u8) + last) as char);
    assert(out@ =~= old(out)@ + decimal_text(n as nat));
}

/// A plugin imports a capability that the host has not bound.
#[derive(Clone, Debug, PartialEq, Eq)]
pub struct LinkError {
    /// The import that nothing satisfies.
    pub import: String,
}

/// What a plugin is told when one of its imports is unbound.
pub open spec fn link_text(import: Seq<char>) -> Seq<char> {
    "unbound capability: "@ + import
}

impl LinkError {
    /// The text that reports the error.
    pub fn message(&self) -> (text: String)
        ensures
            text@ == link_text(self.import@),
    {
        let mut text = "unbound capability: ".to_owned();
        text.append(self.import.as_str());
        text
    }
}

/// Whether an import belongs to the sandbox itself rather than to the host's
/// capabilities: the interfaces of WASI, which the execution context serves.
pub open spec fn sandbox_import(name: Seq<char>) -> bool {
    "wasi:"@.is_prefix_of(name)
}

/// Whether `name` begins with `prefix`.
pub fn starts_with(name: &str, prefix: &str) -> (found: bool)
    ensures
        found == prefix@.is_prefix_of(name@),
{
    let wanted: usize = prefix.unicode_len();
    let mut matched: usize = 0;
    for c in it: name.chars()
        invariant
            it.seq() == name@,
            wanted == prefix@.len(),
            matched <= wanted,
            matched == (if it.index() < wanted { it.index() as int } else { wanted as int }),
            prefix@.take(matched as int) == name@.take(matched as int),
    {
        if matched < wanted {
            if prefix.get_char(matched) != c {
                assert(prefix@[matched as int] != name@[matched as int]);
                return false;
            }
            assert(prefix@.take(matched + 1) =~= prefix@.take(matched as int).push(
                prefix@[matched as int],
            ));
            assert(name@.take(matched + 1) =~= name@.take(matched as int).push(
                name@[matched as int],
            ));
            matched = matched + 1;
        }
    }
    if matched == wanted {
        assert(prefix@.take(matched as int) =~= prefix@);
        assert(name@.take(matched as int) =~= name@.subrange(0, prefix@.len() as int));
        true
    } else {
        false
    }
}

/// The names under which a component imports what it needs, in the order in
/// which it declares them.
pub uninterp spec fn imported_names(component: Component) -> Seq<Seq<char>>;

/// `Component::component_type` and `types::Component::imports`: the names of
/// the component's imports, in declaration order.
#[verifier::external_body]
pub(crate) fn import_names(component: &Component) -> (names: Vec<String>)
    ensures
        names.deep_view() == imported_names(*component),
{
    let declared = component.component_type();
    declared.imports(component.engine()).map(|(name, _)| name.to_owned()).collect()
}

/// The capabilities that the host has bound for plugins to import. It is
/// filled once, at startup, and every plugin is linked against the same one.
pub struct Namespace {
    bound: Vec<String>,
}

impl View for Namespace {
    type V = Set<Seq<char>>;

    closed spec fn view(&self) -> Set<Seq<char>> {
        Set::new(
            |name: Seq<char>| exists|i: int| 0 <= i < self.bound@.len() && self.bound@[i]@ == name,
        )
    }
}

/// Whether a namespace that binds `bound` satisfies the import `name`.
pub open spec fn satisfies(bound: Set<Seq<char>>, name: Seq<char>) -> bool {
    sandbox_import(name) || bound.contains(name)
}

/// The first of `imports` that a namespace binding `bound` leaves
/// unsatisfied, if there is one.
pub open spec fn first_unbound(bound: Set<Seq<char>>, imports: Seq<Seq<char>>) -> Option<Seq<char>>
    decreases imports.len(),
{
    if imports.len() == 0 {
        None
    } else if !satisfies(bound, imports[0]) {
        Some(imports[0])
    } else {
        first_unbound(bound, imports.drop_first())
    }
}

impl Namespace {
    /// A namespace that binds nothing.
    pub fn new() -> (namespace: Namespace)
        ensures
            namespace@ == Set::<Seq<char>>::empty(),
    {
        let namespace = Namespace { bound: Vec::new() };
        assert(namespace@ =~= Set::<Seq<char>>::empty());
        namespace
    }

    /// The namespace of this host: it binds the audit recorder.
    pub fn host() -> (namespace: Namespace)
        ensures
            namespace@ == Set::<Seq<char>>::empty().insert(AUDIT_LOG@),
    {
        let mut namespace = Namespace::new();
        namespace.bind(AUDIT_LOG);
        namespace
    }

    /// Binds the capability `name`.
    pub fn bind(&mut self, name: &str)
        ensures
            final(self)@ == old(self)@.insert(name@),
    {
        self.bound.push(name.to_owned());
        assert(self@ =~= old(self)@.insert(name@)) by {
            let last = old(self).bound@.len() as int;
            assert(self.bound@[last]@ == name@);
            assert forall|other: Seq<char>| old(self)@.contains(other) implies self@.contains(
                other,
            ) by {
                let held = old(self).bound@;
                let i = choose|i: int| 0 <= i < held.len() && held[i]@ == other;
                assert(self.bound@[i]@ == other);
            }
        }
    }

    /// Whether the capability `name` is bound.
    pub fn provides(&self, name: &str) -> (found: bool)
        ensures
            found == self@.contains(name@),
    {
        let wanted = name.to_owned();
        let mut i: usize = 0;
        while i < self.bound.len()
            invariant
                i <= self.bound@.len(),
                wanted@ == name@,
                forall|j: int| 0 <= j < i ==> self.bound@[j]@ != name@,
            decreases self.bound@.len() - i,
        {
            if self.bound[i] == wanted {
                return true;
            }
            i = i + 1;
        }
        false
    }

    /// Resolves the imports of a plugin against the namespace. Imports of the
    /// sandbox's own interfaces are left to the execution context; every
    /// other import must be bound. The error names the first import that is
    /// not.
    pub fn resolve(&self, imports: &Vec<String>) -> (linked: Result<(), LinkError>)
        ensures
            match linked {
                Ok(_) => first_unbound(self@, imports.deep_view()) is None,
                Err(error) => first_unbound(self@, imports.deep_view()) == Some(error.import@),
            },
    {
        let ghost all = imports.deep_view();
        let mut i: usize = 0;
        assert(all.skip(0) =~= all);
        while i < imports.len()
            invariant
                i <= imports@.len(),
                all == imports.deep_view(),
                first_unbound(self@, all) == first_unbound(self@, all.skip(i as int)),
            decreases imports@.len() - i,
        {
            let name = imports[i].as_str();
            assert(all.skip(i as int)[0] == name@);
            assert(all.skip(i as int).drop_first() =~= all.skip(i + 1));
            if !starts_with(name, "wasi:") && !self.provides(name) {
                return Err(LinkError { import: imports[i].clone() });
            }
            i = i + 1;
        }
        assert(all.skip(i as int).len() == 0);
        Ok(())
    }

    /// Links a compiled plugin: resolves what the component imports.
    pub fn link(&self, component: &Component) -> (linked: Result<(), LinkError>)
        ensures
            match linked {
                Ok(_) => first_unbound(self@, imported_names(*component)) is None,
                Err(error) => first_unbound(self@, imported_names(*component)) == Some(
                    error.import@,
                ),
            },
    {
        let imports = import_names(component);
        self.resolve(&imports)
    }
}

} // verus!
