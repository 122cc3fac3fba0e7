//! The execution context: the sandbox that one call of a plugin runs in.

use vstd::prelude::*;
use wasmtime::component::ResourceTable;
use wasmtime_wasi::{WasiCtx, WasiCtxBuilder};

verus! {

/// wasmtime-wasi's `WasiCtx`, the state of WASI for one guest. The library
/// knows of it only what `environment` and `inherits_stdio` say.
#[verifier::external_type_specification]
#[verifier::external_body]
pub struct ExWasiCtx(WasiCtx);

/// wasmtime's `ResourceTable`, which holds the resources of one guest. The
/// library knows of it only what `occupied` says.
#[verifier::external_type_specification]
#[verifier::external_body]
pub struct ExResourceTable(ResourceTable);

/// The environment variables that a WASI context hands to its guest, as
/// pairs of name and value in the order in which the guest sees them.
pub uninterp spec fn environment(ctx: WasiCtx) -> Seq<(Seq<char>, Seq<char>)>;

/// Whether the guest of a WASI context writes to and reads from the standard
/// streams of the host's process.
pub uninterp spec fn inherits_stdio(ctx: WasiCtx) -> bool;

/// The slots of a resource table that hold a resource.
pub uninterp spec fn occupied(table: ResourceTable) -> Set<u32>;

/// `WasiCtxBuilder::new`, `inherit_stdio`, `envs` and `build`: a context
/// whose guest inherits the host's standard streams and sees the variables of
/// `env`, and no others, in the order of `env`.
#[verifier::external_body]
fn wasi_context(env: &Vec<(String, String)>) -> (ctx: WasiCtx)
    ensures
        environment(ctx) == env.deep_view(),
        inherits_stdio(ctx),
{
    WasiCtxBuilder::new().inherit_stdio().envs(env).build()
}

/// `ResourceTable::new` makes a table without any resource.
pub assume_specification[ ResourceTable::new ]() -> (table: ResourceTable)
    ensures
        occupied(table) == Set::<u32>::empty(),
;

/// `ResourceTable::is_empty` tells whether no slot of the table holds a
/// resource.
pub assume_specification[ ResourceTable::is_empty ](table: &ResourceTable) -> (empty: bool)
    ensures
        empty == (occupied(*table) == Set::<u32>::empty()),
;

/// The value that an environment gives the variable `name`: that of the first
/// entry with this name.
pub open spec fn lookup(env: Seq<(Seq<char>, Seq<char>)>, name: Seq<char>) -> Option<Seq<char>>
    decreases env.len(),
{
    if env.len() == 0 {
        None
    } else if env[0].0 == name {
        Some(env[0].1)
    } else {
        lookup(env.drop_first(), name)
    }
}

/// What an execution context is, to its contracts.
pub struct Sandbox {
    /// The environment that the plugin sees, as pairs of name and value.
    pub env: Seq<(Seq<char>, Seq<char>)>,
    /// The slots of the resource table that hold a resource.
    pub resources: Set<u32>,
    /// Whether the plugin's standard streams are those of the host.
    pub inherits_stdio: bool,
}

impl Sandbox {
    /// The sandbox that a call starts in under `config`: the environment is
    /// `config`, the resource table is empty, and the standard streams are
    /// the host's, for diagnostic output.
    pub open spec fn fresh(config: Seq<(Seq<char>, Seq<char>)>) -> Sandbox {
        Sandbox { env: config, resources: Set::empty(), inherits_stdio: true }
    }
}

/// The sandbox of one call: the environment that the plugin sees, a resource
/// table for the call, and the WASI context that carries both into the
/// plugin. It is made for one call and belongs to it alone.
pub struct ExecutionContext {
    env: Vec<(String, String)>,
    wasi: WasiCtx,
    table: ResourceTable,
}

impl View for ExecutionContext {
    type V = Sandbox;

    closed spec fn view(&self) -> Sandbox {
        Sandbox {
            env: self.env.deep_view(),
            resources: occupied(self.table),
            inherits_stdio: inherits_stdio(self.wasi),
        }
    }
}

impl ExecutionContext {
    #[verifier::type_invariant]
    spec fn well_formed(&self) -> bool {
        environment(self.wasi) == self.env.deep_view()
    }

    /// Builds the context for one call of a plugin configured with `config`.
    /// Its environment is `config`, entry for entry, and nothing of the
    /// host's own environment; its resource table is empty; its standard
    /// streams are the host's.
    pub fn build(config: &Vec<(String, String)>) -> (ctx: ExecutionContext)
        ensures
            ctx@ == Sandbox::fresh(config.deep_view()),
    {
        let mut env: Vec<(String, String)> = Vec::new();
        let mut i: usize = 0;
        while i < config.len()
            invariant
                i <= config@.len(),
                env@.len() == i,
                forall|j: int| 0 <= j < i ==> env@[j] == config@[j],
            decreases config@.len() - i,
        {
            env.push((config[i].0.clone(), config[i].1.clone()));
            i = i + 1;
        }
        assert(env.deep_view() =~= config.deep_view());
        let wasi = wasi_context(&env);
        ExecutionContext { env, wasi, table: ResourceTable::new() }
    }

    /// The value of the variable `name` in the context's environment.
    pub fn var(&self, name: &str) -> (value: Option<&str>)
        ensures
            match value {
                Some(text) => lookup(self@.env, name@) == Some(text@),
                None => lookup(self@.env, name@) is None,
            },
    {
        let wanted = name.to_owned();
        let ghost all = self.env.deep_view();
        let mut i: usize = 0;
        assert(all.skip(0) =~= all);
        while i < self.env.len()
            invariant
                i <= self.env@.len(),
                wanted@ == name@,
                all == self.env.deep_view(),
                lookup(all, name@) == lookup(all.skip(i as int), name@),
            decreases self.env@.len() - i,
        {
            assert(all.skip(i as int)[0] == all[i as int]);
            assert(all.skip(i as int).drop_first() =~= all.skip(i + 1));
            if self.env[i].0 == wanted {
                return Some(self.env[i].1.as_str());
            }
            i = i + 1;
        }
        None
    }

    /// Whether the resource table of the context holds nothing.
    pub fn is_fresh(&self) -> (fresh: bool)
        ensures
            fresh == (self@.resources == Set::<u32>::empty()),
    {
        self.table.is_empty()
    }

    /// Hands the context over to the call: the WASI context and the resource
    /// table that the plugin's store is made of.
    pub fn into_parts(self) -> (parts: (WasiCtx, ResourceTable))
        ensures
            environment(parts.0) == self@.env,
            inherits_stdio(parts.0) == self@.inherits_stdio,
            occupied(parts.1) == self@.resources,
    {
        proof {
            use_type_invariant(&self);
        }
        (self.wasi, self.table)
    }
}

/// Isolation of calls: whatever another call has written to its resource
/// table, and whatever its environment holds, the context that a call starts
/// in holds no resource in any slot and has the environment of its own
/// configuration.
pub proof fn lemma_calls_are_isolated(
    other: Sandbox,
    slot: u32,
    config: Seq<(Seq<char>, Seq<char>)>,
)
    requires
        other.resources.contains(slot),
    ensures
        !Sandbox::fresh(config).resources.contains(slot),
        Sandbox::fresh(config).env == config,
        forall|name: Seq<char>| lookup(Sandbox::fresh(config).env, name) == lookup(config, name),
{
}

} // verus!
