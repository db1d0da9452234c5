//! The single plugin instance of a process and its lifecycle: identity and
//! table arrive independently, in either order; the plugin is built once both
//! are known; hooks run only while it is active; shutdown ends it for good.
use vstd::prelude::*;
use crate::traits::MumblePluginDescriptor;
use crate::types::{ChannelIdT, ConnectionT, ErrorT, PluginId, TalkingStateT, UserIdT};

verus! {

/// Where the registry stands.
#[derive(Clone, Copy, Debug, PartialEq, Eq, Structural)]
pub enum Lifecycle {
    /// Neither the identity nor the table has arrived.
    Empty,
    /// The identity has arrived, the table has not.
    IdentityKnown,
    /// The table has arrived, the identity has not.
    TableKnown,
    /// The plugin was built and takes hook calls.
    Active,
    /// The plugin was shut down; nothing follows.
    ShutDown,
}

/// One of the two pieces the host delivers before the plugin can be built.
#[derive(Clone, Copy, Debug, PartialEq, Eq, Structural)]
pub enum Delivery {
    Identity,
    Table,
}

/// What a delivery led to.
#[derive(Clone, Copy, Debug, PartialEq, Eq, Structural)]
pub enum Activation {
    /// The other piece is still missing.
    Pending,
    /// The plugin was built and is now active.
    Activated,
    /// The plugin's constructor failed with this status; the registry is empty
    /// again.
    InitFailed(ErrorT),
}

/// A delivery the lifecycle does not allow; each one means the host broke the
/// documented call order.
#[derive(Clone, Copy, Debug, PartialEq, Eq, Structural)]
pub enum LifecycleError {
    /// This piece was already delivered, or a plugin is already active.
    AlreadyRegistered,
    /// The plugin has been shut down.
    AfterShutdown,
}

/// The lifecycle state after `d` arrives in state `p`, where `built` says
/// whether the plugin's constructor succeeds if it is run.
pub open spec fn spec_deliver(p: Lifecycle, d: Delivery, built: bool) -> Lifecycle {
    match (p, d) {
        (Lifecycle::Empty, Delivery::Identity) => Lifecycle::IdentityKnown,
        (Lifecycle::Empty, Delivery::Table) => Lifecycle::TableKnown,
        (Lifecycle::IdentityKnown, Delivery::Table) | (Lifecycle::TableKnown, Delivery::Identity) => {
            if built {
                Lifecycle::Active
            } else {
                Lifecycle::Empty
            }
        },
        _ => p,
    }
}

/// Whether `d` arriving in state `p` runs the plugin's constructor: exactly
/// when it completes the pair.
pub open spec fn spec_runs_init(p: Lifecycle, d: Delivery) -> bool {
    ||| (p == Lifecycle::IdentityKnown && d == Delivery::Table)
    ||| (p == Lifecycle::TableKnown && d == Delivery::Identity)
}

/// Whether `r` is the answer to `d` arriving in state `p`: the constructor's
/// outcome when the delivery completes the pair, `Pending` when it is the
/// first piece, and a refusal otherwise.
pub open spec fn spec_answers(p: Lifecycle, d: Delivery, r: Result<Activation, LifecycleError>) -> bool {
    match r {
        Ok(Activation::Activated) => spec_runs_init(p, d),
        Ok(Activation::InitFailed(_)) => spec_runs_init(p, d),
        Ok(Activation::Pending) => p == Lifecycle::Empty,
        Err(LifecycleError::AfterShutdown) => p == Lifecycle::ShutDown,
        Err(LifecycleError::AlreadyRegistered) => {
            &&& p != Lifecycle::ShutDown
            &&& p != Lifecycle::Empty
            &&& !spec_runs_init(p, d)
        },
    }
}

/// A hook of the active plugin as it was called, with the arguments it was
/// handed after translation; a sample buffer is recorded by its contents
/// before the call (or its length, for an output sample type) and a
/// payload by its bytes.
pub ghost enum HookCall {
    ServerConnected(ConnectionT),
    ServerDisconnected(ConnectionT),
    ServerSynchronized(ConnectionT),
    ChannelEntered(ConnectionT, UserIdT, Option<ChannelIdT>, Option<ChannelIdT>),
    ChannelExited(ConnectionT, UserIdT, Option<ChannelIdT>),
    UserTalkingStateChanged(ConnectionT, UserIdT, TalkingStateT),
    AudioInput(Seq<i16>, u32, u16, bool),
    AudioSourceFetched(nat, u32, u16, u32, bool, Option<UserIdT>),
    AudioOutputAboutToPlay(nat, u32, u16),
    ReceiveData(ConnectionT, UserIdT, Seq<char>, Seq<u8>),
    UserAdded(ConnectionT, UserIdT),
    UserRemoved(ConnectionT, UserIdT),
    ChannelAdded(ConnectionT, Option<ChannelIdT>),
    ChannelRemoved(ConnectionT, Option<ChannelIdT>),
    ChannelRenamed(ConnectionT, Option<ChannelIdT>),
    KeyEvent(u32, bool),
    HasUpdate,
    UpdateDownloadUrl(nat, usize),
}

/// What a hook returned.
pub ghost enum HookAnswer {
    /// The hook returns nothing.
    Done,
    /// The hook's flag: "mutated", "consumed", "update available", "complete".
    Flag(bool),
}

/// The active plugin with the identity and table it was built from.
pub struct PluginHolder<P, H> {
    pub id: PluginId,
    pub raw_api: H,
    pub plugin: P,
}

impl<P, H> PluginHolder<P, H> {
    pub fn new(id: PluginId, raw_api: H, plugin: P) -> (r: Self)
        ensures
            r.id == id,
            r.raw_api == raw_api,
            r.plugin == plugin,
    {
        PluginHolder { id, raw_api, plugin }
    }
}

/// The process's plugin slot. It counts, as ghost state, how often the
/// plugin's constructor and its shutdown hook have run.
pub struct PluginRegistry<P, H> {
    identity: Option<PluginId>,
    table: Option<H>,
    holder: Option<PluginHolder<P, H>>,
    shut_down: bool,
    inits: Ghost<nat>,
    shutdowns: Ghost<nat>,
    hooks: Ghost<Seq<(HookCall, HookAnswer)>>,
}

impl<P: MumblePluginDescriptor<H>, H: Copy> PluginRegistry<P, H> {
    pub closed spec fn phase(&self) -> Lifecycle {
        if self.shut_down {
            Lifecycle::ShutDown
        } else if self.holder is Some {
            Lifecycle::Active
        } else if self.identity is Some {
            Lifecycle::IdentityKnown
        } else if self.table is Some {
            Lifecycle::TableKnown
        } else {
            Lifecycle::Empty
        }
    }

    /// How many times the plugin's constructor has run.
    pub closed spec fn inits(&self) -> nat {
        self.inits@
    }

    /// How many times the plugin's shutdown hook has run.
    pub closed spec fn shutdowns(&self) -> nat {
        self.shutdowns@
    }

    /// The hooks dispatched to the active plugin, in order, with what each
    /// returned.
    pub closed spec fn hooks(&self) -> Seq<(HookCall, HookAnswer)> {
        self.hooks@
    }

    /// The identity delivered and kept: while waiting for the table, or of
    /// the active plugin.
    pub closed spec fn spec_identity(&self) -> Option<PluginId> {
        self.identity
    }

    /// The table delivered and kept: while waiting for the identity, or of
    /// the active plugin.
    pub closed spec fn spec_table(&self) -> Option<H> {
        self.table
    }

    /// The identity and table the active plugin was built from.
    pub closed spec fn spec_built_from(&self) -> Option<(PluginId, H)> {
        match self.holder {
            Some(h) => Some((h.id, h.raw_api)),
            None => None,
        }
    }

    /// A piece is held only while waiting for the other, or while active.
    pub closed spec fn wf(&self) -> bool {
        &&& self.shut_down ==> self.holder is None && self.identity is None && self.table is None
        &&& self.shutdowns@ == if self.shut_down {
            1nat
        } else {
            0nat
        }
        &&& !(self.identity is Some && self.table is Some && self.holder is None)
        &&& self.holder is Some ==> self.identity is Some && self.table is Some
        &&& self.holder matches Some(h) ==> self.identity == Some(h.id) && self.table == Some(
            h.raw_api,
        )
    }

    /// `self` is `prev` after a hook ran: still active, with the same
    /// identity, table and plugin origin, and no constructor or shutdown run.
    pub open spec fn after_hook(&self, prev: &Self) -> bool {
        &&& self.wf()
        &&& self.phase() == Lifecycle::Active
        &&& self.inits() == prev.inits()
        &&& self.shutdowns() == prev.shutdowns()
        &&& self.spec_identity() == prev.spec_identity()
        &&& self.spec_table() == prev.spec_table()
        &&& self.spec_built_from() == prev.spec_built_from()
    }

    /// An empty registry.
    pub fn new() -> (r: Self)
        ensures
            r.wf(),
            r.phase() == Lifecycle::Empty,
            r.inits() == 0,
            r.shutdowns() == 0,
            r.hooks() == Seq::<(HookCall, HookAnswer)>::empty(),
            r.spec_identity() is None,
            r.spec_table() is None,
    {
        PluginRegistry {
            identity: None,
            table: None,
            holder: None,
            shut_down: false,
            inits: Ghost(0),
            shutdowns: Ghost(0),
            hooks: Ghost(Seq::empty()),
        }
    }

    pub fn phase_now(&self) -> (r: Lifecycle)
        requires
            self.wf(),
        ensures
            r == self.phase(),
    {
        if self.shut_down {
            Lifecycle::ShutDown
        } else if self.holder.is_some() {
            Lifecycle::Active
        } else if self.identity.is_some() {
            Lifecycle::IdentityKnown
        } else if self.table.is_some() {
            Lifecycle::TableKnown
        } else {
            Lifecycle::Empty
        }
    }

    /// Whether hooks may be dispatched.
    pub fn is_active(&self) -> (r: bool)
        requires
            self.wf(),
        ensures
            r == (self.phase() == Lifecycle::Active),
    {
        !self.shut_down && self.holder.is_some()
    }

    /// Runs the plugin's constructor on the pair, once it is complete.
    fn activate(&mut self, id: PluginId, api: H) -> (r: Result<(), ErrorT>)
        requires
            old(self).wf(),
            !old(self).shut_down,
            old(self).holder is None,
            old(self).identity is None,
            old(self).table is None,
        ensures
            final(self).wf(),
            final(self).inits() == old(self).inits() + 1,
            final(self).shutdowns() == old(self).shutdowns(),
            final(self).hooks() == old(self).hooks(),
            r is Ok ==> final(self).phase() == Lifecycle::Active && final(self).spec_identity()
                == Some(id) && final(self).spec_table() == Some(api) && final(self).spec_built_from()
                == Some((id, api)),
            r is Err ==> final(self).phase() == Lifecycle::Empty,
    {
        proof {
            self.inits@ = self.inits@ + 1;
        }
        match P::init(id, api) {
            Ok(plugin) => {
                self.identity = Some(id);
                self.table = Some(api);
                self.holder = Some(PluginHolder::new(id, api, plugin));
                Ok(())
            },
            Err(e) => Err(e),
        }
    }

    /// The host delivers this plugin's identity.
    pub fn init(&mut self, id: PluginId) -> (r: Result<Activation, LifecycleError>)
        requires
            old(self).wf(),
        ensures
            final(self).wf(),
            final(self).inits() == old(self).inits() + if spec_runs_init(
                old(self).phase(),
                Delivery::Identity,
            ) {
                1nat
            } else {
                0nat
            },
            spec_answers(old(self).phase(), Delivery::Identity, r),
            final(self).shutdowns() == old(self).shutdowns(),
            final(self).hooks() == old(self).hooks(),
            old(self).phase() == Lifecycle::Empty ==> final(self).spec_identity() == Some(id)
                && final(self).spec_table() is None,
            r == Ok::<Activation, LifecycleError>(Activation::Activated) ==> final(self).spec_built_from() == Some((id, old(self).spec_table()->0)),
            r is Err ==> final(self).spec_identity() == old(self).spec_identity()
                && final(self).spec_table() == old(self).spec_table(),
            final(self).phase() == spec_deliver(
                old(self).phase(),
                Delivery::Identity,
                r == Ok::<Activation, LifecycleError>(Activation::Activated),
            ),
    {
        if self.shut_down {
            return Err(LifecycleError::AfterShutdown);
        }
        if self.holder.is_some() || self.identity.is_some() {
            return Err(LifecycleError::AlreadyRegistered);
        }
        match self.table {
            None => {
                self.identity = Some(id);
                Ok(Activation::Pending)
            },
            Some(api) => {
                self.table = None;
                match self.activate(id, api) {
                    Ok(()) => Ok(Activation::Activated),
                    Err(e) => Ok(Activation::InitFailed(e)),
                }
            },
        }
    }

    /// The host delivers its capability table. A table delivered while a
    /// plugin is active would install a second instance, which is fatal:
    /// callers check `is_active` first and abort.
    pub fn register_api_functions(&mut self, api: H) -> (r: Result<Activation, LifecycleError>)
        requires
            old(self).wf(),
            old(self).phase() != Lifecycle::Active,
        ensures
            final(self).wf(),
            final(self).inits() == old(self).inits() + if spec_runs_init(
                old(self).phase(),
                Delivery::Table,
            ) {
                1nat
            } else {
                0nat
            },
            spec_answers(old(self).phase(), Delivery::Table, r),
            final(self).shutdowns() == old(self).shutdowns(),
            final(self).hooks() == old(self).hooks(),
            old(self).phase() == Lifecycle::Empty ==> final(self).spec_table() == Some(api)
                && final(self).spec_identity() is None,
            r == Ok::<Activation, LifecycleError>(Activation::Activated) ==> final(self).spec_built_from() == Some((old(self).spec_identity()->0, api)),
            r is Err ==> final(self).spec_identity() == old(self).spec_identity()
                && final(self).spec_table() == old(self).spec_table(),
            final(self).phase() == spec_deliver(
                old(self).phase(),
                Delivery::Table,
                r == Ok::<Activation, LifecycleError>(Activation::Activated),
            ),
    {
        if self.shut_down {
            return Err(LifecycleError::AfterShutdown);
        }
        if self.holder.is_some() || self.table.is_some() {
            return Err(LifecycleError::AlreadyRegistered);
        }
        match self.identity {
            None => {
                self.table = Some(api);
                Ok(Activation::Pending)
            },
            Some(id) => {
                self.identity = None;
                match self.activate(id, api) {
                    Ok(()) => Ok(Activation::Activated),
                    Err(e) => Ok(Activation::InitFailed(e)),
                }
            },
        }
    }

    /// The active plugin, for a hook call.
    pub(crate) fn plugin_mut(&mut self) -> (plugin: &mut P)
        requires
            old(self).wf(),
            old(self).phase() == Lifecycle::Active,
        ensures
            final(self).wf(),
            final(self).phase() == Lifecycle::Active,
            final(self).inits() == old(self).inits(),
            final(self).shutdowns() == old(self).shutdowns(),
            final(self).hooks() == old(self).hooks(),
            final(self).spec_identity() == old(self).spec_identity(),
            final(self).spec_table() == old(self).spec_table(),
            final(self).spec_built_from() == old(self).spec_built_from(),
    {
        let h = self.holder.as_mut().unwrap();
        &mut h.plugin
    }

    /// Records that the hook `call` was dispatched and returned `answer`.
    pub(crate) fn note_hook(&mut self, call: Ghost<HookCall>, answer: Ghost<HookAnswer>)
        requires
            old(self).wf(),
            old(self).phase() == Lifecycle::Active,
        ensures
            final(self).after_hook(old(self)),
            final(self).hooks() == old(self).hooks().push((call@, answer@)),
    {
        proof {
            self.hooks@ = self.hooks@.push((call@, answer@));
        }
    }

    /// Shuts the active plugin down, once. Returns whether there was one.
    pub fn shutdown(&mut self) -> (r: bool)
        requires
            old(self).wf(),
        ensures
            final(self).wf(),
            r == (old(self).phase() == Lifecycle::Active),
            final(self).phase() == if r {
                Lifecycle::ShutDown
            } else {
                old(self).phase()
            },
            final(self).inits() == old(self).inits(),
            final(self).shutdowns() == old(self).shutdowns() + if r {
                1nat
            } else {
                0nat
            },
            final(self).shutdowns() <= 1,
            final(self).hooks() == old(self).hooks(),
    {
        if self.shut_down {
            return false;
        }
        let held = self.holder.take();
        match held {
            Some(h) => {
                h.plugin.shutdown();
                proof {
                    self.shutdowns@ = self.shutdowns@ + 1;
                }
                self.identity = None;
                self.table = None;
                self.shut_down = true;
                true
            },
            None => false,
        }
    }
}

/// Whichever order the identity and the table arrive in, from an empty
/// registry: the first arrival neither runs the constructor nor activates; the
/// second runs it exactly once and leaves the registry active exactly when it
/// succeeds. Once active, a further identity or table is refused, runs no
/// constructor and changes nothing.
pub proof fn lemma_activation_either_order(first: Delivery, built: bool)
    ensures
        ({
            let second = if first == Delivery::Identity {
                Delivery::Table
            } else {
                Delivery::Identity
            };
            let mid = spec_deliver(Lifecycle::Empty, first, built);
            let end = spec_deliver(mid, second, built);
            &&& !spec_runs_init(Lifecycle::Empty, first)
            &&& mid != Lifecycle::Active
            &&& mid != Lifecycle::Empty
            &&& spec_runs_init(mid, second)
            &&& (end == Lifecycle::Active <==> built)
            &&& (!built ==> end == Lifecycle::Empty)
        }),
        forall|d: Delivery, b: bool| #![auto]
            {
                &&& !spec_runs_init(Lifecycle::Active, d)
                &&& spec_deliver(Lifecycle::Active, d, b) == Lifecycle::Active
            },
        forall|d: Delivery, r: Result<Activation, LifecycleError>|
            #[trigger] spec_answers(Lifecycle::Active, d, r) ==> r == Err::<
                Activation,
                LifecycleError,
            >(LifecycleError::AlreadyRegistered),
{
}

/// The lifecycle state after the deliveries `ds` arrive in order from `p`.
pub open spec fn spec_run(p: Lifecycle, ds: Seq<Delivery>, built: bool) -> Lifecycle
    decreases ds.len(),
{
    if ds.len() == 0 {
        p
    } else {
        spec_run(spec_deliver(p, ds[0], built), ds.drop_first(), built)
    }
}

/// How many times the constructor runs while the deliveries `ds` arrive in
/// order from `p`.
pub open spec fn spec_run_inits(p: Lifecycle, ds: Seq<Delivery>, built: bool) -> nat
    decreases ds.len(),
{
    if ds.len() == 0 {
        0
    } else {
        (if spec_runs_init(p, ds[0]) {
            1nat
        } else {
            0nat
        }) + spec_run_inits(spec_deliver(p, ds[0], built), ds.drop_first(), built)
    }
}

/// For any sequence of deliveries, in any order and with any repetitions,
/// from a state before activation or from the active state, when the
/// constructor succeeds: it runs at most once overall, the registry ends
/// active exactly when it ran (or was active already), and once active it
/// stays active and runs it no more.
pub proof fn lemma_activation_any_sequence(p: Lifecycle, ds: Seq<Delivery>)
    requires
        p != Lifecycle::ShutDown,
    ensures
        p == Lifecycle::Active ==> spec_run_inits(p, ds, true) == 0 && spec_run(p, ds, true)
            == Lifecycle::Active,
        p != Lifecycle::Active ==> spec_run_inits(p, ds, true) <= 1 && (spec_run_inits(p, ds, true)
            == 1 <==> spec_run(p, ds, true) == Lifecycle::Active),
    decreases ds.len(),
{
    if ds.len() > 0 {
        lemma_activation_any_sequence(spec_deliver(p, ds[0], true), ds.drop_first());
    }
}

} // verus!
