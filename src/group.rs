//! Actor-group blueprints: the declarative description of a group (router,
//! restart policy, termination policy, configuration type) built fluently and
//! finished by the function that runs each actor.

use crate::envelope::{Envelope, Value};
use std::marker::PhantomData;
use vstd::prelude::*;

verus! {

// === Routing ===

/// Where a router sends an envelope.
#[derive(Debug)]
pub enum Outcome<K> {
    /// To the actor with this key.
    Unicast(K),
    /// To the actors with these keys.
    Multicast(Vec<K>),
    /// To every actor of the group.
    Broadcast,
    /// By the group's default rule.
    Default,
    /// Nowhere.
    Discard,
}

/// Chooses the actors of a group that receive an envelope.
pub trait Router<C> {
    /// The key of an actor within the group.
    type Key;

    /// Where an envelope whose erased message has view `m` is sent.
    spec fn spec_route(&self, m: (u64, Seq<Value>)) -> Outcome<Self::Key>;

    fn route(&self, envelope: &Envelope) -> (r: Outcome<Self::Key>)
        ensures
            r == self.spec_route(envelope.spec_message()@),
    ;
}

// === Policies ===

/// When an actor that has exited is started again.
#[derive(Debug, Clone, Copy, PartialEq, Eq, Structural)]
pub enum RestartMode {
    /// Whatever the result.
    Always,
    /// Only after a failure.
    OnFailures,
    /// Never; the supervisor idles.
    Never,
}

/// The behaviour on actor termination.
#[derive(Debug, Clone, Copy, PartialEq, Eq, Structural)]
pub struct RestartPolicy {
    pub mode: RestartMode,
}

impl RestartPolicy {
    /// Restart whatever the exit result.
    pub fn always() -> (r: RestartPolicy)
        ensures
            r.mode == RestartMode::Always,
    {
        RestartPolicy { mode: RestartMode::Always }
    }

    /// Restart only after a failure; the default.
    pub fn on_failures() -> (r: RestartPolicy)
        ensures
            r.mode == RestartMode::OnFailures,
    {
        RestartPolicy { mode: RestartMode::OnFailures }
    }

    /// Never restart.
    pub fn never() -> (r: RestartPolicy)
        ensures
            r.mode == RestartMode::Never,
    {
        RestartPolicy { mode: RestartMode::Never }
    }

    /// Whether an actor that exited, with a failure or not, is restarted.
    pub fn restarts(&self, failed: bool) -> (r: bool)
        ensures
            r == match self.mode {
                RestartMode::Always => true,
                RestartMode::OnFailures => failed,
                RestartMode::Never => false,
            },
    {
        match self.mode {
            RestartMode::Always => true,
            RestartMode::OnFailures => failed,
            RestartMode::Never => false,
        }
    }
}

impl Default for RestartPolicy {
    fn default() -> (r: RestartPolicy)
        ensures
            r.mode == RestartMode::OnFailures,
    {
        RestartPolicy::on_failures()
    }
}

/// The behaviour on the `Terminate` message.
#[derive(Debug, Clone, Copy, PartialEq, Eq, Structural)]
pub struct TerminationPolicy {
    /// The supervisor stops spawning new actors.
    pub stop_spawning: bool,
    /// Mailboxes are closed, so new sends fail.
    pub close_mailbox: bool,
}

impl TerminationPolicy {
    /// Stop spawning and close mailboxes; the default.
    pub fn closing() -> (r: TerminationPolicy)
        ensures
            r.stop_spawning,
            r.close_mailbox,
    {
        TerminationPolicy { stop_spawning: true, close_mailbox: true }
    }

    /// Stop spawning; mailboxes keep receiving until actors close them.
    pub fn manually() -> (r: TerminationPolicy)
        ensures
            r.stop_spawning,
            !r.close_mailbox,
    {
        TerminationPolicy { stop_spawning: true, close_mailbox: false }
    }
}

impl Default for TerminationPolicy {
    fn default() -> (r: TerminationPolicy)
        ensures
            r.stop_spawning,
            r.close_mailbox,
    {
        TerminationPolicy::closing()
    }
}

// === Builder ===

/// A group under construction, with router `R` and configuration type `C`.
#[derive(Debug)]
pub struct ActorGroup<R, C> {
    restart_policy: RestartPolicy,
    termination_policy: TerminationPolicy,
    router: R,
    config: PhantomData<C>,
}

impl<R, C> ActorGroup<R, C> {
    pub closed spec fn spec_restart_policy(&self) -> RestartPolicy {
        self.restart_policy
    }

    pub closed spec fn spec_termination_policy(&self) -> TerminationPolicy {
        self.termination_policy
    }

    pub closed spec fn spec_router(&self) -> R {
        self.router
    }
}

impl ActorGroup<(), ()> {
    /// An empty group: no router, no configuration, restart on failures and
    /// close on termination.
    pub fn new() -> (r: ActorGroup<(), ()>)
        ensures
            r.spec_restart_policy().mode == RestartMode::OnFailures,
            r.spec_termination_policy().stop_spawning,
            r.spec_termination_policy().close_mailbox,
    {
        ActorGroup {
            restart_policy: RestartPolicy::default(),
            termination_policy: TerminationPolicy::default(),
            router: (),
            config: PhantomData,
        }
    }
}

impl<R, C> ActorGroup<R, C> {
    /// The same group with configuration type `C1`.
    pub fn config<C1>(self) -> (r: ActorGroup<R, C1>)
        ensures
            r.spec_restart_policy() == self.spec_restart_policy(),
            r.spec_termination_policy() == self.spec_termination_policy(),
            r.spec_router() == self.spec_router(),
    {
        ActorGroup {
            restart_policy: self.restart_policy,
            termination_policy: self.termination_policy,
            router: self.router,
            config: PhantomData,
        }
    }

    /// The behaviour on actor termination.
    pub fn restart_policy(self, policy: RestartPolicy) -> (r: ActorGroup<R, C>)
        ensures
            r.spec_restart_policy() == policy,
            r.spec_termination_policy() == self.spec_termination_policy(),
            r.spec_router() == self.spec_router(),
    {
        let mut group = self;
        group.restart_policy = policy;
        group
    }

    /// The behaviour on the `Terminate` message.
    pub fn termination_policy(self, policy: TerminationPolicy) -> (r: ActorGroup<R, C>)
        ensures
            r.spec_restart_policy() == self.spec_restart_policy(),
            r.spec_termination_policy() == policy,
            r.spec_router() == self.spec_router(),
    {
        let mut group = self;
        group.termination_policy = policy;
        group
    }

    /// The same group routed by `router`.
    pub fn router<R1: Router<C>>(self, router: R1) -> (r: ActorGroup<R1, C>)
        ensures
            r.spec_restart_policy() == self.spec_restart_policy(),
            r.spec_termination_policy() == self.spec_termination_policy(),
            r.spec_router() == router,
    {
        ActorGroup {
            restart_policy: self.restart_policy,
            termination_policy: self.termination_policy,
            router,
            config: self.config,
        }
    }

    /// Finishes the group with `body`, the function that runs each actor.
    pub fn exec<X>(self, body: X) -> (r: Blueprint<R, C, X>) where R: Router<C>
        ensures
            r.restart_policy == self.spec_restart_policy(),
            r.termination_policy == self.spec_termination_policy(),
            r.router == self.spec_router(),
            r.body == body,
    {
        Blueprint {
            restart_policy: self.restart_policy,
            termination_policy: self.termination_policy,
            router: self.router,
            body,
            config: self.config,
        }
    }
}

/// A finished group description, ready to be started by the runtime: it
/// builds the supervisor that runs `body` under the policies and routes
/// envelopes with `router`.
#[derive(Debug)]
pub struct Blueprint<R, C, X> {
    pub restart_policy: RestartPolicy,
    pub termination_policy: TerminationPolicy,
    pub router: R,
    /// Runs each actor of the group.
    pub body: X,
    pub config: PhantomData<C>,
}

} // verus!
