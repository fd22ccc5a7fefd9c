//! Shutdown coordination: a signal that connections observe, and a count of
//! the connections that have not closed yet.

use vstd::prelude::*;

verus! {

/// The state of the state, as a mathematical value.
pub struct ShutdownModel {
    pub signaled: bool,
    pub active: nat,
}

impl ShutdownModel {
    /// The state after one more connection has registered.
    pub open spec fn registered(self) -> ShutdownModel {
        ShutdownModel { signaled: self.signaled, active: self.active + 1 }
    }

    /// The state after one connection has closed. Closing in a state without
    /// connections changes nothing.
    pub open spec fn closed(self) -> ShutdownModel {
        ShutdownModel {
            signaled: self.signaled,
            active: if self.active > 0 {
                (self.active - 1) as nat
            } else {
                0
            },
        }
    }

    /// The state after `n` more connections have registered.
    pub open spec fn registered_times(self, n: nat) -> ShutdownModel
        decreases n,
    {
        if n == 0 {
            self
        } else {
            self.registered_times((n - 1) as nat).registered()
        }
    }

    /// The state after `n` connections have closed.
    pub open spec fn closed_times(self, n: nat) -> ShutdownModel
        decreases n,
    {
        if n == 0 {
            self
        } else {
            self.closed_times((n - 1) as nat).closed()
        }
    }

    /// Whether someone who waits for all connections to close may go on.
    pub open spec fn all_closed(self) -> bool {
        self.active == 0
    }
}

/// The shutdown signal and the count of open connections.
#[derive(Debug, Clone, Copy, PartialEq, Eq)]
pub struct ShutdownCoordinator {
    signaled: bool,
    active: usize,
}

/// The proof that a connection has registered. It is given back when the
/// connection closes, and cannot be given back twice.
#[derive(Debug)]
pub struct ConnectionGuard {
    signaled: bool,
}

impl ConnectionGuard {
    /// Whether shutdown had been signaled when the connection registered.
    pub closed spec fn saw_signal(&self) -> bool {
        self.signaled
    }

    /// Whether shutdown had been signaled when the connection registered.
    pub fn signaled_at_registration(&self) -> (signaled: bool)
        ensures
            signaled == self.saw_signal(),
    {
        self.signaled
    }
}

/// What someone who waits for all connections to close does next.
#[derive(Debug, Clone, Copy, PartialEq, Eq, Structural)]
pub enum ClosedWait {
    /// No connection is open: go on.
    Proceed,
    /// Connections are open: wait to be notified, then look again.
    AwaitNotify,
}

impl View for ShutdownCoordinator {
    type V = ShutdownModel;

    closed spec fn view(&self) -> ShutdownModel {
        ShutdownModel { signaled: self.signaled, active: self.active as nat }
    }
}

impl ShutdownCoordinator {
    /// A coordinator without connections, with shutdown not signaled.
    pub fn new() -> (coordinator: ShutdownCoordinator)
        ensures
            coordinator@ == (ShutdownModel { signaled: false, active: 0 }),
    {
        ShutdownCoordinator { signaled: false, active: 0 }
    }

    /// Registers a connection. The guard is to be given back when the
    /// connection closes.
    pub fn register(&mut self) -> (guard: ConnectionGuard)
        requires
            old(self)@.active < usize::MAX,
        ensures
            final(self)@ == old(self)@.registered(),
            guard.saw_signal() == old(self)@.signaled,
    {
        self.active = self.active + 1;
        ConnectionGuard { signaled: self.signaled }
    }

    /// Whether one more connection can be registered.
    pub fn has_room(&self) -> (room: bool)
        ensures
            room == (self@.active < usize::MAX),
    {
        self.active < usize::MAX
    }

    /// Takes back the guard of a connection that has closed. Returns
    /// whether this was the last open connection, in which case those who
    /// wait for all to close are to be notified.
    pub fn close(&mut self, guard: ConnectionGuard) -> (notify: bool)
        ensures
            final(self)@ == old(self)@.closed(),
            notify == (old(self)@.active == 1),
            notify ==> final(self)@.all_closed(),
    {
        let last = self.active == 1;
        if self.active > 0 {
            self.active = self.active - 1;
        }
        last
    }

    /// Signals shutdown. Once signaled, shutdown stays signaled.
    pub fn shutdown(&mut self)
        ensures
            final(self)@ == (ShutdownModel { signaled: true, active: old(self)@.active }),
    {
        self.signaled = true;
    }

    /// Whether shutdown has been signaled.
    pub fn is_shutdown(&self) -> (signaled: bool)
        ensures
            signaled == self@.signaled,
    {
        self.signaled
    }

    /// The number of open connections.
    pub fn active_count(&self) -> (count: usize)
        ensures
            count == self@.active,
    {
        self.active
    }

    /// What someone who waits for all connections to close does next: go
    /// on at once if none is open, and else wait for the notification.
    pub fn wait_for_all_closed(&self) -> (next: ClosedWait)
        ensures
            next == ClosedWait::Proceed <==> self@.all_closed(),
            next == ClosedWait::AwaitNotify <==> !self@.all_closed(),
    {
        if self.active == 0 {
            ClosedWait::Proceed
        } else {
            ClosedWait::AwaitNotify
        }
    }
}

impl Default for ShutdownCoordinator {
    fn default() -> (coordinator: ShutdownCoordinator)
        ensures
            coordinator@ == (ShutdownModel { signaled: false, active: 0 }),
    {
        ShutdownCoordinator::new()
    }
}

/// Registering and closing keep count: after `n` registrations and `k` of
/// those connections closed, `n - k` are open.
pub proof fn lemma_connections_are_counted(state: ShutdownModel, n: nat, k: nat)
    requires
        k <= n,
    ensures
        state.registered_times(n).active == state.active + n,
        state.registered_times(n).closed_times(k).active == state.active + n - k,
        state.registered_times(n).closed_times(k).signaled == state.signaled,
    decreases n + k,
{
    if k > 0 {
        lemma_connections_are_counted(state, n, (k - 1) as nat);
    } else if n > 0 {
        lemma_connections_are_counted(state, (n - 1) as nat, 0);
    }
}

/// A coordinator that starts without connections lets the waiter through after
/// `n` registrations if and only if all `n` connections have closed.
pub proof fn lemma_wait_ends_when_all_closed(state: ShutdownModel, n: nat, k: nat)
    requires
        state.active == 0,
        k <= n,
    ensures
        state.registered_times(n).closed_times(k).all_closed() <==> k == n,
{
    lemma_connections_are_counted(state, n, k);
}

/// No registration and no closing takes the signal back.
pub proof fn lemma_shutdown_is_monotonic(state: ShutdownModel, n: nat, k: nat)
    requires
        state.signaled,
    ensures
        state.registered_times(n).signaled,
        state.closed_times(k).signaled,
        state.registered().signaled,
        state.closed().signaled,
    decreases n + k,
{
    if n > 0 {
        lemma_shutdown_is_monotonic(state, (n - 1) as nat, 0);
    }
    if k > 0 {
        lemma_shutdown_is_monotonic(state, 0, (k - 1) as nat);
    }
}

} // verus!
