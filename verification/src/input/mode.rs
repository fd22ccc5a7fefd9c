//! The input routing mode: a flag shared by every client of a session.
//!
//! The flag has no owner. Any client may capture or release at any time,
//! and no disconnect releases it: with several agents on one session, one
//! agent's disconnect must not undo another's capture, and capture and
//! release must stay idempotent whatever the transport.

use std::sync::Arc;
use vstd::prelude::*;

verus! {

/// Where local keystrokes go.
#[derive(Debug, Clone, Copy, PartialEq, Eq, Structural)]
pub enum Mode {
    /// Local input reaches both the subscribers and the PTY.
    Passthrough,
    /// Local input reaches the subscribers only.
    Capture,
}

impl Default for Mode {
    fn default() -> (mode: Mode)
        ensures
            mode == Mode::Passthrough,
    {
        Mode::Passthrough
    }
}

/// A change that a client asks of the mode.
#[derive(Debug, Clone, Copy, PartialEq, Eq, Structural)]
pub enum ModeOp {
    /// Set the mode to capture.
    Capture,
    /// Set the mode to passthrough.
    Release,
    /// Flip the mode.
    Toggle,
}

impl Mode {
    /// The other mode.
    pub open spec fn flipped(self) -> Mode {
        match self {
            Mode::Passthrough => Mode::Capture,
            Mode::Capture => Mode::Passthrough,
        }
    }

    /// The mode after one change.
    pub open spec fn after(self, op: ModeOp) -> Mode {
        match op {
            ModeOp::Capture => Mode::Capture,
            ModeOp::Release => Mode::Passthrough,
            ModeOp::Toggle => self.flipped(),
        }
    }

    /// The mode after a sequence of changes, applied in order.
    pub open spec fn after_all(self, ops: Seq<ModeOp>) -> Mode
        decreases ops.len(),
    {
        if ops.len() == 0 {
            self
        } else {
            self.after_all(ops.drop_last()).after(ops.last())
        }
    }

    /// The other mode.
    pub fn toggled(self) -> (next: Mode)
        ensures
            next == self.flipped(),
    {
        match self {
            Mode::Passthrough => Mode::Capture,
            Mode::Capture => Mode::Passthrough,
        }
    }

    /// The mode after one change.
    pub fn apply(self, op: ModeOp) -> (next: Mode)
        ensures
            next == self.after(op),
    {
        match op {
            ModeOp::Capture => Mode::Capture,
            ModeOp::Release => Mode::Passthrough,
            ModeOp::Toggle => self.toggled(),
        }
    }

    /// Whether this is the capture mode.
    pub fn is_capture(self) -> (captured: bool)
        ensures
            captured == (self == Mode::Capture),
    {
        match self {
            Mode::Capture => true,
            Mode::Passthrough => false,
        }
    }

    /// The mode's name on the wire.
    pub open spec fn name(self) -> Seq<char> {
        match self {
            Mode::Passthrough => "passthrough"@,
            Mode::Capture => "capture"@,
        }
    }

    /// The mode that a name on the wire stands for, if it stands for one.
    pub open spec fn named(name: Seq<char>) -> Option<Mode> {
        if name == "passthrough"@ {
            Some(Mode::Passthrough)
        } else if name == "capture"@ {
            Some(Mode::Capture)
        } else {
            None
        }
    }

    /// The mode that a name on the wire stands for, if it stands for one.
    pub fn from_name(name: &str) -> (mode: Option<Mode>)
        ensures
            mode == Mode::named(name@),
    {
        let given = name.to_owned();
        if given == "passthrough".to_owned() {
            Some(Mode::Passthrough)
        } else if given == "capture".to_owned() {
            Some(Mode::Capture)
        } else {
            None
        }
    }

    /// The mode's name on the wire.
    pub fn as_str(&self) -> (name: &'static str)
        ensures
            name@ == self.name(),
    {
        match self {
            Mode::Passthrough => "passthrough",
            Mode::Capture => "capture",
        }
    }
}

/// Capture and release are idempotent: any number of captures in a row,
/// one at least, leaves the mode at capture, and any number of releases at
/// passthrough, whatever the mode was before.
pub proof fn lemma_capture_and_release_are_idempotent(mode: Mode, ops: Seq<ModeOp>)
    requires
        ops.len() > 0,
    ensures
        (forall|i: int| 0 <= i < ops.len() ==> ops[i] == ModeOp::Capture) ==> mode.after_all(ops)
            == Mode::Capture,
        (forall|i: int| 0 <= i < ops.len() ==> ops[i] == ModeOp::Release) ==> mode.after_all(ops)
            == Mode::Passthrough,
{
}

/// The last capture or release decides: after it, the mode does not depend
/// on what it was before or on what was asked earlier.
pub proof fn lemma_last_setting_decides(mode: Mode, ops: Seq<ModeOp>)
    requires
        ops.len() > 0,
    ensures
        ops.last() == ModeOp::Capture ==> mode.after_all(ops) == Mode::Capture,
        ops.last() == ModeOp::Release ==> mode.after_all(ops) == Mode::Passthrough,
        ops.last() == ModeOp::Toggle ==> mode.after_all(ops) == mode.after_all(
            ops.drop_last(),
        ).flipped(),
{
}

/// A mode is read back from its name on the wire, and only a mode's own
/// name stands for it.
pub proof fn lemma_name_round_trip(mode: Mode, name: Seq<char>)
    ensures
        Mode::named(mode.name()) == Some(mode),
        Mode::named(name) == Some(mode) <==> name == mode.name(),
{
    reveal_strlit("passthrough");
    reveal_strlit("capture");
    assert("passthrough"@.len() == 11);
    assert("capture"@.len() == 7);
}

/// Two toggles in a row restore the mode.
pub proof fn lemma_toggle_twice(mode: Mode)
    ensures
        mode.after(ModeOp::Toggle).after(ModeOp::Toggle) == mode,
{
}

/// The lock that guards a shared mode.
#[verifier::external_type_specification]
#[verifier::external_body]
#[verifier::reject_recursive_types(R)]
#[verifier::reject_recursive_types(T)]
pub struct ExRwLock<R, T: ?Sized>(parking_lot::lock_api::RwLock<R, T>);

/// The locking strategy of the lock.
#[verifier::external_type_specification]
#[verifier::external_body]
pub struct ExRawRwLock(parking_lot::RawRwLock);

/// Exclusive access to the mode under the lock, until dropped: a
/// `parking_lot::RwLockWriteGuard`.
#[verifier::external_body]
struct WriteAccess<'a> {
    guard: parking_lot::RwLockWriteGuard<'a, Mode>,
}

/// The mode that a lock was made with. What the lock holds later is given
/// no name: every holder of the lock may write.
pub uninterp spec fn made_with(lock: parking_lot::RwLock<Mode>) -> Mode;

/// `parking_lot::RwLock::new`: a lock around the given mode. Nothing is
/// claimed of what later reads see.
#[verifier::external_body]
fn new_lock(mode: Mode) -> (lock: parking_lot::RwLock<Mode>)
    ensures
        made_with(lock) == mode,
{
    parking_lot::RwLock::new(mode)
}

/// `parking_lot::RwLock::read`: the value under the lock at the moment of
/// the read. Nothing is claimed of it.
#[verifier::external_body]
fn read_lock(lock: &parking_lot::RwLock<Mode>) -> (mode: Mode) {
    *lock.read()
}

/// `parking_lot::RwLock::write`: waits for exclusive access and grants it.
#[verifier::external_body]
fn write_lock<'a>(lock: &'a parking_lot::RwLock<Mode>) -> (access: WriteAccess<'a>) {
    WriteAccess { guard: lock.write() }
}

/// The guard's `Deref`: the value under the lock. Nothing is claimed of it.
#[verifier::external_body]
fn guarded(access: &WriteAccess<'_>) -> (mode: Mode) {
    *access.guard
}

/// The guard's `DerefMut`: replaces the value under the lock.
#[verifier::external_body]
fn set_guarded(access: &mut WriteAccess<'_>, mode: Mode) {
    *access.guard = mode;
}

/// The input mode of a session, shared by all who hold a clone.
#[derive(Clone)]
pub struct InputMode {
    inner: Arc<parking_lot::RwLock<Mode>>,
}

impl InputMode {
    /// The mode that the flag started in.
    pub closed spec fn initial(&self) -> Mode {
        made_with(*self.inner)
    }

    /// A new flag, which starts in passthrough mode.
    pub fn new() -> (flag: InputMode)
        ensures
            flag.initial() == Mode::Passthrough,
    {
        InputMode { inner: Arc::new(new_lock(Mode::Passthrough)) }
    }

    /// The mode at this moment.
    pub fn get(&self) -> (mode: Mode) {
        read_lock(&self.inner)
    }

    /// Carries out one change and returns the new mode. The mode is read
    /// and replaced under one exclusive access, so no other change falls in
    /// between.
    pub fn update(&self, op: ModeOp) -> (mode: Mode)
        ensures
            op == ModeOp::Capture ==> mode == Mode::Capture,
            op == ModeOp::Release ==> mode == Mode::Passthrough,
    {
        let mut guard = write_lock(&self.inner);
        let next = guarded(&guard).apply(op);
        set_guarded(&mut guard, next);
        next
    }

    /// Sets the mode to capture, whatever it was.
    pub fn capture(&self) {
        self.update(ModeOp::Capture);
    }

    /// Sets the mode to passthrough, whatever it was.
    pub fn release(&self) {
        self.update(ModeOp::Release);
    }

    /// Flips the mode and returns the new one.
    pub fn toggle(&self) -> (mode: Mode) {
        self.update(ModeOp::Toggle)
    }

    /// Whether the mode at this moment is capture.
    pub fn is_capture(&self) -> (captured: bool) {
        self.get().is_capture()
    }
}

impl Default for InputMode {
    fn default() -> (flag: InputMode)
        ensures
            flag.initial() == Mode::Passthrough,
    {
        InputMode::new()
    }
}

} // verus!
