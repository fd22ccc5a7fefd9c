//! The outer terminal: its size, and what can go wrong when it is set up.

use std::sync::Arc;
use vstd::prelude::*;

verus! {

/// Why the local terminal could not be prepared.
#[derive(Debug, Clone, PartialEq, Eq)]
pub enum TerminalError {
    /// Raw mode could not be enabled; the cause is given as text.
    EnableRawMode(String),
}

impl TerminalError {
    /// A description of the error.
    pub fn message(&self) -> (text: String)
        ensures
            text@ == "failed to enable raw mode: "@ + self->EnableRawMode_0@,
    {
        match self {
            TerminalError::EnableRawMode(cause) => {
                let mut text = "failed to enable raw mode: ".to_owned();
                text.append(cause.as_str());
                text
            },
        }
    }
}

/// The size assumed where the outer terminal reports none: 24 rows of 80
/// columns.
pub const FALLBACK_SIZE: (u16, u16) = (24, 80);

/// The size of the outer terminal as rows and columns, from what the
/// terminal reported as columns and rows; the fallback where it reported
/// nothing.
pub fn terminal_size(reported: Option<(u16, u16)>) -> (size: (u16, u16))
    ensures
        size == match reported {
            Some((cols, rows)) => (rows, cols),
            None => FALLBACK_SIZE,
        },
{
    match reported {
        Some((cols, rows)) => (rows, cols),
        None => FALLBACK_SIZE,
    }
}

/// The lock that guards a shared size.
#[verifier::external_type_specification]
#[verifier::external_body]
#[verifier::reject_recursive_types(T)]
pub struct ExRwLock<T: ?Sized>(std::sync::RwLock<T>);

/// The size that a lock was made with, as rows and columns. What the lock
/// holds later is given no name: every holder of the lock may write.
pub uninterp spec fn made_with(lock: std::sync::RwLock<(u16, u16)>) -> (u16, u16);

/// `std::sync::RwLock::new`: a lock around the given size. Nothing is
/// claimed of what later reads see.
#[verifier::external_body]
fn new_lock(size: (u16, u16)) -> (lock: std::sync::RwLock<(u16, u16)>)
    ensures
        made_with(lock) == size,
{
    std::sync::RwLock::new(size)
}

/// `std::sync::RwLock::read`: the size under the lock at the moment of the
/// read, also where the lock is poisoned. Nothing is claimed of it.
#[verifier::external_body]
fn read_lock(lock: &std::sync::RwLock<(u16, u16)>) -> (size: (u16, u16)) {
    match lock.read() {
        Ok(guard) => *guard,
        Err(poisoned) => *poisoned.into_inner(),
    }
}

/// `std::sync::RwLock::write`: replaces the size under the lock, also where
/// the lock is poisoned.
#[verifier::external_body]
fn write_lock(lock: &std::sync::RwLock<(u16, u16)>, size: (u16, u16)) {
    match lock.write() {
        Ok(mut guard) => *guard = size,
        Err(poisoned) => *poisoned.into_inner() = size,
    }
}

/// The last known size of the outer terminal, as rows and columns, shared
/// by all who hold a clone: what one sets, the others get.
#[derive(Clone)]
pub struct TerminalSize {
    inner: Arc<std::sync::RwLock<(u16, u16)>>,
}

impl TerminalSize {
    /// The size that was given when the first holder made this value.
    pub closed spec fn initial(&self) -> (u16, u16) {
        made_with(*self.inner)
    }

    /// A shared size, which starts as `rows` rows and `cols` columns.
    pub fn new(rows: u16, cols: u16) -> (size: TerminalSize)
        ensures
            size.initial() == (rows, cols),
    {
        TerminalSize { inner: Arc::new(new_lock((rows, cols))) }
    }

    /// The size at this moment, as rows and columns.
    pub fn get(&self) -> (size: (u16, u16)) {
        read_lock(&self.inner)
    }

    /// Replaces the size for every holder.
    pub fn set(&self, rows: u16, cols: u16) {
        write_lock(&self.inner, (rows, cols));
    }
}

} // verus!
