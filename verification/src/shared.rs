//! One writer for every caller, behind a spin lock.
//!
//! Every operation takes the lock, works on the writer and gives the lock
//! back before it returns, so callers are served one byte at a time: two
//! messages written at once may mix byte by byte, but no cell is ever seen
//! half written. What the writer holds between two calls depends on who else
//! wrote; the contracts here say only what holds whoever did.

use vstd::prelude::*;
use crate::screen::Screen;
use crate::writer::{clear_screen, default_attribute, Writer};

verus! {

/// `spin::mutex::Mutex`, the lock. Nothing inside it is visible to
/// verified code.
#[verifier::external_type_specification]
#[verifier::external_body]
#[verifier::reject_recursive_types(T)]
#[verifier::reject_recursive_types(R)]
pub struct ExMutex<T: ?Sized, R>(spin::mutex::Mutex<T, R>);

/// `spin::mutex::MutexGuard`, the sign that the lock is held. The lock is
/// given back when the guard goes out of scope.
#[verifier::external_type_specification]
#[verifier::external_body]
#[verifier::reject_recursive_types(T)]
#[verifier::reject_recursive_types(R)]
pub struct ExMutexGuard<'a, T: 'a + ?Sized, R>(spin::mutex::MutexGuard<'a, T, R>);

/// `spin::relax::Spin`, the way the lock waits: it spins.
#[verifier::external_type_specification]
#[verifier::external_body]
pub struct ExSpin(spin::relax::Spin);

/// The state of the writer that a lock was made around. It is fixed when
/// the lock is made and says nothing of what the lock holds later.
pub uninterp spec fn made_around(lock: spin::mutex::Mutex<Writer, spin::relax::Spin>) -> Screen;

/// Calls `spin::mutex::Mutex::new`, which wraps `writer` in a lock that
/// nobody holds. The contract claims only that the lock was made around
/// this writer: `Mutex::new` stores the value it is given and nothing else.
#[verifier::external_body]
fn lock_around(writer: Writer) -> (lock: spin::mutex::Mutex<Writer, spin::relax::Spin>)
    ensures
        made_around(lock) == writer@,
{
    spin::mutex::Mutex::new(writer)
}

/// Calls `spin::mutex::Mutex::lock`, which spins until the lock is free,
/// takes it and returns the guard. It returns only once every earlier holder
/// has given the lock back. Nothing is claimed of the result.
#[verifier::external_body]
fn acquire<'a>(lock: &'a spin::mutex::Mutex<Writer, spin::relax::Spin>) -> (guard:
    spin::mutex::MutexGuard<'a, Writer, spin::relax::Spin>) {
    lock.lock()
}

/// Calls `deref_mut` of `spin::mutex::MutexGuard`, which hands out the
/// writer that the held lock protects. Nothing is claimed of which state
/// that writer is in.
#[verifier::external_body]
fn guarded<'a, 'b>(
    guard: &'a mut spin::mutex::MutexGuard<'b, Writer, spin::relax::Spin>,
) -> (writer: &'a mut Writer) {
    &mut **guard
}

/// The writer that all callers share.
pub struct SharedWriter {
    lock: spin::mutex::Mutex<Writer, spin::relax::Spin>,
}

impl SharedWriter {
    /// The state in which this shared writer started, before anyone wrote
    /// through it.
    pub closed spec fn initial(&self) -> Screen {
        made_around(self.lock)
    }

    /// A shared writer that starts as `Writer::new()` does: white on black,
    /// over a blank display, with the cursor in the top left corner.
    pub fn new() -> (shared: SharedWriter)
        ensures
            shared.initial() == Screen::blank(default_attribute()),
            shared.initial().wf(),
    {
        SharedWriter { lock: lock_around(Writer::new()) }
    }

    /// Writes one byte under the lock.
    pub fn write_byte(&self, c: u8) {
        let mut guard = acquire(&self.lock);
        let writer = guarded(&mut guard);
        writer.write_byte(c);
    }

    /// Writes the low byte of the character's code under the lock.
    pub fn write_char(&self, c: char) {
        let mut guard = acquire(&self.lock);
        let writer = guarded(&mut guard);
        writer.write_char(c);
    }

    /// Writes the bytes of `s` in order, taking the lock anew for each byte.
    pub fn write_str(&self, s: &str) {
        let bytes = s.as_bytes();
        let mut i: usize = 0;
        while i < bytes.len()
            invariant
                i <= bytes.len(),
            decreases bytes.len() - i,
        {
            self.write_byte(bytes[i]);
            i += 1;
        }
    }

    /// Blanks the display and puts the cursor in the top left corner, under
    /// the lock.
    pub fn clear_screen(&self) {
        let mut guard = acquire(&self.lock);
        let writer = guarded(&mut guard);
        clear_screen(writer);
    }

    /// A copy of the writer as it stood at some moment during this call,
    /// taken under the lock: a state that some sequence of complete
    /// operations has left, never one in the middle of a write.
    pub fn snapshot(&self) -> (copy: Writer)
        ensures
            copy@.wf(),
    {
        let mut guard = acquire(&self.lock);
        let writer = guarded(&mut guard);
        writer.copy()
    }
}

} // verus!
