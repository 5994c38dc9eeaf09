//! The instrumented lock itself: a wrapper over a shared tokio reader-writer
//! lock whose acquisitions hand out timed guards.
//!
//! Every acquisition attempt emits a call record for the site that asked;
//! every granted acquisition is stamped with a clock reading; releasing a
//! guard computes the held duration and emits a release record attributed to
//! the site recorded at acquisition. The underlying lock's own behaviour —
//! its wait queue, fairness and blocking — is tokio's, relied on through the
//! trusted items below and not restated here.
//!
//! Acquisition here is the non-suspending form: it asks the underlying lock
//! for access that is free right now and reports failure otherwise, so no
//! verified function ever blocks or panics. Exclusive pass-through to the
//! underlying state is deliberately not offered: with shared ownership it
//! could alias an active holder.

use vstd::prelude::*;
use std::sync::Arc;
use std::io::Write;
use crate::duration::held_duration_millis;
use crate::record::CallSite;
use crate::record::OpKind;
use crate::record::ReleaseRecord;
use crate::record::render_call_record;
use crate::record::spec_call_record;
use crate::record::spec_release_line;

verus! {

#[verifier::external_type_specification]
#[verifier::external_body]
#[verifier::reject_recursive_types(T)]
pub struct ExTokioRwLock<T: ?Sized>(tokio::sync::RwLock<T>);

#[verifier::external_type_specification]
#[verifier::external_body]
#[verifier::reject_recursive_types(T)]
pub struct ExTokioRwLockReadGuard<'a, T: ?Sized>(tokio::sync::RwLockReadGuard<'a, T>);

#[verifier::external_type_specification]
#[verifier::external_body]
#[verifier::reject_recursive_types(T)]
pub struct ExTokioRwLockWriteGuard<'a, T: ?Sized>(tokio::sync::RwLockWriteGuard<'a, T>);

#[verifier::external_type_specification]
#[verifier::external_body]
pub struct ExTokioInstant(tokio::time::Instant);

/// Relies on tokio::sync::RwLock::new: a fresh unlocked lock holding `value`.
#[verifier::external_body]
fn rwlock_new<T>(value: T) -> (lock: tokio::sync::RwLock<T>) {
    tokio::sync::RwLock::new(value)
}

/// Relies on tokio::sync::RwLock::try_read: a shared guard when no exclusive
/// holder or exclusive acquirer is active, nothing otherwise.
#[verifier::external_body]
fn rwlock_try_read<'a, T>(lock: &'a Arc<tokio::sync::RwLock<T>>) -> (g: Option<
    tokio::sync::RwLockReadGuard<'a, T>,
>) {
    lock.try_read().ok()
}

/// Relies on tokio::sync::RwLock::try_write: an exclusive guard when no other
/// holder is active, nothing otherwise.
#[verifier::external_body]
fn rwlock_try_write<'a, T>(lock: &'a Arc<tokio::sync::RwLock<T>>) -> (g: Option<
    tokio::sync::RwLockWriteGuard<'a, T>,
>) {
    lock.try_write().ok()
}

/// Relies on the tokio read guard's Deref impl: a shared reference to the
/// value the lock protects.
#[verifier::external_body]
fn read_guard_value<'a, T>(g: &'a tokio::sync::RwLockReadGuard<'_, T>) -> (v: &'a T) {
    &**g
}

/// Relies on the tokio write guard's Deref impl: a shared reference to the
/// value the lock protects.
#[verifier::external_body]
fn write_guard_value<'a, T>(g: &'a tokio::sync::RwLockWriteGuard<'_, T>) -> (v: &'a T) {
    &**g
}

/// Relies on the tokio write guard's DerefMut impl: replaces the value the
/// lock protects.
#[verifier::external_body]
fn write_guard_set<T>(g: &mut tokio::sync::RwLockWriteGuard<'_, T>, value: T) {
    **g = value;
}

/// Relies on Arc's Deref impl: a reference to the underlying lock itself.
#[verifier::external_body]
fn arc_lock_ref<'a, T>(lock: &'a Arc<tokio::sync::RwLock<T>>) -> (r: &'a tokio::sync::RwLock<T>)
    ensures
        *r == *lock,
{
    lock
}

/// Relies on tokio::time::Instant::now: a reading of the monotonic clock.
#[verifier::external_body]
fn clock_origin() -> (t: tokio::time::Instant) {
    tokio::time::Instant::now()
}

/// Relies on tokio::time::Instant being Copy: the same clock reading again.
#[verifier::external_body]
fn clock_copy(t: &tokio::time::Instant) -> (r: tokio::time::Instant)
    ensures
        r == *t,
{
    *t
}

/// Relies on tokio::time::Instant::elapsed: the whole milliseconds the
/// monotonic clock has advanced since the reading was taken. The value
/// depends on the clock, so nothing is promised of it.
#[verifier::external_body]
fn millis_since(t: &tokio::time::Instant) -> (ms: u64) {
    t.elapsed().as_millis() as u64
}

/// Relies on std::io::Stdout's Write impl: prints one trace line. A failure
/// to write is ignored, since record emission must never affect the lock
/// operation itself.
#[verifier::external_body]
fn emit_line(line: &str) {
    let _ = writeln!(std::io::stdout(), "{}", line);
}

/// An instrumented view of a shared tokio reader-writer lock: the same
/// locking behaviour, plus an access record for every acquisition attempt
/// and a timed, attributed record for every release.
#[verifier::reject_recursive_types(T)]
pub struct TokioRwLockTrace<T> {
    inner: Arc<tokio::sync::RwLock<T>>,
    epoch: tokio::time::Instant,
}

/// A granted shared acquisition: read access to the protected value until
/// the guard is released, stamped with the clock reading and the call site
/// of the acquisition.
#[verifier::reject_recursive_types(T)]
pub struct LoggingRwLockReadGuard<'a, T> {
    inner: tokio::sync::RwLockReadGuard<'a, T>,
    epoch: tokio::time::Instant,
    acquired_at_millis: u64,
    site: CallSite,
}

/// A granted exclusive acquisition: read and write access to the protected
/// value until the guard is released, stamped like the shared guard.
#[verifier::reject_recursive_types(T)]
pub struct LoggingRwLockWriteGuard<'a, T> {
    inner: tokio::sync::RwLockWriteGuard<'a, T>,
    epoch: tokio::time::Instant,
    acquired_at_millis: u64,
    site: CallSite,
}

impl<T> TokioRwLockTrace<T> {
    /// The underlying lock this wrapper instruments.
    pub closed spec fn spec_inner(self) -> Arc<tokio::sync::RwLock<T>> {
        self.inner
    }

    /// Wraps `value` in a fresh underlying lock.
    pub fn new(value: T) -> (lock: TokioRwLockTrace<T>) {
        TokioRwLockTrace { inner: Arc::new(rwlock_new(value)), epoch: clock_origin() }
    }

    /// Wraps an already shared underlying lock without copying its contents,
    /// so several instrumented views can observe the same protected value.
    pub fn from(inner: Arc<tokio::sync::RwLock<T>>) -> (lock: TokioRwLockTrace<T>)
        ensures
            lock.spec_inner() == inner,
    {
        TokioRwLockTrace { inner, epoch: clock_origin() }
    }

    /// Read pass-through to the underlying lock, so every operation it
    /// supports remains available. The exclusive counterpart is deliberately
    /// not offered: with shared ownership it could alias an active holder.
    pub fn underlying(&self) -> (r: &tokio::sync::RwLock<T>)
        ensures
            *r == *self.spec_inner(),
    {
        arc_lock_ref(&self.inner)
    }

    /// Attempts shared acquisition for the caller at `site`: emits the
    /// acquire record first, then asks the underlying lock for shared access
    /// that is free right now. Returns the guard when access was granted —
    /// stamped with the grant instant and carrying `site` — together with
    /// the emitted record line.
    pub fn try_read(&self, site: CallSite) -> (r: (
        Option<LoggingRwLockReadGuard<'_, T>>,
        String,
    ))
        ensures
            r.1@ == spec_call_record(site.file@, site.line as nat, site.worker@),
            r.0 matches Some(g) ==> g.spec_site() == site,
    {
        let line = render_call_record(&site);
        emit_line(line.as_str());
        match rwlock_try_read(&self.inner) {
            Some(inner) => {
                let epoch = clock_copy(&self.epoch);
                let acquired_at_millis = millis_since(&epoch);
                (Some(LoggingRwLockReadGuard { inner, epoch, acquired_at_millis, site }), line)
            },
            None => (None, line),
        }
    }

    /// Attempts exclusive acquisition for the caller at `site`: the same
    /// contract as shared acquisition, with exclusive semantics.
    pub fn try_write(&self, site: CallSite) -> (r: (
        Option<LoggingRwLockWriteGuard<'_, T>>,
        String,
    ))
        ensures
            r.1@ == spec_call_record(site.file@, site.line as nat, site.worker@),
            r.0 matches Some(g) ==> g.spec_site() == site,
    {
        let line = render_call_record(&site);
        emit_line(line.as_str());
        match rwlock_try_write(&self.inner) {
            Some(inner) => {
                let epoch = clock_copy(&self.epoch);
                let acquired_at_millis = millis_since(&epoch);
                (Some(LoggingRwLockWriteGuard { inner, epoch, acquired_at_millis, site }), line)
            },
            None => (None, line),
        }
    }
}

impl<'a, T> LoggingRwLockReadGuard<'a, T> {
    /// The site whose acquisition produced this guard.
    pub closed spec fn spec_site(self) -> CallSite {
        self.site
    }

    /// The clock reading stamped when the guard was granted, in milliseconds
    /// since the wrapper's construction.
    pub closed spec fn spec_acquired_at(self) -> u64 {
        self.acquired_at_millis
    }

    /// The clock origin the stamp was taken against.
    pub closed spec fn spec_epoch(self) -> tokio::time::Instant {
        self.epoch
    }

    /// The site whose acquisition produced this guard.
    pub fn site(&self) -> (s: &CallSite)
        ensures
            *s == self.spec_site(),
    {
        &self.site
    }

    /// The clock reading stamped when the guard was granted.
    pub fn acquired_at_millis(&self) -> (ms: u64)
        ensures
            ms == self.spec_acquired_at(),
    {
        self.acquired_at_millis
    }

    /// Read access to the protected value.
    pub fn value(&self) -> &T {
        read_guard_value(&self.inner)
    }

    /// Ends the acquisition: computes the held duration, emits the release
    /// record attributed to the acquisition's site, and hands the underlying
    /// shared access back to the lock.
    pub fn release(self) -> (r: ReleaseRecord)
        ensures
            r.kind == OpKind::ReleaseShared,
            r.summary@ == spec_release_line(OpKind::ReleaseShared, r.duration_millis),
            r.attribution@ == spec_call_record(
                self.spec_site().file@,
                self.spec_site().line as nat,
                self.spec_site().worker@,
            ),
    {
        let now = millis_since(&self.epoch);
        let duration = held_duration_millis(self.acquired_at_millis, now);
        let record = ReleaseRecord::new(OpKind::ReleaseShared, duration, &self.site);
        emit_line(record.summary.as_str());
        emit_line(record.attribution.as_str());
        record
    }
}

impl<'a, T> LoggingRwLockWriteGuard<'a, T> {
    /// The site whose acquisition produced this guard.
    pub closed spec fn spec_site(self) -> CallSite {
        self.site
    }

    /// The clock reading stamped when the guard was granted, in milliseconds
    /// since the wrapper's construction.
    pub closed spec fn spec_acquired_at(self) -> u64 {
        self.acquired_at_millis
    }

    /// The clock origin the stamp was taken against.
    pub closed spec fn spec_epoch(self) -> tokio::time::Instant {
        self.epoch
    }

    /// The site whose acquisition produced this guard.
    pub fn site(&self) -> (s: &CallSite)
        ensures
            *s == self.spec_site(),
    {
        &self.site
    }

    /// The clock reading stamped when the guard was granted.
    pub fn acquired_at_millis(&self) -> (ms: u64)
        ensures
            ms == self.spec_acquired_at(),
    {
        self.acquired_at_millis
    }

    /// Read access to the protected value.
    pub fn value(&self) -> &T {
        write_guard_value(&self.inner)
    }

    /// Replaces the protected value; the guard's stamp and site are
    /// untouched, so the eventual release record still reports the original
    /// acquisition.
    pub fn set(&mut self, value: T)
        ensures
            final(self).spec_acquired_at() == old(self).spec_acquired_at(),
            final(self).spec_site() == old(self).spec_site(),
            final(self).spec_epoch() == old(self).spec_epoch(),
    {
        write_guard_set(&mut self.inner, value);
    }

    /// Ends the acquisition: computes the held duration, emits the release
    /// record attributed to the acquisition's site, and hands the underlying
    /// exclusive access back to the lock.
    pub fn release(self) -> (r: ReleaseRecord)
        ensures
            r.kind == OpKind::ReleaseExclusive,
            r.summary@ == spec_release_line(OpKind::ReleaseExclusive, r.duration_millis),
            r.attribution@ == spec_call_record(
                self.spec_site().file@,
                self.spec_site().line as nat,
                self.spec_site().worker@,
            ),
    {
        let now = millis_since(&self.epoch);
        let duration = held_duration_millis(self.acquired_at_millis, now);
        let record = ReleaseRecord::new(OpKind::ReleaseExclusive, duration, &self.site);
        emit_line(record.summary.as_str());
        emit_line(record.attribution.as_str());
        record
    }
}

} // verus!
