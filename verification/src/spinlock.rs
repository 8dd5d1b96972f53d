//! A busy-wait mutual-exclusion primitive with a two-phase construction
//! protocol, a scoped exclusive-access guard, and an interrupt-state-saving
//! acquire/release pair.
//!
//! The lock is modelled by an explicit abstract state, [`LockView`]: whether
//! the one-time class registration has run, whether the lock is currently
//! held, the diagnostic identity bound at registration, the saved interrupt
//! token of an interrupt-saving acquisition, and the protected payload. Every
//! operation's contract says exactly how it moves that state, so the protocol
//! rules — register exactly once before first use, acquire only a free
//! registered lock, release exactly once per acquisition, pair each
//! interrupt-saving acquire with a release carrying the very token it
//! produced — are checked statically at every call site instead of being
//! undefined behavior at a native layer.
//!
//! Exclusivity is enforced by ownership: acquisition consumes the lock value
//! and moves it into the guard, so no second acquisition can even be written
//! while a guard is live, and a guard can release at most once. The native
//! address-pinning concern (the registered instance must keep a stable
//! address) has no counterpart in this value-level model and is not stated.
//!
//! Local interrupt delivery is modelled by an explicit [`IrqState`] register
//! handed to the interrupt-saving operations, so what they do to it is part
//! of their contracts. The guard-returning interrupt variant really disables
//! interrupts and restores them on release — the variant's documented intent,
//! stated here as its contract.

use vstd::prelude::*;

verus! {

/// A lock-ordering class key: one per lock declaration site, not per
/// instance, giving runtime lock-order diagnostics an identity to tell
/// declaration sites apart.
pub struct LockClassKey {
    id: u64,
}

impl LockClassKey {
    /// The identity of the declaration site this key stands for.
    pub closed spec fn id(self) -> u64 {
        self.id
    }

    /// Creates the class key for one lock declaration site.
    pub fn new(id: u64) -> (k: LockClassKey)
        ensures
            k.id() == id,
    {
        LockClassKey { id }
    }
}

/// The local processor's interrupt-enable state, modelled as an explicit
/// register so the interrupt-saving acquire/release pair can state — and be
/// held to — what it does to interrupt delivery.
pub struct IrqState {
    enabled: bool,
}

impl IrqState {
    /// Whether local interrupt delivery is enabled.
    pub closed spec fn enabled(self) -> bool {
        self.enabled
    }

    /// A register in the given state.
    pub fn new(enabled: bool) -> (c: IrqState)
        ensures
            c.enabled() == enabled,
    {
        IrqState { enabled }
    }

    /// Reads the register.
    pub fn is_enabled(&self) -> (r: bool)
        ensures
            r == self.enabled(),
    {
        self.enabled
    }
}

/// The interrupt-flags token that saves the given interrupt-enable state.
pub closed spec fn spec_flags_for(enabled: bool) -> u64 {
    if enabled {
        1u64
    } else {
        0u64
    }
}

/// The interrupt-enable state a token restores.
pub closed spec fn spec_flags_enabled(flags: u64) -> bool {
    flags == 1u64
}

/// The abstract state of a lock instance.
#[verifier::ext_equal]
pub struct LockView<T> {
    /// Whether the one-time class registration has run.
    pub initialized: bool,
    /// Whether the lock is currently held.
    pub locked: bool,
    /// The class-key identity bound at registration.
    pub class: u64,
    /// The diagnostic name bound at registration.
    pub name: Seq<char>,
    /// The token of the interrupt-saving acquisition currently in force, if
    /// the lock is held by one.
    pub irq_saved: Option<u64>,
    /// The protected payload.
    pub payload: T,
}

impl<T> LockView<T> {
    /// An acquisition may proceed only on a registered, free lock.
    pub open spec fn can_acquire(self) -> bool {
        self.initialized && !self.locked
    }

    /// The state after a plain acquisition.
    pub open spec fn acquired(self) -> LockView<T> {
        LockView { locked: true, irq_saved: None, ..self }
    }

    /// The state after an interrupt-saving acquisition that produced `flags`.
    pub open spec fn irq_acquired(self, flags: u64) -> LockView<T> {
        LockView { locked: true, irq_saved: Some(flags), ..self }
    }

    /// The state after a release.
    pub open spec fn released(self) -> LockView<T> {
        LockView { locked: false, irq_saved: None, ..self }
    }

    /// The state after the holder stores `t` in the payload.
    pub open spec fn stored(self, t: T) -> LockView<T> {
        LockView { payload: t, ..self }
    }

    /// Well-formedness: a lock is held only after registration, and a saved
    /// interrupt token exists only while the lock is held.
    pub open spec fn wf(self) -> bool {
        (self.locked ==> self.initialized) && (!self.locked ==> self.irq_saved is None)
    }
}

/// A busy-wait lock protecting a payload of type `T`.
///
/// An instance passes through three phases: constructed but unregistered
/// (acquisition is forbidden), registered and free, and registered and held.
/// Acquisition consumes the instance and returns a guard; release gives it
/// back.
pub struct SpinLock<T> {
    registered: bool,
    held: bool,
    class: u64,
    name: Ghost<Seq<char>>,
    irq_saved: Ghost<Option<u64>>,
    data: T,
}

impl<T> View for SpinLock<T> {
    type V = LockView<T>;

    closed spec fn view(&self) -> LockView<T> {
        LockView {
            initialized: self.registered,
            locked: self.held,
            class: self.class,
            name: self.name@,
            irq_saved: self.irq_saved@,
            payload: self.data,
        }
    }
}

impl<T> SpinLock<T> {
    /// Constructs a new lock around `t`, in the unregistered state: the
    /// caller must run [`SpinLock::init`] before any acquisition, a duty the
    /// acquisition preconditions enforce.
    pub fn new(t: T) -> (l: SpinLock<T>)
        ensures
            !l@.initialized,
            !l@.locked,
            l@.irq_saved is None,
            l@.payload == t,
            l@.wf(),
    {
        SpinLock {
            registered: false,
            held: false,
            class: 0,
            name: Ghost(Seq::empty()),
            irq_saved: Ghost(None),
            data: t,
        }
    }

    /// Runs the one-time class registration, binding a diagnostic name and a
    /// lock-ordering class key to this instance. Must happen exactly once,
    /// before any acquisition: the precondition forbids a second run, and the
    /// acquisition preconditions forbid use before the first.
    pub fn init(&mut self, name: &str, key: &LockClassKey)
        requires
            !old(self)@.initialized,
        ensures
            final(self)@.initialized,
            !final(self)@.locked,
            final(self)@.irq_saved is None,
            final(self)@.payload == old(self)@.payload,
            final(self)@.class == key.id(),
            final(self)@.name == name@,
            final(self)@.wf(),
    {
        self.registered = true;
        self.held = false;
        self.class = key.id;
        self.name = Ghost(name@);
        self.irq_saved = Ghost(None);
    }

    /// Whether registration has run: the state a caller must establish before
    /// acquiring.
    pub fn is_initialized(&self) -> (r: bool)
        ensures
            r == self@.initialized,
    {
        self.registered
    }

    /// Whether the lock is currently held.
    pub fn is_locked(&self) -> (r: bool)
        ensures
            r == self@.locked,
    {
        self.held
    }

    /// Acquires the lock and returns the guard that gives exclusive access to
    /// the payload. In a concurrent setting this busy-waits until the lock is
    /// free; here the free-lock precondition stands for that wait having
    /// ended, and consuming `self` makes a second live guard unwritable.
    pub fn lock(self) -> (g: Guard<T>)
        requires
            self@.can_acquire(),
        ensures
            g@ == self@.acquired(),
    {
        let mut l = self;
        l.lock_noguard();
        Guard { lock: l }
    }

    /// Acquires the lock like [`SpinLock::lock`], and additionally suspends
    /// local interrupt delivery for the whole critical section, so an
    /// interrupt handler on the same processor cannot re-enter and deadlock
    /// against the held lock. The guard saves the prior interrupt state and
    /// restores it on release.
    pub fn irq_lock(self, cpu: &mut IrqState) -> (g: IrqGuard<T>)
        requires
            self@.can_acquire(),
        ensures
            g.saved_flags() == spec_flags_for(old(cpu).enabled()),
            g@ == self@.irq_acquired(g.saved_flags()),
            !final(cpu).enabled(),
    {
        let mut l = self;
        let flags = l.irq_lock_noguard(cpu);
        IrqGuard { lock: l, flags }
    }

    /// Acquires the lock and disables local interrupts, returning the saved
    /// interrupt state as an opaque token instead of a guard. The caller is
    /// responsible for the matching [`SpinLock::irq_unlock_noguard`] on every
    /// path — explicitly weaker safety than the guard API, for call sites
    /// that cannot use scoped acquisition.
    pub fn irq_lock_noguard(&mut self, cpu: &mut IrqState) -> (flags: u64)
        requires
            old(self)@.can_acquire(),
        ensures
            flags == spec_flags_for(old(cpu).enabled()),
            final(self)@ == old(self)@.irq_acquired(flags),
            !final(cpu).enabled(),
    {
        let flags: u64 = if cpu.enabled {
            1
        } else {
            0
        };
        cpu.enabled = false;
        self.held = true;
        self.irq_saved = Ghost(Some(flags));
        flags
    }

    /// Releases the lock and restores local interrupt state from `flags`,
    /// which must be the exact token produced by the matching
    /// [`SpinLock::irq_lock_noguard`] on this instance — the precondition
    /// rules out mismatched or reordered pairings.
    pub fn irq_unlock_noguard(&mut self, cpu: &mut IrqState, flags: u64)
        requires
            old(self)@.locked,
            old(self)@.irq_saved == Some(flags),
        ensures
            final(self)@ == old(self)@.released(),
            final(cpu).enabled() == spec_flags_enabled(flags),
    {
        self.held = false;
        self.irq_saved = Ghost(None);
        cpu.enabled = flags == 1;
    }

    /// The bare acquisition step, without guard construction: marks the lock
    /// held. Exposed for the guard-free protocol; the guard API is built on
    /// it.
    pub fn lock_noguard(&mut self)
        requires
            old(self)@.can_acquire(),
        ensures
            final(self)@ == old(self)@.acquired(),
    {
        self.held = true;
        self.irq_saved = Ghost(None);
    }

    /// The bare release step for a plain acquisition. The precondition
    /// demands a held lock whose acquisition saved no interrupt token: an
    /// interrupt-saving acquisition must be released through
    /// [`SpinLock::irq_unlock_noguard`] instead, or interrupts would stay
    /// wrongly disabled.
    pub fn unlock(&mut self)
        requires
            old(self)@.locked,
            old(self)@.irq_saved is None,
        ensures
            final(self)@ == old(self)@.released(),
    {
        self.held = false;
    }

    /// Reads the protected payload on the guard-construction path. Only a
    /// holder may look: the precondition demands the lock be held.
    pub fn locked_data(&self) -> (r: &T)
        requires
            self@.locked,
        ensures
            *r == self@.payload,
    {
        &self.data
    }

    /// Exclusive access to the protected payload for a holder on the
    /// guard-free path.
    pub fn locked_data_mut(&mut self) -> (r: &mut T)
        requires
            old(self)@.locked,
        ensures
            *r == old(self)@.payload,
            final(self)@ == old(self)@.stored(*final(r)),
    {
        &mut self.data
    }
}

/// The exclusive-access guard of a plain acquisition: the only path to the
/// payload while the lock is held. It owns the locked instance, so exactly
/// one guard exists per acquisition, and release — which consumes the guard —
/// can happen at most once.
pub struct Guard<T> {
    lock: SpinLock<T>,
}

impl<T> View for Guard<T> {
    type V = LockView<T>;

    closed spec fn view(&self) -> LockView<T> {
        self.lock@
    }
}

impl<T> Guard<T> {
    /// Reads the protected payload.
    pub fn borrow(&self) -> (r: &T)
        ensures
            *r == self@.payload,
    {
        &self.lock.data
    }

    /// Exclusive access to the protected payload.
    pub fn borrow_mut(&mut self) -> (r: &mut T)
        ensures
            *r == old(self)@.payload,
            final(self)@ == old(self)@.stored(*final(r)),
    {
        &mut self.lock.data
    }

    /// Releases the lock and hands the instance back, free again and with the
    /// payload exactly as the critical section left it. Consuming the guard
    /// is the release: it can happen once per acquisition, on whichever exit
    /// path the critical section takes.
    pub fn unlock(self) -> (l: SpinLock<T>)
        ensures
            l@ == self@.released(),
    {
        let Guard { lock: mut l } = self;
        l.held = false;
        l.irq_saved = Ghost(None);
        l
    }
}

/// The exclusive-access guard of an interrupt-saving acquisition: like
/// [`Guard`], and additionally carries the saved interrupt-flags token, which
/// its release restores.
pub struct IrqGuard<T> {
    lock: SpinLock<T>,
    flags: u64,
}

impl<T> View for IrqGuard<T> {
    type V = LockView<T>;

    closed spec fn view(&self) -> LockView<T> {
        self.lock@
    }
}

impl<T> IrqGuard<T> {
    /// The interrupt-flags token saved at acquisition.
    pub closed spec fn saved_flags(self) -> u64 {
        self.flags
    }

    /// Reads the protected payload.
    pub fn borrow(&self) -> (r: &T)
        ensures
            *r == self@.payload,
    {
        &self.lock.data
    }

    /// Exclusive access to the protected payload.
    pub fn borrow_mut(&mut self) -> (r: &mut T)
        ensures
            *r == old(self)@.payload,
            final(self)@ == old(self)@.stored(*final(r)),
    {
        &mut self.lock.data
    }

    /// Releases the lock and restores local interrupt state from the token
    /// saved at acquisition, then hands the free instance back.
    pub fn unlock(self, cpu: &mut IrqState) -> (l: SpinLock<T>)
        ensures
            l@ == self@.released(),
            final(cpu).enabled() == spec_flags_enabled(self.saved_flags()),
    {
        let IrqGuard { lock: mut l, flags } = self;
        l.held = false;
        l.irq_saved = Ghost(None);
        cpu.enabled = flags == 1;
        l
    }
}

/// Mutual exclusion: a successful acquisition leaves the lock held, and no
/// further acquisition can succeed until that holder releases — so at most
/// one guard is live per instance at any instant.
pub proof fn lemma_mutual_exclusion<T>(s: LockView<T>)
    requires
        s.can_acquire(),
    ensures
        s.acquired().locked,
        !s.acquired().can_acquire(),
{
}

/// Release/acquire visibility: whatever the holder last stored in the payload
/// is exactly what the next successful acquirer reads — the release makes the
/// critical section's writes visible to the next acquisition.
pub proof fn lemma_release_visibility<T>(s: LockView<T>, v: T)
    requires
        s.initialized,
        s.locked,
    ensures
        s.stored(v).released().can_acquire(),
        s.stored(v).released().acquired().payload == v,
{
}

/// Round trip: acquire, store a value, release, reacquire — the reacquisition
/// reads the stored value; nothing is lost across release and reacquire.
pub proof fn lemma_lock_round_trip<T>(s: LockView<T>, v: T)
    requires
        s.can_acquire(),
    ensures
        s.acquired().stored(v).released().can_acquire(),
        s.acquired().stored(v).released().acquired().payload == v,
{
}

/// An interrupt-flags token restores exactly the interrupt-enable state it
/// saved: releasing with the token an acquisition produced reinstates the
/// state that held immediately before that acquisition.
pub proof fn lemma_irq_flags_round_trip(enabled: bool)
    ensures
        spec_flags_enabled(spec_flags_for(enabled)) == enabled,
{
}

/// The interrupt-saving pair as a whole: an interrupt-saving acquisition
/// followed by the release carrying its token leaves the lock free for the
/// next acquisition, with interrupt delivery as it was immediately before.
pub proof fn lemma_irq_round_trip<T>(s: LockView<T>, enabled: bool)
    requires
        s.can_acquire(),
    ensures
        spec_flags_enabled(spec_flags_for(enabled)) == enabled,
        s.irq_acquired(spec_flags_for(enabled)).released().can_acquire(),
        s.irq_acquired(spec_flags_for(enabled)).released().payload == s.payload,
{
}

} // verus!
