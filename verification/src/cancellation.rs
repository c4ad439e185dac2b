//! The cancellation flag, the tokens that poll and trigger it, and the scope
//! guard that triggers it when a scope is left without having been disarmed.
//!
//! A flag starts unset and is only ever set. Every token remembers whether it
//! has seen its flag set, so that a token which once reported cancellation
//! reports it on every later poll, whatever the other threads do.
//!
//! Nothing here unwinds. The two checkpoints hand the caller a
//! [`CancelSignal`] in place of raising it; the caller leaves its loop, or
//! raises the signal's text itself.

use std::marker::PhantomData;
use std::rc::Rc;
use std::sync::atomic::AtomicBool;
use std::sync::Arc;
use vstd::prelude::*;

verus! {

/// The text carried by every signal that stands for a requested cancellation.
pub const CANCEL_PANIC_MSG: &'static str = "requested cancellation";

/// What one token knows of its flag.
pub struct TokenView {
    /// The token has seen the flag set, or has set it.
    pub cancelled: bool,
    /// How often cancellation was triggered through the token.
    pub triggers: nat,
}

impl TokenView {
    /// A token on a flag that nobody has set yet.
    pub open spec fn fresh() -> TokenView {
        TokenView { cancelled: false, triggers: 0 }
    }

    /// The token after it has triggered cancellation.
    pub open spec fn cancel(self) -> TokenView {
        TokenView { cancelled: true, triggers: self.triggers + 1 }
    }

    /// The token after a poll in which the flag read as `loaded`.
    pub open spec fn poll(self, loaded: bool) -> TokenView {
        TokenView { cancelled: self.cancelled || loaded, triggers: self.triggers }
    }
}

/// The signal that a checkpoint hands back once cancellation was requested. It
/// tells a shutdown that somebody asked for apart from a genuine failure.
#[derive(Clone, Copy, Debug, PartialEq, Eq)]
pub struct CancelSignal {}

impl CancelSignal {
    /// The text to raise the signal with.
    pub fn message(&self) -> (text: &'static str)
        ensures
            text@ == CANCEL_PANIC_MSG@,
    {
        CANCEL_PANIC_MSG
    }
}

/// A handle on one shared cancellation flag. Clones of a token share its flag.
pub struct CancellationToken {
    flag: Arc<AtomicBool>,
    cancelled: bool,
    triggers: Ghost<nat>,
}

impl View for CancellationToken {
    type V = TokenView;

    closed spec fn view(&self) -> TokenView {
        TokenView { cancelled: self.cancelled, triggers: self.triggers@ }
    }
}

/// `Arc::clone` of std: a second pointer to the very flag that `flag` points
/// to. No new flag is made.
#[verifier::external_body]
fn share(flag: &Arc<AtomicBool>) -> (shared: Arc<AtomicBool>)
    ensures
        shared == *flag,
{
    flag.clone()
}

/// `AtomicBool::store` of std with relaxed ordering. The store panics for the
/// two acquiring orderings only, so this call never unwinds, which is all that
/// is claimed of it.
#[verifier::external_body]
fn store_relaxed(flag: &Arc<AtomicBool>, value: bool)
    opens_invariants none
    no_unwind
{
    flag.store(value, std::sync::atomic::Ordering::Relaxed)
}

impl CancellationToken {
    /// The flag that the token polls and triggers.
    pub closed spec fn flag(&self) -> Arc<AtomicBool> {
        self.flag
    }

    /// Both tokens poll and trigger the same flag.
    pub open spec fn same_flag(&self, other: &CancellationToken) -> bool {
        self.flag() == other.flag()
    }

    /// A token on a flag of its own, which is not set.
    pub fn new() -> (token: Self)
        ensures
            token@ == TokenView::fresh(),
    {
        CancellationToken {
            flag: Arc::new(AtomicBool::new(false)),
            cancelled: false,
            triggers: Ghost(0),
        }
    }

    /// Takes note of a value that was read from the flag, and says whether the
    /// token now knows of a cancellation.
    pub fn observe(&mut self, loaded: bool) -> (cancelled: bool)
        ensures
            cancelled == (old(self)@.cancelled || loaded),
            final(self)@ == old(self)@.poll(loaded),
            final(self).same_flag(old(self)),
    {
        if loaded {
            self.cancelled = true;
        }
        self.cancelled
    }

    /// Polls the flag without blocking. Once a poll has returned `true`, or the
    /// token has triggered cancellation itself, every later poll returns `true`.
    pub fn is_cancelled(&mut self) -> (cancelled: bool)
        ensures
            old(self)@.cancelled ==> cancelled,
            final(self)@ == old(self)@.poll(cancelled),
            final(self).same_flag(old(self)),
    {
        let loaded = self.flag.load(std::sync::atomic::Ordering::Relaxed);
        self.observe(loaded)
    }

    /// The checkpoint for a value that was read from the flag: it passes while
    /// the token knows of no cancellation and the flag read as unset, and hands
    /// back the signal otherwise.
    pub fn checkpoint_with(&mut self, loaded: bool) -> (checkpoint: Result<(), CancelSignal>)
        ensures
            checkpoint is Err <==> (old(self)@.cancelled || loaded),
            final(self)@ == old(self)@.poll(loaded),
            final(self).same_flag(old(self)),
    {
        if self.observe(loaded) {
            Err(CancelSignal {  })
        } else {
            Ok(())
        }
    }

    /// The checkpoint: reads the flag and, if cancellation was requested, hands
    /// back the signal with which the current operation is to be given up.
    /// Whatever the flag reads, the outcome is that of
    /// [`CancellationToken::checkpoint_with`] for what the token knows
    /// afterwards.
    pub fn panic_if_cancelled(&mut self) -> (checkpoint: Result<(), CancelSignal>)
        ensures
            old(self)@.cancelled ==> checkpoint is Err,
            checkpoint is Err <==> final(self)@.cancelled,
            final(self)@ == old(self)@.poll(checkpoint is Err),
            final(self).same_flag(old(self)),
    {
        let loaded = self.flag.load(std::sync::atomic::Ordering::Relaxed);
        self.checkpoint_with(loaded)
    }

    /// Sets the flag. Setting it again changes nothing but the count of
    /// triggers.
    pub fn cancel(&mut self)
        ensures
            final(self)@ == old(self)@.cancel(),
            final(self).same_flag(old(self)),
        opens_invariants none
        no_unwind
    {
        store_relaxed(&self.flag, true);
        self.cancelled = true;
        proof {
            self.triggers@ = self.triggers@ + 1;
        }
    }

    /// A guard on this token's flag that triggers cancellation when it is
    /// dropped, unless it was disarmed before.
    pub fn drop_guard(&self) -> (guard: TokenDropGuard)
        ensures
            guard@ == GuardView::armed(self@),
            guard.handle().same_flag(self),
    {
        TokenDropGuard::new(self.clone())
    }

    /// Sets the flag and hands back the signal with which the caller gives up
    /// its own operation: stop everyone, and stop myself.
    pub fn cancel_and_panic(&mut self) -> (signal: CancelSignal)
        ensures
            final(self)@ == old(self)@.cancel(),
            final(self).same_flag(old(self)),
    {
        self.cancel();
        CancelSignal {  }
    }
}

impl Clone for CancellationToken {
    /// A second token on the same flag, which knows what this one knows.
    fn clone(&self) -> (token: Self)
        ensures
            token@ == self@,
            token.same_flag(self),
    {
        CancellationToken {
            flag: share(&self.flag),
            cancelled: self.cancelled,
            triggers: self.triggers,
        }
    }
}

impl Default for CancellationToken {
    fn default() -> (token: Self)
        ensures
            token@ == TokenView::fresh(),
    {
        CancellationToken::new()
    }
}

/// What a scope guard will do when it is dropped.
pub struct GuardView {
    /// The guard has not been disarmed.
    pub armed: bool,
    /// The token through which the guard triggers cancellation.
    pub token: TokenView,
}

impl GuardView {
    /// A guard as it is made: armed.
    pub open spec fn armed(token: TokenView) -> GuardView {
        GuardView { armed: true, token }
    }

    /// The guard after it was disarmed.
    pub open spec fn disarm(self) -> GuardView {
        GuardView { armed: false, token: self.token }
    }

    /// The guard's token once the guard has been dropped.
    pub open spec fn release(self) -> TokenView {
        if self.armed {
            self.token.cancel()
        } else {
            self.token
        }
    }
}

/// Triggers cancellation when it goes out of scope, on every path out of the
/// scope, unless [`TokenDropGuard::disarm`] was called. The marker keeps the
/// guard on the thread that made it: it can neither be sent to another thread
/// nor shared with one.
pub struct TokenDropGuard {
    flag: bool,
    token: CancellationToken,
    _marker: PhantomData<Rc<()>>,
}

impl View for TokenDropGuard {
    type V = GuardView;

    closed spec fn view(&self) -> GuardView {
        GuardView { armed: self.flag, token: self.token@ }
    }
}

impl TokenDropGuard {
    /// The token that the guard holds.
    pub closed spec fn handle(&self) -> CancellationToken {
        self.token
    }

    /// Begins a guarded scope.
    pub fn new(token: CancellationToken) -> (guard: Self)
        ensures
            guard@ == GuardView::armed(token@),
            guard.handle() == token,
    {
        TokenDropGuard { flag: true, token, _marker: PhantomData }
    }

    /// The same guard, disarmed: it holds the token that it held and triggers
    /// nothing when it is dropped.
    pub fn disarmed(self) -> (guard: TokenDropGuard)
        ensures
            guard@ == self@.disarm(),
            guard.handle() == self.handle(),
    {
        let mut guard = self;
        guard.flag = false;
        guard
    }

    /// Ends the guarded scope in good order. The guard is consumed: it is
    /// disarmed and then dropped here, and a guard that is dropped disarmed
    /// leaves its token as it was.
    pub fn disarm(self) {
        let _ = self.disarmed();
    }
}

impl Drop for TokenDropGuard {
    fn drop(&mut self)
        ensures
            final(self)@.token == old(self)@.release(),
            final(self).handle().same_flag(&old(self).handle()),
        opens_invariants none
        no_unwind
    {
        if self.flag {
            self.token.cancel();
        }
    }
}

/// One flag together with the tokens on it, one token for each thread, say.
pub struct FamilyView {
    /// The flag itself.
    pub flag: bool,
    /// What each token knows.
    pub tokens: Seq<TokenView>,
}

/// One call through a token of a family, as it takes effect on the flag.
pub enum FlagOp {
    /// `cancel` through the token with this index.
    Cancel(int),
    /// A poll through the token with this index in which the flag read as the
    /// second field. A load may lag behind the flag, but never runs ahead of it.
    Poll(int, bool),
}

impl FamilyView {
    /// `token` is the index of a token of the family.
    pub open spec fn holds(self, token: int) -> bool {
        0 <= token < self.tokens.len()
    }

    /// No token knows of a cancellation that did not happen.
    pub open spec fn consistent(self) -> bool {
        forall|t: int| self.holds(t) && (#[trigger] self.tokens[t]).cancelled ==> self.flag
    }

    /// The family admits the call: the token is one of its own, and a poll has
    /// not read what was never written.
    pub open spec fn admits(self, op: FlagOp) -> bool {
        match op {
            FlagOp::Cancel(t) => self.holds(t),
            FlagOp::Poll(t, loaded) => self.holds(t) && (loaded ==> self.flag),
        }
    }

    /// The family after one call.
    pub open spec fn step(self, op: FlagOp) -> FamilyView {
        match op {
            FlagOp::Cancel(t) => FamilyView {
                flag: true,
                tokens: self.tokens.update(t, self.tokens[t].cancel()),
            },
            FlagOp::Poll(t, loaded) => FamilyView {
                flag: self.flag,
                tokens: self.tokens.update(t, self.tokens[t].poll(loaded)),
            },
        }
    }

    /// The family after the first `n` of the calls `ops`, in the order in which
    /// they took effect.
    pub open spec fn after(self, ops: Seq<FlagOp>, n: int) -> FamilyView
        decreases n,
    {
        if n <= 0 {
            self
        } else {
            self.after(ops, n - 1).step(ops[n - 1])
        }
    }

    /// Every call of `ops` is admitted by the family that it finds.
    pub open spec fn admits_all(self, ops: Seq<FlagOp>) -> bool {
        forall|n: int| 0 <= n < ops.len() ==> #[trigger] self.after(ops, n).admits(ops[n])
    }

    /// What `is_cancelled` returns through `token` when its load is up to date.
    pub open spec fn polled(self, token: int) -> bool {
        self.tokens[token].poll(self.flag).cancelled
    }
}

/// Whatever the threads of a family do, and in whatever order their calls take
/// effect, the family keeps its tokens and stays consistent.
pub proof fn lemma_family_stays_consistent(family: FamilyView, ops: Seq<FlagOp>, n: int)
    requires
        family.consistent(),
        family.admits_all(ops),
        0 <= n <= ops.len(),
    ensures
        family.after(ops, n).tokens.len() == family.tokens.len(),
        family.after(ops, n).consistent(),
    decreases n,
{
    if n > 0 {
        lemma_family_stays_consistent(family, ops, n - 1);
        assert(family.after(ops, n - 1).admits(ops[n - 1]));
    }
}

/// Nothing goes back from set to unset: between any two moments of a run, the
/// flag stays set if it was set, a token that knew of the cancellation still
/// knows of it, and no count of triggers has gone down.
pub proof fn lemma_flag_never_reverts(family: FamilyView, ops: Seq<FlagOp>, m: int, n: int)
    requires
        family.consistent(),
        family.admits_all(ops),
        0 <= m <= n <= ops.len(),
    ensures
        family.after(ops, m).flag ==> family.after(ops, n).flag,
        forall|t: int|
            family.holds(t) && family.after(ops, m).tokens[t].cancelled
                ==> (#[trigger] family.after(ops, n).tokens[t]).cancelled,
        forall|t: int|
            family.holds(t) ==> family.after(ops, m).tokens[t].triggers
                <= (#[trigger] family.after(ops, n).tokens[t]).triggers,
    decreases n,
{
    if n > m {
        lemma_flag_never_reverts(family, ops, m, n - 1);
        lemma_family_stays_consistent(family, ops, n - 1);
        assert(family.after(ops, n - 1).admits(ops[n - 1]));
    }
}

/// Once a call of `cancel` has taken effect, the flag is set for good: the
/// token that made the call knows it from then on, and every poll whose load
/// is up to date returns `true`, through whichever token it is made. How many
/// threads cancel, and how often, makes no difference.
pub proof fn lemma_cancel_is_seen_from_then_on(
    family: FamilyView,
    ops: Seq<FlagOp>,
    k: int,
    n: int,
    token: int,
)
    requires
        family.consistent(),
        family.admits_all(ops),
        0 <= k < n <= ops.len(),
        ops[k] is Cancel,
        family.holds(token),
    ensures
        family.after(ops, n).flag,
        family.holds(ops[k]->Cancel_0),
        family.after(ops, n).tokens[ops[k]->Cancel_0].cancelled,
        family.after(ops, n).polled(token),
    decreases n,
{
    let before = family.after(ops, n - 1);
    lemma_family_stays_consistent(family, ops, k);
    lemma_family_stays_consistent(family, ops, n - 1);
    assert(family.after(ops, k).admits(ops[k]));
    assert(before.admits(ops[n - 1]));
    if n > k + 1 {
        lemma_cancel_is_seen_from_then_on(family, ops, k, n - 1, token);
    }
    assert(family.after(ops, n) == before.step(ops[n - 1]));
}

/// What `cancel`, `observe` and the polls ensure of the token that makes the
/// call is what the family's step gives for that token, and the step leaves
/// every other token of the family as it was.
pub proof fn lemma_calls_are_steps_of_the_family(
    family: FamilyView,
    token: int,
    other: int,
    loaded: bool,
)
    requires
        family.holds(token),
        family.holds(other),
        other != token,
    ensures
        family.step(FlagOp::Cancel(token)).tokens[token] == family.tokens[token].cancel(),
        family.step(FlagOp::Cancel(token)).tokens[other] == family.tokens[other],
        family.step(FlagOp::Poll(token, loaded)).tokens[token] == family.tokens[token].poll(
            loaded,
        ),
        family.step(FlagOp::Poll(token, loaded)).tokens[other] == family.tokens[other],
        family.step(FlagOp::Poll(token, loaded)).flag == family.flag,
{
}

/// Triggers collapse: two calls of `cancel` leave the flag as one call leaves
/// it, and the order in which two threads cancel cannot be told afterwards.
pub proof fn lemma_cancel_is_idempotent_and_commutes(family: FamilyView, a: int, b: int)
    requires
        family.holds(a),
        family.holds(b),
    ensures
        ({
            let once = family.step(FlagOp::Cancel(a));
            let twice = once.step(FlagOp::Cancel(b));
            let swapped = family.step(FlagOp::Cancel(b)).step(FlagOp::Cancel(a));
            &&& once.flag
            &&& twice.flag == once.flag
            &&& forall|t: int| family.holds(t) ==> twice.polled(t) == once.polled(t)
            &&& twice == swapped
        }),
{
    let twice = family.step(FlagOp::Cancel(a)).step(FlagOp::Cancel(b));
    let swapped = family.step(FlagOp::Cancel(b)).step(FlagOp::Cancel(a));
    assert(twice.tokens =~= swapped.tokens);
}

/// A token that knows of the cancellation keeps knowing it: neither a poll that
/// reads a stale flag nor a further trigger takes the knowledge away.
pub proof fn lemma_token_stays_cancelled(token: TokenView, loaded: bool)
    ensures
        token.cancel().cancelled,
        token.cancel().poll(loaded).cancelled,
        token.cancel().cancel().cancelled,
        token.cancelled ==> token.poll(loaded).cancelled,
        token.poll(loaded).poll(loaded) == token.poll(loaded),
{
}

/// A guard that was disarmed triggers nothing when it is dropped, however it
/// was armed before. A guard that is dropped while armed, on whichever path its
/// scope is left, triggers cancellation exactly once.
pub proof fn lemma_guard_triggers_once_unless_disarmed(guard: GuardView)
    ensures
        guard.disarm().release() == guard.token,
        GuardView::armed(guard.token).release().cancelled,
        GuardView::armed(guard.token).release().triggers == guard.token.triggers + 1,
        guard.armed ==> guard.release() == guard.token.cancel(),
        !guard.armed ==> guard.release() == guard.token,
{
}

} // verus!
