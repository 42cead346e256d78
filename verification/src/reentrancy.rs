use vstd::prelude::*;

use crate::env::{Env, EnvView, GuardKey};
use crate::errors::KoraError;

verus! {

/// Whether the reentrancy lock is held.
pub open spec fn locked(env: EnvView) -> bool {
    env.lock is Some
}

/// Accepts the call while the lock is free.
pub open spec fn acquire_result(env: EnvView) -> Result<(), KoraError> {
    if locked(env) {
        Err(KoraError::Reentrancy)
    } else {
        Ok(())
    }
}

/// The lock is taken if it is free; a lock that is held stays as it is.
pub open spec fn acquire_env(env: EnvView) -> EnvView {
    if locked(env) {
        env
    } else {
        EnvView { lock: Some(true), ..env }
    }
}

/// The lock is free afterwards, whether it was held or not.
pub open spec fn release_env(env: EnvView) -> EnvView {
    EnvView { lock: None, ..env }
}

/// The end of a transaction clears the lock, and keeps all the rest.
pub open spec fn end_transaction_env(env: EnvView) -> EnvView {
    EnvView { lock: None, ..env }
}

/// Acquires the reentrancy lock. Refused with [`KoraError::Reentrancy`] while the lock is held.
pub fn acquire_guard(env: &mut Env) -> (result: Result<(), KoraError>)
    ensures
        result == acquire_result(old(env)@),
        final(env)@ == acquire_env(old(env)@),
{
    if env.has_guard(&GuardKey::Lock) {
        return Err(KoraError::Reentrancy);
    }
    env.put_guard(&GuardKey::Lock, true);
    Ok(())
}

/// Releases the reentrancy lock. Does nothing if the lock is free.
///
/// Has to be called on every exit path of a protected function;
/// [`ReentrancyGuard::protect`] sees to that.
pub fn release_guard(env: &mut Env)
    ensures
        final(env)@ == release_env(old(env)@),
    opens_invariants none
    no_unwind
{
    env.remove_guard(&GuardKey::Lock);
}

/// Ends a transaction: a lock that was left held is cleared, so that it does not bleed into the
/// next one. Whoever runs a transaction calls this last.
pub fn end_transaction(env: &mut Env)
    ensures
        final(env)@ == end_transaction_env(old(env)@),
{
    env.remove_guard(&GuardKey::Lock);
}

/// Returns `true` while the reentrancy lock is held.
pub fn is_locked(env: &Env) -> (held: bool)
    ensures
        held == locked(env@),
        held == (env.lock is Some),
{
    env.has_guard(&GuardKey::Lock)
}

/// Stands for a lock that was taken. Only [`ReentrancyGuard::new`] makes one.
pub struct Taken {
    seal: (),
}

/// Holds the reentrancy lock while it lives: takes it on construction and gives it back when it is
/// dropped, also on an early return. Until then the environment is reached through the guard.
pub struct ReentrancyGuard<'a> {
    pub env: &'a mut Env,
    pub taken: Taken,
}

impl<'a> ReentrancyGuard<'a> {
    /// Acquires the lock. Refused with [`KoraError::Reentrancy`] while the lock is held.
    ///
    /// What the guard's environment is in the end is what the lender gets back.
    pub fn new(env: &'a mut Env) -> (result: Result<Self, KoraError>)
        ensures
            match result {
                Ok(guard) => {
                    &&& acquire_result(old(env)@) is Ok
                    &&& (*guard.env)@ == acquire_env(old(env)@)
                    &&& *final(guard.env) == *final(env)
                },
                Err(e) => {
                    &&& acquire_result(old(env)@) == Err::<(), KoraError>(e)
                    &&& final(env)@ == old(env)@
                },
            },
    {
        acquire_guard(env)?;
        Ok(ReentrancyGuard { env, taken: Taken { seal: () } })
    }

    /// Runs `body` under the lock and hands on what it returns. The lock is released afterwards,
    /// whether `body` succeeds or fails. While the lock is held elsewhere, `body` does not run
    /// and the answer is [`KoraError::Reentrancy`].
    pub fn protect<T, F: FnOnce(&mut Env) -> Result<T, KoraError>>(
        env: &mut Env,
        body: F,
    ) -> (result: Result<T, KoraError>)
        requires
            !locked(old(env)@) ==> forall|inner: &mut Env|
                (*inner)@ == acquire_env(old(env)@) ==> #[trigger] call_requires(body, (inner,)),
        ensures
            locked(old(env)@) ==> {
                &&& result == Err::<T, KoraError>(KoraError::Reentrancy)
                &&& final(env)@ == old(env)@
            },
            !locked(old(env)@) ==> {
                &&& !locked(final(env)@)
                &&& exists|inner: &mut Env|
                    {
                        &&& #[trigger] call_ensures(body, (inner,), result)
                        &&& (*inner)@ == acquire_env(old(env)@)
                        &&& final(env)@ == release_env(final(inner)@)
                    }
            },
    {
        acquire_guard(env)?;
        let result = body(&mut *env);
        release_guard(env);
        result
    }
}

impl<'a> Drop for ReentrancyGuard<'a> {
    /// Releases the lock and leaves the rest of the environment alone.
    fn drop(&mut self)
        ensures
            (*final(self).env)@ == release_env((*old(self).env)@),
            *final(final(self).env) == *final(old(self).env),
        opens_invariants none
        no_unwind
    {
        release_guard(&mut *self.env);
    }
}

} // verus!
