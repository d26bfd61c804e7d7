//! The one call to the account service that may be under way at a time.
use vstd::prelude::*;

verus! {

/// A call to the account service. `L`, `K` and `V` are the pending calls
/// themselves, `T` is where the outcome of a login is sent.
pub enum Call<L, T, K, V> {
    Login(L, Option<T>),
    TimerKeyRotation(K),
    OneshotKeyRotation(K),
    Validation(V),
}

/// The kind of a call.
#[derive(Clone, Copy, Debug, PartialEq, Eq, Structural)]
pub enum CallKind {
    Login,
    TimerKeyRotation,
    OneshotKeyRotation,
    Validation,
}

impl<L, T, K, V> Call<L, T, K, V> {
    /// The kind of the call.
    pub open spec fn kind(self) -> CallKind {
        match self {
            Call::Login(..) => CallKind::Login,
            Call::TimerKeyRotation(_) => CallKind::TimerKeyRotation,
            Call::OneshotKeyRotation(_) => CallKind::OneshotKeyRotation,
            Call::Validation(_) => CallKind::Validation,
        }
    }
}

/// The call that is under way, if any.
pub struct CurrentApiCall<L, T, K, V> {
    pub current_call: Option<Call<L, T, K, V>>,
}

impl<L, T, K, V> CurrentApiCall<L, T, K, V> {
    /// The kind of the call under way.
    pub open spec fn kind(self) -> Option<CallKind> {
        match self.current_call {
            Some(call) => Some(call.kind()),
            None => None,
        }
    }

    /// No call is under way.
    pub fn new() -> (calls: Self)
        ensures
            calls.current_call is None,
    {
        Self { current_call: None }
    }

    /// Forgets the call under way.
    pub fn clear(&mut self)
        ensures
            final(self).current_call is None,
    {
        self.current_call = None;
    }

    /// Puts a login under way, with the place to send its outcome to.
    pub fn set_login(&mut self, login: L, tx: T)
        ensures
            final(self).current_call == Some(Call::<L, T, K, V>::Login(login, Some(tx))),
    {
        self.current_call = Some(Call::Login(login, Some(tx)));
    }

    /// Puts a key rotation under way that was asked for.
    pub fn set_oneshot_rotation(&mut self, rotation: K)
        ensures
            final(self).current_call == Some(Call::<L, T, K, V>::OneshotKeyRotation(rotation)),
    {
        self.current_call = Some(Call::OneshotKeyRotation(rotation));
    }

    /// Puts a key rotation under way that was due.
    pub fn set_timed_rotation(&mut self, rotation: K)
        ensures
            final(self).current_call == Some(Call::<L, T, K, V>::TimerKeyRotation(rotation)),
    {
        self.current_call = Some(Call::TimerKeyRotation(rotation));
    }

    /// Puts a validation of the device under way.
    pub fn set_validation(&mut self, validation: V)
        ensures
            final(self).current_call == Some(Call::<L, T, K, V>::Validation(validation)),
    {
        self.current_call = Some(Call::Validation(validation));
    }

    /// Whether the device is being validated: by a validation, or by a key
    /// rotation that was asked for.
    pub fn is_validating(&self) -> (validating: bool)
        ensures
            validating == (self.kind() == Some(CallKind::Validation) || self.kind() == Some(
                CallKind::OneshotKeyRotation,
            )),
    {
        match &self.current_call {
            Some(Call::Validation(_)) | Some(Call::OneshotKeyRotation(_)) => true,
            _ => false,
        }
    }

    /// Whether a key rotation is under way that was due.
    pub fn is_running_timed_totation(&self) -> (rotating: bool)
        ensures
            rotating == (self.kind() == Some(CallKind::TimerKeyRotation)),
    {
        match &self.current_call {
            Some(Call::TimerKeyRotation(_)) => true,
            _ => false,
        }
    }

    /// Whether no call is under way.
    pub fn is_idle(&self) -> (idle: bool)
        ensures
            idle == self.current_call is None,
    {
        self.current_call.is_none()
    }

    /// Whether a login is under way.
    pub fn is_logging_in(&self) -> (logging_in: bool)
        ensures
            logging_in == (self.kind() == Some(CallKind::Login)),
    {
        match &self.current_call {
            Some(Call::Login(..)) => true,
            _ => false,
        }
    }

    /// Whether the call under way has come to its end for good: there is
    /// none.
    pub fn is_terminated(&self) -> (terminated: bool)
        ensures
            terminated == self.current_call is None,
    {
        self.current_call.is_none()
    }

    /// Takes note of a poll of the call under way: once the call is
    /// ready, none is under way any more.
    pub fn poll(&mut self, ready: bool)
        requires
            old(self).current_call is Some,
        ensures
            final(self).current_call == if ready {
                None
            } else {
                old(self).current_call
            },
    {
        if ready {
            self.current_call = None;
        }
    }
}

} // verus!
