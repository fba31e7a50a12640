//! Errors of the capture and display layers around the estimator.
use vstd::prelude::*;

verus! {

/// What can go wrong around the estimator, each with a detail message.
#[derive(Clone, Debug)]
pub enum HookError {
    /// Installing or removing the keyboard hook failed.
    HookInstallation(String),
    /// Creating or initializing a window failed.
    WindowCreation(String),
    /// A lock was found poisoned.
    SyncPoisoned(String),
    /// The event queue could not be used.
    QueueOperation(String),
    /// A platform call failed.
    WindowsApiError(String),
    /// Bad configuration.
    Configuration(String),
    /// An unexpected internal state.
    InternalError(String),
}

impl HookError {
    /// The prefix that names the kind of error.
    pub open spec fn prefix(self) -> Seq<char> {
        match self {
            HookError::HookInstallation(_) => "Hook installation failed: "@,
            HookError::WindowCreation(_) => "Window creation failed: "@,
            HookError::SyncPoisoned(_) => "Synchronization primitive poisoned: "@,
            HookError::QueueOperation(_) => "Queue operation failed: "@,
            HookError::WindowsApiError(_) => "Windows API error: "@,
            HookError::Configuration(_) => "Configuration error: "@,
            HookError::InternalError(_) => "Internal error: "@,
        }
    }

    /// The detail message.
    pub open spec fn detail(self) -> Seq<char> {
        match self {
            HookError::HookInstallation(m) => m@,
            HookError::WindowCreation(m) => m@,
            HookError::SyncPoisoned(m) => m@,
            HookError::QueueOperation(m) => m@,
            HookError::WindowsApiError(m) => m@,
            HookError::Configuration(m) => m@,
            HookError::InternalError(m) => m@,
        }
    }

    /// The message shown to a user: the kind's prefix followed by the detail.
    pub fn to_string(&self) -> (r: String)
        ensures
            r@ == self.prefix() + self.detail(),
    {
        let (prefix, detail) = match self {
            HookError::HookInstallation(m) => ("Hook installation failed: ", m),
            HookError::WindowCreation(m) => ("Window creation failed: ", m),
            HookError::SyncPoisoned(m) => ("Synchronization primitive poisoned: ", m),
            HookError::QueueOperation(m) => ("Queue operation failed: ", m),
            HookError::WindowsApiError(m) => ("Windows API error: ", m),
            HookError::Configuration(m) => ("Configuration error: ", m),
            HookError::InternalError(m) => ("Internal error: ", m),
        };
        let mut r = String::from_str(prefix);
        r.append(detail.as_str());
        r
    }
}

} // verus!
