use gse::error::HookError;

#[test]
fn test_error_display() {
    let error = HookError::HookInstallation("SetWindowsHookExW failed with code 5".to_string());
    assert_eq!(
        error.to_string(),
        "Hook installation failed: SetWindowsHookExW failed with code 5"
    );
}

#[test]
fn test_sync_poisoned_display() {
    let error = HookError::SyncPoisoned("BACKSPACE_TIMES mutex poisoned".to_string());
    assert!(error.to_string().contains("Synchronization primitive poisoned"));
}

#[test]
fn test_error_clone() {
    let error = HookError::Configuration("Invalid state threshold".to_string());
    let cloned = error.clone();
    assert_eq!(error.to_string(), cloned.to_string());
}

#[test]
fn every_error_kind_has_its_prefix() {
    let m = || "x".to_string();
    assert_eq!(HookError::WindowCreation(m()).to_string(), "Window creation failed: x");
    assert_eq!(HookError::SyncPoisoned(m()).to_string(), "Synchronization primitive poisoned: x");
    assert_eq!(HookError::QueueOperation(m()).to_string(), "Queue operation failed: x");
    assert_eq!(HookError::WindowsApiError(m()).to_string(), "Windows API error: x");
    assert_eq!(HookError::Configuration(m()).to_string(), "Configuration error: x");
    assert_eq!(HookError::InternalError(m()).to_string(), "Internal error: x");
    assert_eq!(HookError::InternalError(String::new()).to_string(), "Internal error: ");
}
