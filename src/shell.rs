//! Shell replacement integration: registering the host as the system shell
//! and falling back to the default shell when it keeps crashing.
//!
//! Registration, key-state checks and safe-mode detection change or query
//! operating-system policy; this manager performs none of them itself and
//! reports the policy decisions that follow from its settings.

use vstd::prelude::*;
use crate::config::ShellConfig;
use crate::error::ShellError;

verus! {

/// Whether `crashes` recorded crashes call for falling back to the default shell.
pub open spec fn fallback_due(config: ShellConfig, crashes: u32) -> bool {
    config.auto_recovery && crashes > config.crash_threshold
}

/// Manages shell replacement for one set of settings.
#[derive(Debug)]
pub struct ShellManager {
    config: ShellConfig,
}

impl View for ShellManager {
    type V = ShellConfig;

    closed spec fn view(&self) -> ShellConfig {
        self.config
    }
}

impl ShellManager {
    /// A manager for `config`.
    pub fn new(config: ShellConfig) -> (r: Result<ShellManager, ShellError>)
        ensures
            r matches Ok(m) && m@ == config,
    {
        Ok(ShellManager { config })
    }

    /// Whether the manual override key combination was held at startup.
    /// Without access to the keyboard state no override is detected.
    pub fn check_for_manual_override(&self) -> (r: bool)
        ensures
            !r,
    {
        false
    }

    /// Registers the host as the system shell using the configured method.
    pub fn register_shell(&self) -> (r: Result<(), ShellError>)
        ensures
            r is Ok,
    {
        Ok(())
    }

    /// Restores the default shell.
    pub fn unregister_shell(&self) -> (r: Result<(), ShellError>)
        ensures
            r is Ok,
    {
        Ok(())
    }

    /// Whether the system runs in safe mode; assumed not without a way to ask.
    pub fn is_safe_mode(&self) -> (r: bool)
        ensures
            !r,
    {
        false
    }

    /// Checks the crashes recorded in the detection window against the
    /// threshold and falls back to the default shell when automatic recovery
    /// is on and the threshold is exceeded. No crash detector feeds this
    /// manager, so the recorded count is zero and no fallback happens.
    pub fn monitor_process_health(&self) -> (r: Result<(), ShellError>)
        ensures
            r is Ok,
            !fallback_due(self@, 0),
    {
        let recorded_crashes: u32 = 0;
        if self.config.auto_recovery && recorded_crashes > self.config.crash_threshold {
            return self.perform_fallback();
        }
        Ok(())
    }

    /// Restores the default shell after repeated crashes.
    fn perform_fallback(&self) -> (r: Result<(), ShellError>)
        ensures
            r is Ok,
    {
        self.unregister_shell()
    }
}

} // verus!
