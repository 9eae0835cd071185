//! The clipboard policy for copied secrets: whether a copy is cleared
//! after the configured timeout, and how long a one-shot command must stay
//! alive for that to happen. The system clipboard is driven outside this
//! library.

use vstd::prelude::*;
use crate::config::ClipboardConfig;

verus! {

/// How a secret is put on the clipboard.
#[derive(Debug, Clone, Copy, PartialEq, Eq, Structural)]
pub enum CopyMode {
    /// Copied, and cleared again after this many seconds.
    AutoClear { after_secs: u64 },
    /// Copied, and left there.
    Persistent,
}

/// How a secret is copied under a clipboard configuration: cleared after
/// the timeout when auto-clear is on, else left in place.
pub fn secret_copy_mode(config: &ClipboardConfig) -> (r: CopyMode)
    ensures
        config.auto_clear ==> (r == (CopyMode::AutoClear { after_secs: config.clear_timeout_secs as u64 })),
        !config.auto_clear ==> (r == CopyMode::Persistent),
{
    if config.auto_clear {
        CopyMode::AutoClear { after_secs: config.clear_timeout_secs as u64 }
    } else {
        CopyMode::Persistent
    }
}

/// How long a one-shot command waits after copying so that the scheduled
/// clear runs: one second past the timeout when auto-clear is on, else not
/// at all.
pub fn linger_secs(config: &ClipboardConfig) -> (r: Option<u64>)
    ensures
        config.auto_clear ==> (r == Some((config.clear_timeout_secs + 1) as u64)),
        !config.auto_clear ==> (r is None),
{
    if config.auto_clear {
        Some(config.clear_timeout_secs as u64 + 1)
    } else {
        None
    }
}

} // verus!
