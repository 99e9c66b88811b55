//! What the scripts of the last execution printed.

use crate::utils::shared::share;
use parking_lot::RwLock;
use std::sync::Arc;
use vstd::prelude::*;

verus! {

#[derive(Debug)]
pub struct ScriptConsole {
    /// The output, shared with the execution that writes it.
    pub console_output: Arc<RwLock<Option<String>>>,
}

impl Default for ScriptConsole {
    fn default() -> ScriptConsole {
        ScriptConsole { console_output: share(None) }
    }
}

} // verus!
