//! The tabs under which the outcome of an execution is shown.

use vstd::prelude::*;

verus! {

#[derive(Debug, Clone, Copy, PartialEq, Eq, Structural)]
pub enum RequestResultTabs {
    Body,
    Cookies,
    Headers,
    Console,
}

impl Default for RequestResultTabs {
    fn default() -> (tab: RequestResultTabs)
        ensures
            tab == RequestResultTabs::Body,
    {
        RequestResultTabs::Body
    }
}

} // verus!
