//! The tabs under which the parts of a request are edited.

use vstd::prelude::*;

verus! {

#[derive(Debug, Clone, Copy, PartialEq, Eq, Structural)]
pub enum RequestParamsTabs {
    QueryParams,
    Auth,
    Headers,
    Body,
    Scripts,
}

impl Default for RequestParamsTabs {
    fn default() -> (tab: RequestParamsTabs)
        ensures
            tab == RequestParamsTabs::QueryParams,
    {
        RequestParamsTabs::QueryParams
    }
}

} // verus!
