//! Options that govern how a request is executed.

use vstd::prelude::*;

verus! {

#[derive(Debug, Clone, Copy, PartialEq, Eq, Structural)]
pub struct RequestSettings {
    pub use_config_proxy: bool,
    pub allow_redirects: bool,
    pub store_received_cookies: bool,
    pub pretty_print_response_content: bool,
}

impl Default for RequestSettings {
    /// Every option is switched on.
    fn default() -> (settings: RequestSettings)
        ensures
            settings == (RequestSettings {
                use_config_proxy: true,
                allow_redirects: true,
                store_received_cookies: true,
                pretty_print_response_content: true,
            }),
    {
        RequestSettings {
            use_config_proxy: true,
            allow_redirects: true,
            store_received_cookies: true,
            pretty_print_response_content: true,
        }
    }
}

} // verus!
