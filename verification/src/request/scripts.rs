//! The scripts that run before and after a request.

use crate::utils::text::{clone_optional_text, optional_text};
use vstd::prelude::*;

verus! {

#[derive(Debug, PartialEq, Eq)]
pub struct RequestScripts {
    pub pre_request_script: Option<String>,
    pub post_request_script: Option<String>,
}

/// What a [`RequestScripts`] holds, as plain text.
pub struct RequestScriptsView {
    pub pre_request_script: Option<Seq<char>>,
    pub post_request_script: Option<Seq<char>>,
}

impl View for RequestScripts {
    type V = RequestScriptsView;

    open spec fn view(&self) -> RequestScriptsView {
        RequestScriptsView {
            pre_request_script: optional_text(self.pre_request_script),
            post_request_script: optional_text(self.post_request_script),
        }
    }
}

impl Default for RequestScripts {
    fn default() -> (scripts: RequestScripts)
        ensures
            scripts@ == (RequestScriptsView {
                pre_request_script: None,
                post_request_script: None,
            }),
    {
        RequestScripts { pre_request_script: None, post_request_script: None }
    }
}

impl Clone for RequestScripts {
    fn clone(&self) -> (copy: RequestScripts)
        ensures
            copy@ == self@,
    {
        RequestScripts {
            pre_request_script: clone_optional_text(&self.pre_request_script),
            post_request_script: clone_optional_text(&self.post_request_script),
        }
    }
}

} // verus!
