//! The environment in use, and the templating of text with it.

use crate::app::app::{App, AppView};
use crate::request::environment::{
    highlight_spans,
    plain_segment,
    segments_from,
    segments_view,
    substitute,
    Environment,
    TextSegment,
};
use crate::utils::shared::read_with;
use parking_lot::RwLock;
use std::sync::Arc;
use vstd::prelude::*;
use vstd::string::*;

verus! {

impl AppView {
    /// Whether an environment is in use: the index of the selected
    /// environment points at one.
    pub open spec fn has_environment(self) -> bool {
        self.selected_environment < self.environments.len()
    }

    /// The index of the environment that follows the one in use; the first
    /// follows the last.
    pub open spec fn next_environment_index(self) -> usize {
        if self.selected_environment + 1 < self.environments.len() {
            (self.selected_environment + 1) as usize
        } else {
            0
        }
    }
}

/// Whether `wanted` occurs in `text`.
fn contains_char(text: &str, wanted: char) -> (found: bool)
    ensures
        found == text@.contains(wanted),
{
    for c in it: text.chars()
        invariant
            it.seq() == text@,
            !text@.take(it.index() as int).contains(wanted),
    {
        if c == wanted {
            return true;
        }
    }
    proof {
        assert(text@.take(text@.len() as int) =~= text@);
    }
    false
}

impl App {
    /// The environment in use, as the shared value that it is.
    pub fn get_selected_env_as_local(&self) -> (environment: Option<Arc<RwLock<Environment>>>)
        ensures
            environment == if self@.has_environment() {
                Some(self@.environments[self@.selected_environment as int])
            } else {
                None
            },
    {
        if self.selected_environment < self.environments.len() {
            Some(self.environments[self.selected_environment].clone())
        } else {
            None
        }
    }

    /// Takes the next environment into use; after the last comes the first.
    pub fn next_environment(&mut self)
        ensures
            final(self)@ == (AppView {
                selected_environment: old(self)@.next_environment_index(),
                ..old(self)@
            }),
    {
        let count = self.environments.len();
        if self.selected_environment < count && self.selected_environment + 1 < count {
            self.selected_environment += 1;
        } else {
            self.selected_environment = 0;
        }
    }

    /// `input` with every placeholder of a key of the environment in use
    /// replaced by its value, as the environment is at this moment. Without an
    /// environment in use, `input` as it is.
    pub fn replace_env_keys_by_value(&self, input: &String) -> (output: String)
        ensures
            !self@.has_environment() ==> output@ == input@,
            self@.has_environment() ==> exists|environment: &Environment|
                output@ == substitute(input@, environment@.values),
    {
        if self.environments.is_empty() {
            return input.clone();
        }
        let local_env = self.get_selected_env_as_local();

        match local_env {
            Some(local_env) => {
                let replace = |env: &Environment| -> (output: String)
                    ensures output@ == substitute(input@, env@.values)
                { env.substitute(input.as_str()) };
                read_with(&local_env, replace)
            },
            None => input.clone(),
        }
    }

    /// `input` cut into segments, with the placeholders of the keys of the
    /// environment in use marked as known, as the environment is at this
    /// moment. Without an environment in use, and for a text without an
    /// opening brace, `input` as one segment that is not marked.
    pub fn add_color_to_env_keys(&self, input: &str) -> (segments: Vec<TextSegment>)
        ensures
            !self@.has_environment() || !input@.contains('{') ==> segments_view(segments@)
                == plain_segment(input@),
            self@.has_environment() && input@.contains('{') ==> exists|environment: &Environment|
                segments_view(segments@) == segments_from(
                    input@,
                    highlight_spans(input@, environment@.values),
                    0,
                ),
    {
        if self.environments.is_empty() || !contains_char(input, '{') {
            return plain(input);
        }
        let local_env = self.get_selected_env_as_local();

        match local_env {
            Some(local_env) => {
                let highlight = |env: &Environment| -> (segments: Vec<TextSegment>)
                    ensures
                        segments_view(segments@) == segments_from(
                            input@,
                            highlight_spans(input@, env@.values),
                            0,
                        )
                { env.highlight(input) };
                read_with(&local_env, highlight)
            },
            None => plain(input),
        }
    }
}

/// `input` as one segment that is not marked.
fn plain(input: &str) -> (segments: Vec<TextSegment>)
    ensures
        segments_view(segments@) == plain_segment(input@),
{
    let mut segments: Vec<TextSegment> = Vec::new();
    segments.push(TextSegment { text: input.to_string(), known: false });
    segments
}

} // verus!
