//! The contents of the events by which rooms hold calls.

use vstd::prelude::*;

verus! {

/// The payload for our call event.
#[derive(Debug)]
pub struct CallStateContent {
    /// Whether one talks only while a button is pressed.
    pub ptt: Option<bool>,
    /// What the call is for.
    pub intent: String,
    /// Whether the call is one of voice or of video.
    pub call_type: String,
    pub terminated: Option<bool>,
    pub name: Option<String>,
}

impl Clone for CallStateContent {
    fn clone(&self) -> (copy: Self)
        ensures
            copy == *self,
    {
        CallStateContent {
            ptt: self.ptt,
            intent: self.intent.clone(),
            call_type: self.call_type.clone(),
            terminated: self.terminated,
            name: match &self.name {
                Some(name) => Some(name.clone()),
                None => None,
            },
        }
    }
}

} // verus!
