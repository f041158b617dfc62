//! Interaction responses.
//!
//! A command execution yields a response payload; posting it belongs to
//! the outbound platform client that owns the connection, outside this
//! library.

use vstd::prelude::*;

verus! {

/// How a response is to be rendered by the platform.
#[derive(Clone, Copy, Debug, PartialEq, Eq, Structural)]
pub enum InteractionResponseType {
    ChannelMessageWithSource,
}

/// A response payload to an interaction: its render kind and an optional
/// message body.
#[derive(Debug, PartialEq, Eq)]
pub struct InteractionResponse {
    pub kind: InteractionResponseType,
    pub content: Option<String>,
}

/// Mathematical model of a response payload.
pub struct InteractionResponseModel {
    pub kind: InteractionResponseType,
    pub content: Option<Seq<char>>,
}

impl View for InteractionResponse {
    type V = InteractionResponseModel;

    open spec fn view(&self) -> InteractionResponseModel {
        InteractionResponseModel {
            kind: self.kind,
            content: match &self.content {
                Some(c) => Some(c@),
                None => None,
            },
        }
    }
}

impl Clone for InteractionResponse {
    fn clone(&self) -> (res: Self)
        ensures
            res@ == self@,
    {
        InteractionResponse {
            kind: self.kind,
            content: match &self.content {
                Some(c) => Some(c.clone()),
                None => None,
            },
        }
    }
}

} // verus!
