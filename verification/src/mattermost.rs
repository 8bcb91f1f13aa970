//! The webhook payload a rendered menu is wrapped into: a text field and a
//! response-type field.
use vstd::prelude::*;

use crate::Markdown;

verus! {

/// Where the chat integration shows the response: to the whole channel, or
/// only to the requesting user.
#[derive(Clone, Copy, Debug, PartialEq, Eq, Structural)]
pub enum MattermostResponseType {
    InChannel,
    Ephemeral,
}

/// The two-field payload returned to the chat integration.
pub struct MattermostCommandResponse {
    pub text: String,
    pub response_type: MattermostResponseType,
}

impl MattermostCommandResponse {
    /// Wrap a document as a response shown to the whole channel.
    pub fn in_channel(markdown: Markdown) -> (r: Self)
        ensures
            r.text@ == markdown.0@,
            r.response_type == MattermostResponseType::InChannel,
    {
        Self { text: markdown.0, response_type: MattermostResponseType::InChannel }
    }

    /// Wrap a document as a response shown only to the requesting user.
    pub fn ephemeral(markdown: Markdown) -> (r: Self)
        ensures
            r.text@ == markdown.0@,
            r.response_type == MattermostResponseType::Ephemeral,
    {
        Self { text: markdown.0, response_type: MattermostResponseType::Ephemeral }
    }
}

} // verus!
