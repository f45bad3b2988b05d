//! What goes to a model and what comes back.

use vstd::prelude::*;

use crate::events::TokenUsage;
use crate::ids::ModelCallId;

verus! {

#[derive(Clone, Copy, Debug, PartialEq, Eq, Structural)]
pub enum ModelRole {
    System,
    User,
    Assistant,
}

/// One message of a conversation. Its text is not for logs.
pub struct ModelMessage {
    pub role: ModelRole,
    pub content: String,
}

impl ModelMessage {
    pub fn new(role: ModelRole, content: String) -> (r: Self)
        ensures
            r == (ModelMessage { role, content }),
    {
        ModelMessage { role, content }
    }

    pub fn role(&self) -> (r: ModelRole)
        ensures
            r == self.role,
    {
        self.role
    }

    pub fn content(&self) -> (r: &str)
        ensures
            r@ == self.content@,
    {
        self.content.as_str()
    }
}

pub struct ModelRequest {
    pub messages: Vec<ModelMessage>,
}

impl ModelRequest {
    pub fn new(messages: Vec<ModelMessage>) -> (r: Self)
        ensures
            r == (ModelRequest { messages }),
    {
        ModelRequest { messages }
    }

    pub fn messages(&self) -> (r: &Vec<ModelMessage>)
        ensures
            *r == self.messages,
    {
        &self.messages
    }
}

pub enum ModelOutputPart {
    Text(String),
}

impl ModelOutputPart {
    pub open spec fn text(self) -> Seq<char> {
        match self {
            ModelOutputPart::Text(text) => text@,
        }
    }
}

pub struct ModelResponse {
    pub output: Vec<ModelOutputPart>,
    pub token_usage: Option<TokenUsage>,
}

impl ModelResponse {
    pub fn new(output: Vec<ModelOutputPart>, token_usage: Option<TokenUsage>) -> (r: Self)
        ensures
            r == (ModelResponse { output, token_usage }),
    {
        ModelResponse { output, token_usage }
    }

    pub fn output(&self) -> (r: &Vec<ModelOutputPart>)
        ensures
            *r == self.output,
    {
        &self.output
    }

    pub fn token_usage(&self) -> (r: Option<TokenUsage>)
        ensures
            r == self.token_usage,
    {
        self.token_usage
    }
}

/// A response with the call that it answers.
pub struct CompletedModelInvocation {
    pub model_call_id: ModelCallId,
    pub response: ModelResponse,
}

impl CompletedModelInvocation {
    pub fn new(model_call_id: ModelCallId, response: ModelResponse) -> (r: Self)
        ensures
            r == (CompletedModelInvocation { model_call_id, response }),
    {
        CompletedModelInvocation { model_call_id, response }
    }

    pub fn into_parts(self) -> (r: (ModelCallId, ModelResponse))
        ensures
            r == (self.model_call_id, self.response),
    {
        (self.model_call_id, self.response)
    }

    pub fn into_response(self) -> (r: ModelResponse)
        ensures
            r == self.response,
    {
        self.response
    }
}

} // verus!
