//! Request and response shapes for the model completion service, together
//! with the verified parts of assembling a request and reading an answer.

use vstd::prelude::*;

verus! {

/// One chat message handed to the completion service.
#[derive(Debug, PartialEq)]
pub struct Message {
    pub role: String,
    pub content: String,
}

impl Clone for Message {
    fn clone(&self) -> (res: Self)
        ensures
            res == *self,
    {
        Message { role: self.role.clone(), content: self.content.clone() }
    }
}

/// The full request body: a model name and the ordered message list.
#[derive(Debug, PartialEq)]
pub struct ChatCompletion {
    pub model: String,
    pub messages: Vec<Message>,
}

/// The message part of one choice in the service's answer.
#[derive(Debug, PartialEq)]
pub struct ApiMessage {
    pub content: String,
}

impl Clone for ApiMessage {
    fn clone(&self) -> (res: Self)
        ensures
            res == *self,
    {
        ApiMessage { content: self.content.clone() }
    }
}

/// The decoded body of the service's answer.
#[derive(Debug, PartialEq)]
pub struct APIResponse {
    pub choices: Vec<ApiChoice>,
}

/// One choice in the service's answer.
#[derive(Debug, PartialEq)]
pub struct ApiChoice {
    pub message: ApiMessage,
}

impl Clone for ApiChoice {
    fn clone(&self) -> (res: Self)
        ensures
            res == *self,
    {
        ApiChoice { message: self.message.clone() }
    }
}

/// The model every request is sent to.
pub open spec fn completion_model_name() -> Seq<char> {
    "gpt-4"@
}

/// Builds the request body for one round trip to the completion service.
pub fn build_chat_completion(messages: Vec<Message>) -> (r: ChatCompletion)
    ensures
        r.model@ == completion_model_name(),
        r.messages == messages,
{
    ChatCompletion { model: String::from_str("gpt-4"), messages }
}

/// Extracts the completion text from an answer: the content of the first
/// choice, or `None` when the service returned no choices at all.
pub fn first_choice_content(res: &APIResponse) -> (r: Option<String>)
    ensures
        match r {
            Some(text) => res.choices@.len() > 0 && text == res.choices@[0].message.content,
            None => res.choices@.len() == 0,
        },
{
    if res.choices.len() > 0 {
        Some(res.choices[0].message.content.clone())
    } else {
        None
    }
}

} // verus!
