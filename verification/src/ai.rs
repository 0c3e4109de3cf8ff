//! Chat inputs for Workers AI text-generation models.

use vstd::prelude::*;

use crate::error::Error;

verus! {

/// The role a chat message is sent under.
#[derive(Debug)]
pub enum Role {
    User,
    Assistant,
    System,
    Tool,
    Any(String),
}

impl Default for Role {
    fn default() -> (r: Self)
        ensures
            r is User,
    {
        Role::User
    }
}

/// One chat message, scoped to a role.
#[derive(Debug)]
pub struct RoleScopedChatInput {
    pub role: Role,
    pub content: String,
    pub name: Option<String>,
}

impl Default for RoleScopedChatInput {
    fn default() -> (r: Self)
        ensures
            r.role is User,
            r.content@ == Seq::<char>::empty(),
            r.name is None,
    {
        RoleScopedChatInput { role: Role::User, content: String::new(), name: None }
    }
}

/// Whether `m` is an unnamed message with role `role` and the given content.
pub open spec fn is_message(m: RoleScopedChatInput, role: Role, content: Seq<char>) -> bool {
    m.role == role && m.content@ == content && m.name is None
}

/// A message from the user.
pub fn user(content: &str) -> (m: RoleScopedChatInput)
    ensures
        is_message(m, Role::User, content@),
{
    RoleScopedChatInput { role: Role::User, content: content.to_owned(), name: None }
}

/// A message from the assistant.
pub fn assistant(content: &str) -> (m: RoleScopedChatInput)
    ensures
        is_message(m, Role::Assistant, content@),
{
    RoleScopedChatInput { role: Role::Assistant, content: content.to_owned(), name: None }
}

/// A system message.
pub fn system(content: &str) -> (m: RoleScopedChatInput)
    ensures
        is_message(m, Role::System, content@),
{
    RoleScopedChatInput { role: Role::System, content: content.to_owned(), name: None }
}

/// A message from a tool.
pub fn tool(content: &str) -> (m: RoleScopedChatInput)
    ensures
        is_message(m, Role::Tool, content@),
{
    RoleScopedChatInput { role: Role::Tool, content: content.to_owned(), name: None }
}

/// The Llama 4 Scout 17B 16E instruct text-generation model.
#[derive(Debug, Clone, Copy)]
pub struct Llama4Scout17b16eInstruct;

impl Llama4Scout17b16eInstruct {
    /// The model's name in the Workers AI catalogue.
    pub const MODEL_NAME: &'static str = "@cf/meta/llama-4-scout-17b-16e-instruct";
}

/// The outcome of a model run whose output should be binary: the stream when
/// the model returned one (`stream` holds it), else an error telling the caller
/// to read the output as a value instead.
pub fn binary_output<S>(stream: Option<S>) -> (r: Result<S, Error>)
    ensures
        stream matches Some(st) ==> r == Ok::<S, Error>(st),
        stream is None ==> (r matches Err(Error::RustError(m)) && m@
            == "AI model did not return binary data. Use run() for non-binary responses."@),
{
    match stream {
        Some(s) => Ok(s),
        None => Err(
            Error::RustError(
                "AI model did not return binary data. Use run() for non-binary responses.".to_owned(),
            ),
        ),
    }
}

} // verus!
