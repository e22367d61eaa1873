//! The annotation session: its settings, the request it sends, and the
//! segment and merge it derives for each file from the response.

use vstd::prelude::*;
use genai::chat::{ChatMessage, ChatRequest};
use crate::extract::{extract_segment, opt_view, segment_of};
use crate::locate::{candidate_stem, py_stem_of};
use crate::merge::{start_of, well_formed, FileMerge};

verus! {

#[verifier::external_type_specification]
#[verifier::external_body]
pub struct ExChatRequest(genai::chat::ChatRequest);

#[verifier::external_type_specification]
#[verifier::external_body]
pub struct ExChatMessage(genai::chat::ChatMessage);

/// The role of a message in a request.
#[derive(Debug, Clone, Copy, PartialEq, Eq, Structural)]
pub enum Role {
    System,
    User,
}

/// A chat message, with the role and the text it was made from.
pub struct Message {
    message: ChatMessage,
    model: Ghost<(Role, Seq<char>)>,
}

impl Message {
    pub closed spec fn model(&self) -> (Role, Seq<char>) {
        self.model@
    }
}

/// A chat request, with the role and the text of each message it carries,
/// in order.
pub struct Request {
    request: ChatRequest,
    messages: Ghost<Seq<(Role, Seq<char>)>>,
}

impl Request {
    pub closed spec fn messages(&self) -> Seq<(Role, Seq<char>)> {
        self.messages@
    }

    /// The request itself, to hand to a chat client.
    pub fn into_chat_request(self) -> (r: ChatRequest) {
        self.request
    }
}

/// Relies on `genai::chat::ChatMessage::system`: a message in the system
/// role whose content is the text.
#[verifier::external_body]
fn system_message(text: &str) -> (r: Message)
    ensures
        r.model() == (Role::System, text@),
{
    Message { message: ChatMessage::system(text.to_string()), model: Ghost((Role::System, text@)) }
}

/// Relies on `genai::chat::ChatMessage::user`: a message in the user role
/// whose content is the text.
#[verifier::external_body]
fn user_message(text: &str) -> (r: Message)
    ensures
        r.model() == (Role::User, text@),
{
    Message { message: ChatMessage::user(text.to_string()), model: Ghost((Role::User, text@)) }
}

/// Relies on `genai::chat::ChatRequest::new`: a request, with no system
/// field set, that carries the messages in the order given.
#[verifier::external_body]
fn chat_request(messages: Vec<Message>) -> (r: Request)
    ensures
        r.messages() == messages@.map_values(|m: Message| m.model()),
{
    let models = Ghost(messages@.map_values(|m: Message| m.model()));
    Request { request: ChatRequest::new(messages.into_iter().map(|m| m.message).collect()), messages: models }
}

/// The segment and the merge that a response yields for a directory entry:
/// `None` when the entry is no candidate, else the merge of the segment
/// found under the entry's stem.
pub open spec fn merge_for_entry(text: Seq<char>, file_name: Seq<char>, is_file: bool) -> Option<
    crate::merge::MergeModel,
> {
    if is_file && py_stem_of(file_name) is Some {
        Some(start_of(segment_of(text, py_stem_of(file_name).unwrap())))
    } else {
        None
    }
}

/// An annotation session: it asks a model to comment the files of a
/// directory, then merges each file's part of the answer into that file.
pub trait Prompt<'a>: Sized {
    /// The system instruction, the user instruction, the model and the
    /// directory of the session.
    spec fn settings(&self) -> (Seq<char>, Seq<char>, Seq<char>, Seq<char>);

    /// A session with these instructions, model and directory.
    fn new(prompt_text: &'a str, user_text: &'a str, model: &'a str, dir: &'a str) -> (r: Self)
        ensures
            r.settings() == (prompt_text@, user_text@, model@, dir@),
    ;

    /// The request to send: the system instruction, then the user's.
    fn build_message(&self) -> (r: Request)
        ensures
            r.messages() == seq![(Role::System, self.settings().0), (Role::User, self.settings().1)],
    ;

    /// The segment of `text` that belongs to the file with stem `file_name`.
    fn extracted_text(&self, text: String, file_name: &str) -> (r: Option<String>)
        ensures
            opt_view(r) == segment_of(text@, file_name@),
    ;

    /// The merge to run for a directory entry named `file_name`, or `None`
    /// when the entry is not a regular file with extension `py`.
    fn merge_for(&self, text: &str, file_name: &str, is_file: bool) -> (r: Option<FileMerge>)
        ensures
            r is Some <==> merge_for_entry(text@, file_name@, is_file) is Some,
            r matches Some(m) ==> Some(m@) == merge_for_entry(text@, file_name@, is_file)
                && well_formed(m@),
    ;
}

/// The settings of one session.
pub struct Text<'a> {
    pub prompt_text: &'a str,
    pub user_text: &'a str,
    pub model: &'a str,
    pub dir: &'a str,
}

impl<'a> Prompt<'a> for Text<'a> {
    open spec fn settings(&self) -> (Seq<char>, Seq<char>, Seq<char>, Seq<char>) {
        (self.prompt_text@, self.user_text@, self.model@, self.dir@)
    }

    fn new(prompt_text: &'a str, user_text: &'a str, model: &'a str, dir: &'a str) -> (r: Self) {
        Text { prompt_text, user_text, model, dir }
    }

    fn build_message(&self) -> (r: Request) {
        let mut messages: Vec<Message> = Vec::new();
        messages.push(system_message(self.prompt_text));
        messages.push(user_message(self.user_text));
        let r = chat_request(messages);
        assert(r.messages() =~= seq![(Role::System, self.prompt_text@), (Role::User, self.user_text@)]);
        r
    }

    fn extracted_text(&self, text: String, file_name: &str) -> (r: Option<String>) {
        extract_segment(text.as_str(), file_name)
    }

    fn merge_for(&self, text: &str, file_name: &str, is_file: bool) -> (r: Option<FileMerge>) {
        match candidate_stem(file_name, is_file) {
            Some(stem) => Some(FileMerge::new(extract_segment(text, stem.as_str()))),
            None => None,
        }
    }
}

} // verus!
