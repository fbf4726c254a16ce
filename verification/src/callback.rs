//! What is handed to the callback that answers users, and what it gives back.

use vstd::prelude::*;

use crate::message::text_of;

verus! {

/// A downloaded file.
#[derive(Debug)]
pub struct DiscordFile {
    pub filename: String,
    pub data: Vec<u8>,
    pub content_type: Option<String>,
}

/// A downloaded file, as characters and bytes.
pub struct FileModel {
    pub filename: Seq<char>,
    pub data: Seq<u8>,
    pub content_type: Option<Seq<char>>,
}

impl View for DiscordFile {
    type V = FileModel;

    open spec fn view(&self) -> FileModel {
        FileModel {
            filename: self.filename@,
            data: self.data@,
            content_type: text_of(self.content_type),
        }
    }
}

/// The characters and bytes of an optional file.
pub open spec fn file_of(file: Option<DiscordFile>) -> Option<FileModel> {
    match file {
        Some(file) => Some(file@),
        None => None,
    }
}

/// What the callback is told about a message or a command.
#[derive(Debug)]
pub struct CallbackRequest {
    /// The number of the channel, in decimal.
    pub channel_id: String,
    /// The number of the user, in decimal.
    pub user_id: String,
    /// The name to address the user by.
    pub user_name: String,
    pub text: String,
    /// Whether the message is subject to group rules.
    pub is_group: bool,
    pub file: Option<DiscordFile>,
    /// Whether the answer is taken piece by piece while it is made.
    pub streamed: bool,
}

/// What the callback is told, as characters and bytes.
pub struct RequestModel {
    pub channel_id: Seq<char>,
    pub user_id: Seq<char>,
    pub user_name: Seq<char>,
    pub text: Seq<char>,
    pub is_group: bool,
    pub file: Option<FileModel>,
    pub streamed: bool,
}

impl View for CallbackRequest {
    type V = RequestModel;

    open spec fn view(&self) -> RequestModel {
        RequestModel {
            channel_id: self.channel_id@,
            user_id: self.user_id@,
            user_name: self.user_name@,
            text: self.text@,
            is_group: self.is_group,
            file: file_of(self.file),
            streamed: self.streamed,
        }
    }
}

/// An answer of the callback.
#[derive(Debug)]
pub enum ChannelResponse {
    Text(String),
    /// Speech in OGG/Opus, with the text that was spoken.
    Voice { text: String, audio: Vec<u8> },
}

/// An answer of the callback, as characters and bytes.
pub enum ResponseModel {
    Text(Seq<char>),
    Voice { text: Seq<char>, audio: Seq<u8> },
}

impl View for ChannelResponse {
    type V = ResponseModel;

    open spec fn view(&self) -> ResponseModel {
        match self {
            ChannelResponse::Text(text) => ResponseModel::Text(text@),
            ChannelResponse::Voice { text, audio } => ResponseModel::Voice {
                text: text@,
                audio: audio@,
            },
        }
    }
}

impl ResponseModel {
    /// The answer in words.
    pub open spec fn text(self) -> Seq<char> {
        match self {
            ResponseModel::Text(text) => text,
            ResponseModel::Voice { text, audio: _ } => text,
        }
    }
}

impl ChannelResponse {
    /// The answer in words.
    pub fn text(&self) -> (text: &str)
        ensures
            text@ == self@.text(),
    {
        match self {
            ChannelResponse::Text(text) => text.as_str(),
            ChannelResponse::Voice { text, audio: _ } => text.as_str(),
        }
    }
}

/// The characters and bytes of what the callback returned.
pub open spec fn outcome_of(outcome: Result<ChannelResponse, String>) -> Result<
    ResponseModel,
    Seq<char>,
> {
    match outcome {
        Ok(response) => Ok(response@),
        Err(error) => Err(error@),
    }
}

/// The error by which the callback says that the user may not use the bot.
pub open spec fn is_blocked(error: Seq<char>) -> bool {
    error == "__blocked__"@
}

/// What a user is told of an error.
pub open spec fn apology(error: Seq<char>) -> Seq<char> {
    "Sorry, an error occurred: "@ + error
}

/// Whether the error says that the user may not use the bot.
pub fn blocks_user(error: &String) -> (blocked: bool)
    ensures
        blocked == is_blocked(error@),
{
    error.eq(&"__blocked__".to_string())
}

/// What a user is told of an error.
pub fn apology_text(error: &str) -> (text: String)
    ensures
        text@ == apology(error@),
{
    "Sorry, an error occurred: ".to_string().concat(error)
}

/// The answer in words is the text that the callback gave, spoken or written.
pub proof fn law_answer_in_words_is_its_text(text: Seq<char>, audio: Seq<u8>)
    ensures
        ResponseModel::Text(text).text() == text,
        (ResponseModel::Voice { text, audio }).text() == text,
{
}

/// A user is told of an error in words that end with the error, so that different errors are told
/// in different words; exactly one error says that the user may not use the bot.
pub proof fn law_apology_ends_with_the_error(error: Seq<char>, other: Seq<char>)
    ensures
        apology(error) == "Sorry, an error occurred: "@ + error,
        apology(error) == apology(other) ==> error == other,
        is_blocked(error) <==> error == "__blocked__"@,
{
    let opening = "Sorry, an error occurred: "@;
    if apology(error) == apology(other) {
        let n = opening.len() as int;
        assert((opening + error).skip(n) =~= error);
        assert((opening + other).skip(n) =~= other);
    }
}

/// Files, requests, answers and outcomes are read as they are.
pub proof fn law_requests_and_answers_are_read_as_they_are(
    request: CallbackRequest,
    file: DiscordFile,
    text: String,
    audio: Vec<u8>,
)
    ensures
        file@.filename == file.filename@,
        file@.data == file.data@,
        file.content_type is Some <==> file@.content_type is Some,
        file.content_type is Some ==> file@.content_type->0 == file.content_type->0@,
        request@.channel_id == request.channel_id@,
        request@.user_id == request.user_id@,
        request@.user_name == request.user_name@,
        request@.text == request.text@,
        request@.is_group == request.is_group,
        request@.streamed == request.streamed,
        request.file is Some <==> request@.file is Some,
        request.file is Some ==> request@.file->0 == request.file->0@,
        file_of(Some(file)) == Some(file@),
        file_of(None) is None,
        outcome_of(Ok(ChannelResponse::Text(text))) == Ok::<ResponseModel, Seq<char>>(
            ResponseModel::Text(text@),
        ),
        outcome_of(Ok(ChannelResponse::Voice { text, audio })) == Ok::<ResponseModel, Seq<char>>(
            ResponseModel::Voice { text: text@, audio: audio@ },
        ),
        outcome_of(Err(text)) == Err::<ResponseModel, Seq<char>>(text@),
{
}

} // verus!
