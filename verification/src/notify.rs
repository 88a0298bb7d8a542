//! What the operator is told when tracking ends. Success is silent.

use vstd::prelude::*;
use vstd::string::*;

use crate::error::{InternalError, TrackError, TrackErrorView};
use crate::text::{has_substring, occurs_at};

verus! {

/// The text that tells an operator that the upload titled `title` failed for
/// the reason `message`.
pub open spec fn failure_text(title: Seq<char>, message: Seq<char>) -> Seq<char> {
    "<b>EpicPrinter processing failed</b>\nFile: <i>"@ + title
        + "</i>\n\n<blockquote><code>"@ + message + "</code></blockquote>"@
}

/// What the operator is told of the result of tracking the upload titled
/// `title`: nothing on success, the failure's text else.
pub open spec fn notice(title: Seq<char>, result: Result<(), TrackErrorView>) -> Option<
    Seq<char>,
> {
    match result {
        Ok(_) => None,
        Err(error) => Some(failure_text(title, error.message())),
    }
}

/// The text of a failure holds the title of the upload and the reason, each
/// letter for letter.
pub proof fn lemma_failure_text_names_upload(title: Seq<char>, message: Seq<char>)
    ensures
        has_substring(failure_text(title, message), title),
        has_substring(failure_text(title, message), message),
{
    let head = "<b>EpicPrinter processing failed</b>\nFile: <i>"@;
    let middle = "</i>\n\n<blockquote><code>"@;
    let text = failure_text(title, message);
    let title_at = head.len() as int;
    let message_at = (head.len() + title.len() + middle.len()) as int;
    assert(text.subrange(title_at, title_at + title.len()) =~= title);
    assert(occurs_at(text, title, title_at));
    assert(text.subrange(message_at, message_at + message.len()) =~= message);
    assert(occurs_at(text, message, message_at));
}

/// An operator hears of an upload exactly if its tracking failed.
pub proof fn lemma_only_failure_is_told(title: Seq<char>, result: Result<(), TrackErrorView>)
    ensures
        notice(title, result) is Some <==> result is Err,
{
}

/// The mathematical value of the result of tracking.
pub open spec fn tracked_view(result: Result<(), TrackError>) -> Result<(), TrackErrorView> {
    match result {
        Ok(_) => Ok(()),
        Err(error) => Err(error@),
    }
}

/// Writes the message that tells an operator of a failed upload. It names the
/// upload by its title, so that a scan that seemed to go well can be matched
/// with its later failure.
pub fn failure_notification(title: &str, error: &InternalError) -> (text: String)
    ensures
        text@ == failure_text(title@, error.message@),
{
    let mut text = String::from_str("<b>EpicPrinter processing failed</b>\nFile: <i>");
    text.append(title);
    text.append("</i>\n\n<blockquote><code>");
    text.append(error.message.as_str());
    text.append("</code></blockquote>");
    text
}

/// The address at which the chat service takes a message from the bot that
/// holds `token`.
pub open spec fn send_message_address(token: Seq<char>) -> Seq<char> {
    "https://api.telegram.org/bot"@ + token + "/sendMessage"@
}

/// The fields of the form that carries `text` to the chat `chat`, as pairs of
/// name and value. The text is marked as HTML, which the failure text is.
pub open spec fn send_message_fields(chat: Seq<char>, text: Seq<char>) -> Seq<
    (Seq<char>, Seq<char>),
> {
    seq![("parse_mode"@, "HTML"@), ("chat_id"@, chat), ("text"@, text)]
}

/// The mathematical value of a form.
pub open spec fn form_view(form: Seq<(String, String)>) -> Seq<(Seq<char>, Seq<char>)> {
    form.map_values(|field: (String, String)| (field.0@, field.1@))
}

/// The address to which a message of the bot that holds `token` is posted.
pub fn send_message_url(token: &str) -> (url: String)
    ensures
        url@ == send_message_address(token@),
{
    let mut url = String::from_str("https://api.telegram.org/bot");
    url.append(token);
    url.append("/sendMessage");
    url
}

/// The form that carries `text` to the chat `chat`.
pub fn send_message_form(chat: &str, text: &str) -> (form: Vec<(String, String)>)
    ensures
        form_view(form@) == send_message_fields(chat@, text@),
{
    let mut form: Vec<(String, String)> = Vec::new();
    form.push((String::from_str("parse_mode"), String::from_str("HTML")));
    form.push((String::from_str("chat_id"), String::from_str(chat)));
    form.push((String::from_str("text"), String::from_str(text)));
    assert(form_view(form@) =~= send_message_fields(chat@, text@));
    form
}

/// A chat to which failures are reported, and the bot that reports them.
#[derive(Debug)]
pub struct TelegramClient {
    chat: String,
    token: String,
}

/// The mathematical value of a [`TelegramClient`].
pub struct TelegramClientView {
    pub chat: Seq<char>,
    pub token: Seq<char>,
}

impl View for TelegramClient {
    type V = TelegramClientView;

    closed spec fn view(&self) -> TelegramClientView {
        TelegramClientView { chat: self.chat@, token: self.token@ }
    }
}

/// One message to the chat: a form to be posted to `url`.
#[derive(Debug, PartialEq, Eq)]
pub struct ChatMessage {
    pub url: String,
    pub form: Vec<(String, String)>,
}

impl TelegramClient {
    /// A client that reports to the chat `chat` as the bot that holds `token`.
    pub fn new(chat: &str, token: &str) -> (client: TelegramClient)
        ensures
            client@ == (TelegramClientView { chat: chat@, token: token@ }),
    {
        TelegramClient { chat: String::from_str(chat), token: String::from_str(token) }
    }

    /// The message that carries `text` to the chat.
    pub fn message(&self, text: &str) -> (message: ChatMessage)
        ensures
            message.url@ == send_message_address(self@.token),
            form_view(message.form@) == send_message_fields(self@.chat, text@),
    {
        ChatMessage {
            url: send_message_url(self.token.as_str()),
            form: send_message_form(self.chat.as_str(), text),
        }
    }
}

/// Decides what to tell the operator once tracking has ended: `None` where the
/// document is in place.
pub fn notification(title: &str, result: &Result<(), TrackError>) -> (text: Option<String>)
    ensures
        text.deep_view() == notice(title@, tracked_view(*result)),
{
    match result {
        Ok(_) => None,
        Err(error) => Some(failure_notification(title, &error.report())),
    }
}

} // verus!
