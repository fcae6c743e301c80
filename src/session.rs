//! The decisions of a sending session: credentials, endpoints, what a run
//! does, the connectivity check, and the chat's display name.
use vstd::prelude::*;
use rand::{Rng, SeedableRng};
use crate::args::Args;
use crate::text::{
    is_blank, is_blank_text, occurs, redact_secret, redacted_text, replace_all, trim_of, trim_text,
    unescape_newlines,
};

verus! {

/// The name shown for a chat whose name is not known.
pub open spec fn unknown_name() -> Seq<char> {
    seq!['U', 'n', 'k', 'n', 'o', 'w', 'n']
}

fn unknown_text() -> (r: String)
    ensures
        r@ == unknown_name(),
{
    let s = "Unknown";
    proof {
        reveal_strlit("Unknown");
        assert(s@ =~= unknown_name());
    }
    s.to_owned()
}

/// Why a session could not be opened.
#[derive(PartialEq, Eq, Structural, Clone, Copy, Debug)]
pub enum SessionError {
    MissingBotToken,
    MissingChatId,
    MissingApiUrl,
}

/// The fields of a chat lookup's result that name the chat.
pub struct ChatInfo {
    pub title: Option<String>,
    pub first_name: Option<String>,
    pub last_name: Option<String>,
}

/// A chat lookup's reply.
pub struct ChatReply {
    pub ok: bool,
    pub result: Option<ChatInfo>,
    pub description: Option<String>,
}

/// The name of a person: the first name, followed by the last one when that
/// is not blank, trimmed; unknown when nothing is left.
pub open spec fn person_name(first: Seq<char>, last: Option<String>) -> Seq<char> {
    let full = match last {
        Some(l) => if is_blank(l@) {
            first
        } else {
            first + seq![' '] + l@
        },
        None => first,
    };
    if trim_of(full).len() == 0 {
        unknown_name()
    } else {
        trim_of(full)
    }
}

/// The display name that a chat lookup's reply gives: the title, else the
/// person's name, else the error description; unknown when it names nothing.
pub open spec fn chat_name_from(reply: ChatReply) -> Seq<char> {
    if reply.ok {
        match reply.result {
            Some(info) => match info.title {
                Some(t) => t@,
                None => match info.first_name {
                    Some(f) => person_name(f@, info.last_name),
                    None => unknown_name(),
                },
            },
            None => unknown_name(),
        }
    } else {
        match reply.description {
            Some(d) => seq!['E', 'r', 'r', 'o', 'r', ':', ' '] + d@,
            None => unknown_name(),
        }
    }
}

fn person_name_text(first: String, last: Option<String>) -> (r: String)
    ensures
        r@ == person_name(first@, last),
{
    let ghost l = last;
    let mut full = first;
    match last {
        Some(l) => {
            if !is_blank_text(l.as_str()) {
                let space = " ";
                proof {
                    reveal_strlit(" ");
                }
                full.append(space);
                full.append(l.as_str());
            }
        },
        None => {},
    }
    proof {
        assert(full@ =~= match l {
            Some(x) => if is_blank(x@) {
                first@
            } else {
                first@ + seq![' '] + x@
            },
            None => first@,
        });
    }
    let trimmed = trim_text(full.as_str());
    if trimmed.as_str().is_empty() {
        unknown_text()
    } else {
        trimmed
    }
}

/// Works out a chat's display name from a lookup's reply.
pub fn chat_name_from_reply(reply: ChatReply) -> (r: String)
    ensures
        r@ == chat_name_from(reply),
{
    let ChatReply { ok, result, description } = reply;
    if ok {
        match result {
            Some(ChatInfo { title, first_name, last_name }) => match title {
                Some(t) => t,
                None => match first_name {
                    Some(f) => person_name_text(f, last_name),
                    None => unknown_text(),
                },
            },
            None => unknown_text(),
        }
    } else {
        match description {
            Some(d) => {
                let mut s = "Error: ".to_owned();
                proof {
                    reveal_strlit("Error: ");
                }
                s.append(d.as_str());
                proof {
                    assert(s@ =~= seq!['E', 'r', 'r', 'o', 'r', ':', ' '] + d@);
                }
                s
            },
            None => unknown_text(),
        }
    }
}

/// A session with the bot API: where to send, for which chat, and the
/// chat's last known display name.
pub struct Session {
    pub api_url: String,
    pub bot_token: String,
    pub chat_id: String,
    pub chat_name: String,
}

impl Session {
    /// Opens a session; the bot token, the chat ID and the API URL must not be
    /// blank, checked in that order.
    pub fn new(api_url: String, bot_token: String, chat_id: String) -> (r: Result<Session, SessionError>)
        ensures
            is_blank(bot_token@) ==> r == Err::<Session, SessionError>(SessionError::MissingBotToken),
            !is_blank(bot_token@) && is_blank(chat_id@) ==> r == Err::<Session, SessionError>(
                SessionError::MissingChatId,
            ),
            !is_blank(bot_token@) && !is_blank(chat_id@) && is_blank(api_url@) ==> r == Err::<
                Session,
                SessionError,
            >(SessionError::MissingApiUrl),
            !is_blank(bot_token@) && !is_blank(chat_id@) && !is_blank(api_url@) ==> (r matches Ok(
                s,
            ) && s.api_url == api_url && s.bot_token == bot_token && s.chat_id == chat_id
                && s.chat_name@ == unknown_name()),
    {
        if is_blank_text(bot_token.as_str()) {
            return Err(SessionError::MissingBotToken);
        }
        if is_blank_text(chat_id.as_str()) {
            return Err(SessionError::MissingChatId);
        }
        if is_blank_text(api_url.as_str()) {
            return Err(SessionError::MissingApiUrl);
        }
        Ok(Session { api_url, bot_token, chat_id, chat_name: unknown_text() })
    }

    /// The URL of an API method: the base URL, the bot token, a slash and the method.
    pub fn endpoint(&self, method: &str) -> (r: String)
        ensures
            r@ == self.api_url@ + self.bot_token@ + seq!['/'] + method@,
    {
        let mut url = self.api_url.clone();
        url.append(self.bot_token.as_str());
        let slash = "/";
        proof {
            reveal_strlit("/");
        }
        url.append(slash);
        url.append(method);
        proof {
            assert(url@ =~= self.api_url@ + self.bot_token@ + seq!['/'] + method@);
        }
        url
    }

    /// Takes the chat's display name from a lookup's reply; when the reply
    /// could not be read (`None`), the last known name stays.
    pub fn apply_chat_reply(&mut self, reply: Option<ChatReply>)
        ensures
            final(self).chat_name@ == match reply {
                Some(r) => chat_name_from(r),
                None => old(self).chat_name@,
            },
            final(self).api_url == old(self).api_url,
            final(self).bot_token == old(self).bot_token,
            final(self).chat_id == old(self).chat_id,
    {
        if let Some(r) = reply {
            self.chat_name = chat_name_from_reply(r);
        }
    }

    /// Error text made fit to report: the bot token never appears in it.
    pub fn sanitize(&self, text: &str) -> (r: String)
        ensures
            r@ == redacted_text(text@, self.bot_token@),
            self.bot_token@.len() > 0 ==> !occurs(r@, self.bot_token@),
    {
        redact_secret(text, self.bot_token.as_str())
    }
}

/// What a run does.
#[derive(PartialEq, Eq, Structural, Clone, Copy, Debug)]
pub enum RunAction {
    /// Only check connectivity and credentials.
    Check,
    /// Send the media files.
    SendMedia,
    /// Send the text message.
    SendMessage,
}

/// Why a run has nothing to do.
#[derive(PartialEq, Eq, Structural, Clone, Copy, Debug)]
pub enum RunError {
    /// Neither a message nor media was given, and no check was asked for.
    NoInput,
}

/// Decides what a run does: media first, then a message; with neither, a
/// check when asked for, else an error.
pub fn decide_run(args: &Args) -> (r: Result<RunAction, RunError>)
    ensures
        r == (if args.media_paths@.len() == 0 && args.message is None {
            if args.check {
                Ok(RunAction::Check)
            } else {
                Err(RunError::NoInput)
            }
        } else if args.media_paths@.len() > 0 {
            Ok(RunAction::SendMedia)
        } else {
            Ok(RunAction::SendMessage)
        }),
{
    if args.media_paths.len() == 0 && args.message.is_none() {
        if args.check {
            Ok(RunAction::Check)
        } else {
            Err(RunError::NoInput)
        }
    } else if args.media_paths.len() > 0 {
        Ok(RunAction::SendMedia)
    } else {
        Ok(RunAction::SendMessage)
    }
}

/// Which settings taken from the configuration a run reports.
#[derive(PartialEq, Eq, Structural, Clone, Copy, Debug)]
pub struct ConfigNotices {
    /// Report the API URL taken from the configuration.
    pub api_url: bool,
    /// Report the bot token and chat ID taken from the configuration.
    pub credentials: bool,
}

/// When neither the bot token nor the chat ID was given, the run reports the
/// configured ones, and the configured API URL too when that was not given.
pub fn config_notices(provided_api_url: bool, provided_bot_token: bool, provided_chat_id: bool) -> (r: ConfigNotices)
    ensures
        r.credentials == (!provided_bot_token && !provided_chat_id),
        r.api_url == (!provided_bot_token && !provided_chat_id && !provided_api_url),
{
    let credentials = !provided_bot_token && !provided_chat_id;
    ConfigNotices { api_url: credentials && !provided_api_url, credentials }
}

/// A text message to send.
pub struct MessageRequest {
    pub text: String,
    pub disable_notification: bool,
}

/// Builds a text message: escaped line breaks become real ones.
pub fn build_message_request(message: &str, silent: bool) -> (r: MessageRequest)
    ensures
        r.text@ == replace_all(message@, seq!['\\', 'n'], seq!['\n']),
        r.disable_notification == silent,
{
    MessageRequest { text: unescape_newlines(message), disable_notification: silent }
}

/// The number of chat actions that a connectivity check chooses from.
pub const CHECK_ACTION_COUNT: usize = 11;

/// The chat actions that a connectivity check chooses from.
pub open spec fn check_actions() -> Seq<Seq<char>> {
    seq![
        "typing"@,
        "upload_photo"@,
        "record_video"@,
        "upload_video"@,
        "record_voice"@,
        "upload_voice"@,
        "upload_document"@,
        "choose_sticker"@,
        "find_location"@,
        "record_video_note"@,
        "upload_video_note"@,
    ]
}

/// The chat action at a position of the check's vocabulary.
pub fn check_action(index: usize) -> (r: &'static str)
    requires
        index < CHECK_ACTION_COUNT,
    ensures
        r@ == check_actions()[index as int],
{
    match index {
        0 => "typing",
        1 => "upload_photo",
        2 => "record_video",
        3 => "upload_video",
        4 => "record_voice",
        5 => "upload_voice",
        6 => "upload_document",
        7 => "choose_sticker",
        8 => "find_location",
        9 => "record_video_note",
        _ => "upload_video_note",
    }
}

/// Relies on `rand::rngs::StdRng::from_entropy` and `Rng::gen_range`: a number
/// drawn from `0 .. n`, which is not empty.
#[verifier::external_body]
fn random_below(n: usize) -> (r: usize)
    requires
        n > 0,
    ensures
        r < n,
{
    rand::rngs::StdRng::from_entropy().gen_range(0..n)
}

/// Picks the chat action of a connectivity check at random.
pub fn pick_check_action() -> (r: &'static str)
    ensures
        exists|i: int| 0 <= i < CHECK_ACTION_COUNT && r@ == check_actions()[i],
{
    let i = random_below(CHECK_ACTION_COUNT);
    check_action(i)
}

} // verus!
