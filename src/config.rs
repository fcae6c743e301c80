//! The persisted configuration and the decisions of interactive setup.
use vstd::prelude::*;
use crate::text::{
    is_blank, is_blank_text, normalize_option, normalize_owned, normalized, opt_view, redact_token,
    shown_token,
};

verus! {

/// The configuration file's contents.
pub struct FileConfig {
    pub api_url: Option<String>,
    pub bot_token: Option<String>,
    pub chat_id: Option<String>,
}

/// Whether an optional setting is present and not blank.
pub open spec fn filled(v: Option<String>) -> bool {
    match v {
        Some(s) => !is_blank(s@),
        None => false,
    }
}

/// Whether a value counts as set for storage: absent and blank values do not.
pub open spec fn kept_for_write(v: Option<String>, r: Option<String>) -> bool {
    match v {
        Some(s) => if is_blank(s@) {
            r is None
        } else {
            r == Some(s)
        },
        None => r is None,
    }
}

/// The normalised form of an optional setting.
pub open spec fn normalized_setting(v: Option<String>) -> Option<Seq<char>> {
    match v {
        Some(s) => normalized(s@),
        None => None,
    }
}

fn filled_setting(v: &Option<String>) -> (r: bool)
    ensures
        r == filled(*v),
{
    match v {
        Some(s) => !is_blank_text(s.as_str()),
        None => false,
    }
}

fn drop_blank(v: Option<String>) -> (r: Option<String>)
    ensures
        kept_for_write(v, r),
{
    match v {
        Some(s) => if is_blank_text(s.as_str()) {
            None
        } else {
            Some(s)
        },
        None => None,
    }
}

impl FileConfig {
    /// A configuration with nothing set.
    pub fn empty() -> (r: FileConfig)
        ensures
            r.api_url is None,
            r.bot_token is None,
            r.chat_id is None,
    {
        FileConfig { api_url: None, bot_token: None, chat_id: None }
    }

    /// Whether the API URL, the bot token and the chat ID are all set and not blank.
    pub fn has_required_fields(&self) -> (r: bool)
        ensures
            r == (filled(self.api_url) && filled(self.bot_token) && filled(self.chat_id)),
    {
        filled_setting(&self.api_url) && filled_setting(&self.bot_token) && filled_setting(
            &self.chat_id,
        )
    }

    /// The configuration as it is written: blank settings are left out, the
    /// others kept as they are.
    pub fn prepared_for_write(self) -> (r: FileConfig)
        ensures
            kept_for_write(self.api_url, r.api_url),
            kept_for_write(self.bot_token, r.bot_token),
            kept_for_write(self.chat_id, r.chat_id),
    {
        FileConfig {
            api_url: drop_blank(self.api_url),
            bot_token: drop_blank(self.bot_token),
            chat_id: drop_blank(self.chat_id),
        }
    }

    /// The configuration with each setting trimmed, and blank ones removed.
    pub fn normalized(self) -> (r: FileConfig)
        ensures
            opt_view(r.api_url) == normalized_setting(self.api_url),
            opt_view(r.bot_token) == normalized_setting(self.bot_token),
            opt_view(r.chat_id) == normalized_setting(self.chat_id),
    {
        FileConfig {
            api_url: normalize_option(self.api_url),
            bot_token: normalize_option(self.bot_token),
            chat_id: normalize_option(self.chat_id),
        }
    }
}

/// What interactive setup does next for one setting.
#[derive(PartialEq, Eq, Structural, Clone, Copy, Debug)]
pub enum SetupStep {
    /// The setting is settled.
    Done,
    /// Ask for the setting; `has_current` tells whether blank input keeps a current value.
    Ask { has_current: bool },
    /// Say that the setting is required, then ask again.
    Required,
}

/// Starts settling one setting: a value given up front, once normalised,
/// replaces the current one; otherwise the user is asked.
pub fn setup_start(target: &mut Option<String>, provided: Option<String>) -> (r: SetupStep)
    ensures
        normalized_setting(provided) is Some ==> r == SetupStep::Done && opt_view(*final(target))
            == normalized_setting(provided),
        normalized_setting(provided) is None ==> r == (SetupStep::Ask {
            has_current: (*old(target)) is Some,
        }) && *final(target) == *old(target),
{
    match normalize_option(provided) {
        Some(v) => {
            *target = Some(v);
            SetupStep::Done
        },
        None => SetupStep::Ask { has_current: target.is_some() },
    }
}

/// Takes one line of input for a setting: blank input keeps a current value
/// or asks again; anything else, normalised, becomes the value.
pub fn setup_input(target: &mut Option<String>, input: String) -> (r: SetupStep)
    ensures
        input@.len() == 0 && (*old(target)) is Some ==> r == SetupStep::Done && *final(target)
            == *old(target),
        input@.len() == 0 && (*old(target)) is None ==> r == SetupStep::Required && *final(target)
            == *old(target),
        input@.len() > 0 && normalized(input@) is Some ==> r == SetupStep::Done && opt_view(
            *final(target),
        ) == normalized(input@),
        input@.len() > 0 && normalized(input@) is None ==> r == (SetupStep::Ask {
            has_current: (*old(target)) is Some,
        }) && *final(target) == *old(target),
{
    if input.as_str().is_empty() {
        if target.is_some() {
            return SetupStep::Done;
        }
        return SetupStep::Required;
    }
    match normalize_owned(input) {
        Some(v) => {
            *target = Some(v);
            SetupStep::Done
        },
        None => SetupStep::Ask { has_current: target.is_some() },
    }
}

/// A setting that setup could not settle.
#[derive(PartialEq, Eq, Structural, Clone, Copy, Debug)]
pub enum SetupError {
    MissingApiUrl,
    MissingBotToken,
    MissingChatId,
}

/// Checks that setup settled every setting, naming the first that is missing.
pub fn check_setup(config: &FileConfig) -> (r: Result<(), SetupError>)
    ensures
        r == (if config.api_url is None {
            Err(SetupError::MissingApiUrl)
        } else if config.bot_token is None {
            Err(SetupError::MissingBotToken)
        } else if config.chat_id is None {
            Err(SetupError::MissingChatId)
        } else {
            Ok(())
        }),
{
    if config.api_url.is_none() {
        Err(SetupError::MissingApiUrl)
    } else if config.bot_token.is_none() {
        Err(SetupError::MissingBotToken)
    } else if config.chat_id.is_none() {
        Err(SetupError::MissingChatId)
    } else {
        Ok(())
    }
}

/// What stands for a setting that is not set.
pub open spec fn not_set() -> Seq<char> {
    seq!['<', 'n', 'o', 't', ' ', 's', 'e', 't', '>']
}

fn not_set_text() -> (r: String)
    ensures
        r@ == not_set(),
{
    let s = "<not set>";
    proof {
        reveal_strlit("<not set>");
        assert(s@ =~= not_set());
    }
    s.to_owned()
}

/// The configuration as it is shown: the bot token masked, absent settings marked.
pub struct ConfigSummary {
    pub api_url: String,
    pub bot_token: String,
    pub chat_id: String,
}

fn shown_setting(v: &Option<String>) -> (r: String)
    ensures
        r@ == match v {
            Some(s) => s@,
            None => not_set(),
        },
{
    match v {
        Some(s) => s.clone(),
        None => not_set_text(),
    }
}

/// Summarises the configuration for display.
pub fn config_summary(config: &FileConfig) -> (r: ConfigSummary)
    ensures
        r.api_url@ == match config.api_url {
            Some(s) => s@,
            None => not_set(),
        },
        r.chat_id@ == match config.chat_id {
            Some(s) => s@,
            None => not_set(),
        },
        r.bot_token@ == match config.bot_token {
            Some(t) => shown_token(vstd::utf8::encode_utf8(t@)),
            None => not_set(),
        },
{
    let bot_token = match &config.bot_token {
        Some(t) => redact_token(t.as_str()),
        None => not_set_text(),
    };
    ConfigSummary {
        api_url: shown_setting(&config.api_url),
        bot_token,
        chat_id: shown_setting(&config.chat_id),
    }
}

} // verus!
