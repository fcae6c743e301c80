//! Command-line options resolved against the configuration, and inline buttons.
use vstd::prelude::*;
use crate::config::{filled, FileConfig};
use crate::text::{same_text, trim_of, trim_text};

verus! {

/// The value that a bare `--button` option stands for: a break between button rows.
pub const BUTTON_ROW_BREAK: &'static str = "__ROW_BREAK__";

/// One `--button` option: a link button, or a break that starts a new row.
#[derive(Debug)]
pub enum ButtonSpec {
    Link { text: String, url: String },
    RowBreak,
}

/// The view of a button option: a label and URL, or nothing for a row break.
pub open spec fn button_view(b: ButtonSpec) -> Option<(Seq<char>, Seq<char>)> {
    match b {
        ButtonSpec::Link { text, url } => Some((text@, url@)),
        ButtonSpec::RowBreak => None,
    }
}

/// What is wrong with a `--button` value.
#[derive(PartialEq, Eq, Structural, Clone, Copy, Debug)]
pub enum ButtonProblem {
    /// Nothing but whitespace before the first `|`.
    MissingLabel,
    /// No `|`, or nothing but whitespace after it.
    ExpectedPair,
}

/// The options as given on the command line, before the configuration is consulted.
pub struct CliInput {
    pub setup: bool,
    pub show_config: bool,
    pub api_url: Option<String>,
    pub bot_token: Option<String>,
    pub chat_id: Option<String>,
    pub media: Vec<String>,
    pub spoiler: bool,
    pub streaming: bool,
    pub delay_secs: Option<u64>,
    pub no_group: bool,
    pub as_file: bool,
    pub caption: Option<String>,
    pub buttons: Vec<String>,
    pub button_text: Option<String>,
    pub button_url: Option<String>,
    pub silent: bool,
    pub check: bool,
    pub thread_id: Option<i64>,
    pub message: Option<String>,
}

/// The options of a sending run, resolved against the configuration.
pub struct Args {
    pub api_url: String,
    pub bot_token: String,
    pub chat_id: String,
    pub media_paths: Vec<String>,
    pub spoiler: bool,
    pub streaming: bool,
    pub delay_secs: Option<u64>,
    pub no_group: bool,
    pub as_file: bool,
    pub caption: Option<String>,
    pub buttons: Vec<ButtonSpec>,
    pub message: Option<String>,
    pub check: bool,
    pub silent: bool,
    pub thread_id: Option<i64>,
    pub provided_api_url: bool,
    pub provided_bot_token: bool,
    pub provided_chat_id: bool,
}

/// The values given to interactive setup.
pub struct SetupArgs {
    pub api_url: Option<String>,
    pub bot_token: Option<String>,
    pub chat_id: Option<String>,
}

/// What the command line asks for.
pub enum ParsedArgs {
    Run(Args),
    Setup(SetupArgs),
    ShowConfig,
}

/// Why the command line could not be resolved.
#[derive(Debug)]
pub enum ArgsError {
    /// There is no configuration file.
    ConfigNotFound,
    /// The configuration lacks the API URL, the bot token or the chat ID.
    ConfigIncomplete,
    /// A `--button` value is malformed.
    InvalidButton { entry: String, problem: ButtonProblem },
    /// Only one of the deprecated `--button-text` and `--button-url` was given.
    ButtonPairIncomplete,
}

/// The position of the first `|` in `s` at or after `i`, or the length of `s`.
pub open spec fn bar_from(s: Seq<char>, i: int) -> int
    decreases s.len() - i,
{
    if i < 0 || i >= s.len() {
        s.len() as int
    } else if s[i] == '|' {
        i
    } else {
        bar_from(s, i + 1)
    }
}

/// How one `--button` value reads: a row break, a label and URL pair, or a problem.
pub open spec fn parsed_button(e: Seq<char>) -> Result<Option<(Seq<char>, Seq<char>)>, ButtonProblem> {
    if e == BUTTON_ROW_BREAK@ {
        Ok(None)
    } else {
        let k = bar_from(e, 0);
        let label = trim_of(e.subrange(0, k));
        if label.len() == 0 {
            Err(ButtonProblem::MissingLabel)
        } else if k >= e.len() {
            Err(ButtonProblem::ExpectedPair)
        } else {
            let url = trim_of(e.subrange(k + 1, e.len() as int));
            if url.len() == 0 {
                Err(ButtonProblem::ExpectedPair)
            } else {
                Ok(Some((label, url)))
            }
        }
    }
}

proof fn lemma_bar_from(s: Seq<char>, i: int)
    requires
        0 <= i <= s.len(),
    ensures
        i <= bar_from(s, i) <= s.len(),
        bar_from(s, i) < s.len() ==> s[bar_from(s, i)] == '|',
        forall|j: int| i <= j < bar_from(s, i) ==> s[j] != '|',
    decreases s.len() - i,
{
    if i < s.len() && s[i] != '|' {
        lemma_bar_from(s, i + 1);
    }
}

fn parse_button(entry: &str) -> (r: Result<ButtonSpec, ButtonProblem>)
    ensures
        match parsed_button(entry@) {
            Ok(v) => r is Ok && button_view(r->Ok_0) == v,
            Err(p) => r == Err::<ButtonSpec, ButtonProblem>(p),
        },
{
    if same_text(entry, BUTTON_ROW_BREAK) {
        return Ok(ButtonSpec::RowBreak);
    }
    let n = entry.unicode_len();
    let mut k: usize = 0;
    while k < n && entry.get_char(k) != '|'
        invariant
            n == entry@.len(),
            0 <= k <= n,
            bar_from(entry@, 0) == bar_from(entry@, k as int),
        decreases n - k,
    {
        k = k + 1;
    }
    let label = trim_text(entry.substring_char(0, k));
    if label.as_str().is_empty() {
        return Err(ButtonProblem::MissingLabel);
    }
    if k >= n {
        return Err(ButtonProblem::ExpectedPair);
    }
    let url = trim_text(entry.substring_char(k + 1, n));
    if url.as_str().is_empty() {
        return Err(ButtonProblem::ExpectedPair);
    }
    Ok(ButtonSpec::Link { text: label, url })
}

/// Whether every value in `raw[0 .. i]` is well formed.
pub open spec fn buttons_ok_upto(raw: Seq<String>, i: int) -> bool {
    forall|j: int| 0 <= j < i ==> (#[trigger] parsed_button(raw[j]@)) is Ok
}

/// Parses the `--button` values in order; the first malformed one is reported.
pub fn parse_button_specs(raw: &Vec<String>) -> (r: Result<Vec<ButtonSpec>, ArgsError>)
    ensures
        r is Ok <==> buttons_ok_upto(raw@, raw@.len() as int),
        r is Ok ==> r->Ok_0@.len() == raw@.len() && forall|j: int|
            0 <= j < raw@.len() ==> button_view(#[trigger] r->Ok_0@[j]) == parsed_button(
                raw@[j]@,
            )->Ok_0,
        r is Err ==> exists|i: int|
            0 <= i < raw@.len() && buttons_ok_upto(raw@, i) && #[trigger] parsed_button(raw@[i]@)
                == Err::<Option<(Seq<char>, Seq<char>)>, ButtonProblem>(
                r->Err_0->problem,
            ) && r->Err_0 is InvalidButton && r->Err_0->entry@ == raw@[i]@,
{
    let mut specs: Vec<ButtonSpec> = Vec::new();
    let mut i: usize = 0;
    while i < raw.len()
        invariant
            0 <= i <= raw@.len(),
            specs@.len() == i,
            buttons_ok_upto(raw@, i as int),
            forall|j: int|
                0 <= j < i ==> button_view(#[trigger] specs@[j]) == parsed_button(raw@[j]@)->Ok_0,
        decreases raw@.len() - i,
    {
        let entry = raw[i].as_str();
        match parse_button(entry) {
            Ok(b) => {
                specs.push(b);
            },
            Err(problem) => {
                let e = ArgsError::InvalidButton { entry: entry.to_owned(), problem };
                proof {
                    assert(parsed_button(raw@[i as int]@) == Err::<
                        Option<(Seq<char>, Seq<char>)>,
                        ButtonProblem,
                    >(problem));
                    assert(!buttons_ok_upto(raw@, raw@.len() as int));
                }
                return Err(e);
            },
        }
        i = i + 1;
    }
    Ok(specs)
}

/// The value that the command line gives, or else the configuration's.
pub open spec fn resolved(cli: Option<String>, file: Option<String>) -> String {
    match cli {
        Some(v) => v,
        None => file->0,
    }
}

fn resolve(cli: Option<String>, file: Option<String>) -> (r: String)
    requires
        cli is Some || file is Some,
    ensures
        r == resolved(cli, file),
{
    match cli {
        Some(v) => v,
        None => file.unwrap(),
    }
}

impl Args {
    /// Resolves the command line: setup and show-config need no configuration;
    /// a run needs a complete one, from which each setting not given on the
    /// command line is taken. The deprecated button pair, when both halves are
    /// given, becomes a row of its own after the other buttons.
    pub fn parse(cli: CliInput, file_config: Option<FileConfig>) -> (r: Result<ParsedArgs, ArgsError>)
        ensures
            cli.setup ==> (r matches Ok(ParsedArgs::Setup(s)) && s.api_url == cli.api_url
                && s.bot_token == cli.bot_token && s.chat_id == cli.chat_id),
            !cli.setup && cli.show_config ==> r matches Ok(ParsedArgs::ShowConfig),
            !cli.setup && !cli.show_config && file_config is None ==> r matches Err(
                ArgsError::ConfigNotFound,
            ),
            !cli.setup && !cli.show_config && file_config is Some && !(filled(
                file_config->0.api_url,
            ) && filled(file_config->0.bot_token) && filled(file_config->0.chat_id)) ==> r matches Err(
                ArgsError::ConfigIncomplete,
            ),
            !cli.setup && !cli.show_config && file_config is Some && filled(
                file_config->0.api_url,
            ) && filled(file_config->0.bot_token) && filled(file_config->0.chat_id) ==> {
                let fc = file_config->0;
                let raw = cli.buttons@;
                if !buttons_ok_upto(raw, raw.len() as int) {
                    r matches Err(ArgsError::InvalidButton { entry, problem }) && exists|i: int|
                        0 <= i < raw.len() && buttons_ok_upto(raw, i) && #[trigger] parsed_button(
                            raw[i]@,
                        ) == Err::<Option<(Seq<char>, Seq<char>)>, ButtonProblem>(problem)
                            && entry@ == raw[i]@
                } else if cli.button_text is Some != cli.button_url is Some {
                    r matches Err(ArgsError::ButtonPairIncomplete)
                } else {
                    r matches Ok(ParsedArgs::Run(a)) && {
                        &&& a.api_url == resolved(cli.api_url, fc.api_url)
                        &&& a.bot_token == resolved(cli.bot_token, fc.bot_token)
                        &&& a.chat_id == resolved(cli.chat_id, fc.chat_id)
                        &&& a.media_paths == cli.media
                        &&& a.spoiler == cli.spoiler
                        &&& a.streaming == cli.streaming
                        &&& a.delay_secs == cli.delay_secs
                        &&& a.no_group == cli.no_group
                        &&& a.as_file == cli.as_file
                        &&& a.caption == cli.caption
                        &&& a.message == cli.message
                        &&& a.check == cli.check
                        &&& a.silent == cli.silent
                        &&& a.thread_id == cli.thread_id
                        &&& a.provided_api_url == cli.api_url is Some
                        &&& a.provided_bot_token == cli.bot_token is Some
                        &&& a.provided_chat_id == cli.chat_id is Some
                        &&& a.buttons@.len() == raw.len() + (if cli.button_text is Some {
                            2int
                        } else {
                            0int
                        })
                        &&& forall|j: int|
                            0 <= j < raw.len() ==> button_view(#[trigger] a.buttons@[j])
                                == parsed_button(raw[j]@)->Ok_0
                        &&& cli.button_text is Some ==> button_view(a.buttons@[raw.len() as int])
                            is None && button_view(a.buttons@[raw.len() as int + 1]) == Some(
                            (cli.button_text->0@, cli.button_url->0@),
                        )
                    }
                }
            },
    {
        if cli.setup {
            return Ok(
                ParsedArgs::Setup(
                    SetupArgs { api_url: cli.api_url, bot_token: cli.bot_token, chat_id: cli.chat_id },
                ),
            );
        }
        if cli.show_config {
            return Ok(ParsedArgs::ShowConfig);
        }
        let fc = match file_config {
            Some(c) => c,
            None => {
                return Err(ArgsError::ConfigNotFound);
            },
        };
        if !fc.has_required_fields() {
            return Err(ArgsError::ConfigIncomplete);
        }
        let CliInput {
            setup: _,
            show_config: _,
            api_url,
            bot_token,
            chat_id,
            media,
            spoiler,
            streaming,
            delay_secs,
            no_group,
            as_file,
            caption,
            buttons: raw_buttons,
            button_text,
            button_url,
            silent,
            check,
            thread_id,
            message,
        } = cli;
        let mut buttons = match parse_button_specs(&raw_buttons) {
            Ok(b) => b,
            Err(e) => {
                return Err(e);
            },
        };
        match (button_text, button_url) {
            (Some(text), Some(url)) => {
                buttons.push(ButtonSpec::RowBreak);
                buttons.push(ButtonSpec::Link { text, url });
            },
            (None, None) => {},
            _ => {
                return Err(ArgsError::ButtonPairIncomplete);
            },
        }
        let provided_api_url = api_url.is_some();
        let provided_bot_token = bot_token.is_some();
        let provided_chat_id = chat_id.is_some();
        let FileConfig { api_url: file_api_url, bot_token: file_bot_token, chat_id: file_chat_id } =
            fc;
        Ok(
            ParsedArgs::Run(
                Args {
                    api_url: resolve(api_url, file_api_url),
                    bot_token: resolve(bot_token, file_bot_token),
                    chat_id: resolve(chat_id, file_chat_id),
                    media_paths: media,
                    spoiler,
                    streaming,
                    delay_secs,
                    no_group,
                    as_file,
                    caption,
                    buttons,
                    message,
                    check,
                    silent,
                    thread_id,
                    provided_api_url,
                    provided_bot_token,
                    provided_chat_id,
                },
            ),
        )
    }
}

} // verus!
