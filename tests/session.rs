use sendtg::args::{Args, ParsedArgs};
use sendtg::config::{
    check_setup, config_summary, setup_input, setup_start, FileConfig, SetupError, SetupStep,
};
use sendtg::progress::{ProgressEvent, ProgressState};
use sendtg::session::{
    build_message_request, chat_name_from_reply, check_action, config_notices, decide_run,
    pick_check_action, ChatInfo, ChatReply, RunAction, RunError, Session, SessionError,
    CHECK_ACTION_COUNT,
};

fn info(title: Option<&str>, first: Option<&str>, last: Option<&str>) -> ChatReply {
    ChatReply {
        ok: true,
        result: Some(ChatInfo {
            title: title.map(|s| s.to_string()),
            first_name: first.map(|s| s.to_string()),
            last_name: last.map(|s| s.to_string()),
        }),
        description: None,
    }
}

#[test]
fn chat_names_from_replies() {
    assert_eq!(chat_name_from_reply(info(Some("Group"), Some("A"), None)), "Group");
    assert_eq!(chat_name_from_reply(info(None, Some("Ann"), Some("Lee"))), "Ann Lee");
    assert_eq!(chat_name_from_reply(info(None, Some(" Ann "), Some("  "))), "Ann");
    assert_eq!(chat_name_from_reply(info(None, Some("  "), None)), "Unknown");
    assert_eq!(chat_name_from_reply(info(None, None, Some("Lee"))), "Unknown");
    let failed = ChatReply { ok: false, result: None, description: Some("chat not found".to_string()) };
    assert_eq!(chat_name_from_reply(failed), "Error: chat not found");
    let bare = ChatReply { ok: false, result: None, description: None };
    assert_eq!(chat_name_from_reply(bare), "Unknown");
}

#[test]
fn session_checks_credentials_in_order() {
    let e = |a: &str, t: &str, c: &str| {
        Session::new(a.to_string(), t.to_string(), c.to_string()).err()
    };
    assert_eq!(e("", " ", ""), Some(SessionError::MissingBotToken));
    assert_eq!(e("", "t", " "), Some(SessionError::MissingChatId));
    assert_eq!(e(" ", "t", "c"), Some(SessionError::MissingApiUrl));
    assert_eq!(e("u", "t", "c"), None);
}

#[test]
fn session_builds_endpoints_and_tracks_the_chat_name() {
    let mut s = Session::new("https://api.example/bot".to_string(), "123:abc".to_string(), "42".to_string()).unwrap();
    assert_eq!(s.chat_name, "Unknown");
    assert_eq!(s.endpoint("sendPhoto"), "https://api.example/bot123:abc/sendPhoto");
    s.apply_chat_reply(Some(info(Some("Team"), None, None)));
    assert_eq!(s.chat_name, "Team");
    s.apply_chat_reply(None);
    assert_eq!(s.chat_name, "Team");
    s.apply_chat_reply(Some(info(None, None, None)));
    assert_eq!(s.chat_name, "Unknown");
    assert_eq!(
        s.sanitize("error sending to https://api.example/bot123:abc/sendPhoto"),
        "error sending to https://api.example/botREDACTED/sendPhoto"
    );
}

fn run_args(media: Vec<String>, message: Option<String>, check: bool) -> Args {
    let cli = sendtg::args::CliInput {
        setup: false,
        show_config: false,
        api_url: None,
        bot_token: None,
        chat_id: None,
        media,
        spoiler: false,
        streaming: false,
        delay_secs: None,
        no_group: false,
        as_file: false,
        caption: None,
        buttons: Vec::new(),
        button_text: None,
        button_url: None,
        silent: false,
        check,
        thread_id: None,
        message,
    };
    let fc = FileConfig {
        api_url: Some("u".to_string()),
        bot_token: Some("t".to_string()),
        chat_id: Some("c".to_string()),
    };
    match Args::parse(cli, Some(fc)) {
        Ok(ParsedArgs::Run(a)) => a,
        _ => panic!("expected a run"),
    }
}

#[test]
fn run_decisions() {
    assert_eq!(decide_run(&run_args(vec![], None, false)), Err(RunError::NoInput));
    assert_eq!(decide_run(&run_args(vec![], None, true)), Ok(RunAction::Check));
    assert_eq!(decide_run(&run_args(vec!["a".to_string()], Some("m".to_string()), true)), Ok(RunAction::SendMedia));
    assert_eq!(decide_run(&run_args(vec![], Some("m".to_string()), false)), Ok(RunAction::SendMessage));
}

#[test]
fn notices_about_configured_settings() {
    let n = config_notices(false, false, false);
    assert!(n.api_url && n.credentials);
    let n = config_notices(true, false, false);
    assert!(!n.api_url && n.credentials);
    let n = config_notices(false, true, false);
    assert!(!n.api_url && !n.credentials);
}

#[test]
fn message_request_unescapes_and_keeps_silence() {
    let m = build_message_request("line1\\nline2", true);
    assert_eq!(m.text, "line1\nline2");
    assert!(m.disable_notification);
}

#[test]
fn check_actions_vocabulary() {
    assert_eq!(check_action(0), "typing");
    assert_eq!(check_action(10), "upload_video_note");
    let all: Vec<&str> = (0..CHECK_ACTION_COUNT).map(check_action).collect();
    for _ in 0..20 {
        assert!(all.contains(&pick_check_action()));
    }
}

#[test]
fn setup_prefers_provided_values() {
    let mut target = Some("old".to_string());
    assert_eq!(setup_start(&mut target, Some("  new ".to_string())), SetupStep::Done);
    assert_eq!(target, Some("new".to_string()));
    let mut target = Some("old".to_string());
    assert_eq!(setup_start(&mut target, Some("   ".to_string())), SetupStep::Ask { has_current: true });
    assert_eq!(target, Some("old".to_string()));
}

#[test]
fn setup_input_steps() {
    let mut target = None;
    assert_eq!(setup_input(&mut target, String::new()), SetupStep::Required);
    assert_eq!(setup_input(&mut target, "value".to_string()), SetupStep::Done);
    assert_eq!(target, Some("value".to_string()));
    assert_eq!(setup_input(&mut target, String::new()), SetupStep::Done);
    assert_eq!(target, Some("value".to_string()));
}

#[test]
fn setup_reports_first_missing_setting() {
    let mut c = FileConfig::empty();
    assert_eq!(check_setup(&c), Err(SetupError::MissingApiUrl));
    c.api_url = Some("u".to_string());
    assert_eq!(check_setup(&c), Err(SetupError::MissingBotToken));
    c.bot_token = Some("t".to_string());
    assert_eq!(check_setup(&c), Err(SetupError::MissingChatId));
    c.chat_id = Some("c".to_string());
    assert_eq!(check_setup(&c), Ok(()));
}

#[test]
fn config_writes_and_summaries() {
    let c = FileConfig {
        api_url: Some("  ".to_string()),
        bot_token: Some(" 1234567890:SECRET ".to_string()),
        chat_id: None,
    };
    let w = FileConfig {
        api_url: c.api_url.clone(),
        bot_token: c.bot_token.clone(),
        chat_id: None,
    }
    .prepared_for_write();
    assert_eq!(w.api_url, None);
    assert_eq!(w.bot_token, Some(" 1234567890:SECRET ".to_string()));
    assert!(!c.has_required_fields());
    let n = c.normalized();
    assert_eq!(n.api_url, None);
    assert_eq!(n.bot_token, Some("1234567890:SECRET".to_string()));
    let s = config_summary(&n);
    assert_eq!(s.api_url, "<not set>");
    assert_eq!(s.chat_id, "<not set>");
    assert_eq!(s.bot_token, format!("1234567890{}", "*".repeat(30)));
    let odd = FileConfig { api_url: None, bot_token: Some("123456789é0123".to_string()), chat_id: None };
    assert_eq!(config_summary(&odd).bot_token, format!("123456789{}", "*".repeat(30)));
}

#[test]
fn sanitize_leaves_no_copy_of_the_token() {
    let s = Session::new("u".to_string(), "RED".to_string(), "c".to_string()).unwrap();
    let out = s.sanitize("failed: RED");
    assert!(!out.contains("RED"));
    let t = Session::new("u".to_string(), "123:RED".to_string(), "c".to_string()).unwrap();
    let out = t.sanitize("123:123:RED");
    assert!(!out.contains("123:RED"));
    assert_eq!(out, "REDACTED");
}

#[test]
fn progress_reports_finish_once() {
    let mut p = ProgressState::new(10);
    assert_eq!(p.on_read(4), ProgressEvent::Advance { start: true, amount: 4 });
    assert_eq!(p.on_read(6), ProgressEvent::Advance { start: false, amount: 6 });
    assert_eq!(p.transferred, 10);
    assert_eq!(p.on_read(0), ProgressEvent::Finish { start: false });
    assert_eq!(p.on_read(0), ProgressEvent::Nothing);
    assert_eq!(p.on_drop(), ProgressEvent::Nothing);
    let mut empty = ProgressState::new(0);
    assert_eq!(empty.on_read(0), ProgressEvent::Finish { start: true });
    assert_eq!(empty.on_read(0), ProgressEvent::Nothing);
    assert_eq!(empty.on_drop(), ProgressEvent::Nothing);
    let mut empty_dropped = ProgressState::new(0);
    assert_eq!(empty_dropped.on_drop(), ProgressEvent::Finish { start: true });
    let mut dropped = ProgressState::new(5);
    assert_eq!(dropped.on_drop(), ProgressEvent::Finish { start: true });
}
