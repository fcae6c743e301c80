use sendtg::args::{
    parse_button_specs, Args, ArgsError, ButtonProblem, ButtonSpec, CliInput, ParsedArgs,
    BUTTON_ROW_BREAK,
};
use sendtg::config::FileConfig;
use sendtg::markup::reply_markup;

fn cli() -> CliInput {
    CliInput {
        setup: false,
        show_config: false,
        api_url: None,
        bot_token: None,
        chat_id: None,
        media: Vec::new(),
        spoiler: false,
        streaming: false,
        delay_secs: None,
        no_group: false,
        as_file: false,
        caption: None,
        buttons: Vec::new(),
        button_text: None,
        button_url: None,
        silent: false,
        check: false,
        thread_id: None,
        message: Some("hi".to_string()),
    }
}

fn full_config() -> FileConfig {
    FileConfig {
        api_url: Some("https://api.example/bot".to_string()),
        bot_token: Some("123:abc".to_string()),
        chat_id: Some("42".to_string()),
    }
}

fn link(b: &ButtonSpec) -> Option<(String, String)> {
    match b {
        ButtonSpec::Link { text, url } => Some((text.clone(), url.clone())),
        ButtonSpec::RowBreak => None,
    }
}

#[test]
fn button_specs_parse_labels_urls_and_breaks() {
    let raw = vec![
        " Site | https://a.example ".to_string(),
        BUTTON_ROW_BREAK.to_string(),
        "Docs|https://b.example|x".to_string(),
    ];
    let specs = parse_button_specs(&raw).unwrap();
    assert_eq!(link(&specs[0]), Some(("Site".to_string(), "https://a.example".to_string())));
    assert_eq!(link(&specs[1]), None);
    assert_eq!(link(&specs[2]), Some(("Docs".to_string(), "https://b.example|x".to_string())));
}

#[test]
fn button_without_label_is_rejected() {
    let raw = vec!["ok|u".to_string(), " |https://a".to_string(), "bad".to_string()];
    match parse_button_specs(&raw) {
        Err(ArgsError::InvalidButton { entry, problem }) => {
            assert_eq!(entry, " |https://a");
            assert_eq!(problem, ButtonProblem::MissingLabel);
        }
        _ => panic!("expected an invalid button"),
    }
}

#[test]
fn button_without_url_is_rejected() {
    for bad in ["label", "label|  "] {
        match parse_button_specs(&vec![bad.to_string()]) {
            Err(ArgsError::InvalidButton { problem, .. }) => {
                assert_eq!(problem, ButtonProblem::ExpectedPair)
            }
            _ => panic!("expected an invalid button"),
        }
    }
}

#[test]
fn setup_and_show_config_need_no_configuration() {
    let mut c = cli();
    c.setup = true;
    c.bot_token = Some("t".to_string());
    match Args::parse(c, None) {
        Ok(ParsedArgs::Setup(s)) => {
            assert_eq!(s.bot_token, Some("t".to_string()));
            assert_eq!(s.api_url, None);
        }
        _ => panic!("expected setup"),
    }
    let mut c = cli();
    c.show_config = true;
    assert!(matches!(Args::parse(c, None), Ok(ParsedArgs::ShowConfig)));
}

#[test]
fn run_needs_a_complete_configuration() {
    assert!(matches!(Args::parse(cli(), None), Err(ArgsError::ConfigNotFound)));
    let mut fc = full_config();
    fc.chat_id = Some("   ".to_string());
    assert!(matches!(Args::parse(cli(), Some(fc)), Err(ArgsError::ConfigIncomplete)));
}

#[test]
fn command_line_overrides_configuration() {
    let mut c = cli();
    c.chat_id = Some("-100".to_string());
    c.media = vec!["a.jpg".to_string()];
    match Args::parse(c, Some(full_config())) {
        Ok(ParsedArgs::Run(a)) => {
            assert_eq!(a.chat_id, "-100");
            assert_eq!(a.bot_token, "123:abc");
            assert_eq!(a.api_url, "https://api.example/bot");
            assert!(a.provided_chat_id);
            assert!(!a.provided_bot_token);
            assert_eq!(a.media_paths, vec!["a.jpg".to_string()]);
        }
        _ => panic!("expected a run"),
    }
}

#[test]
fn legacy_button_pair_must_be_complete() {
    let mut c = cli();
    c.button_text = Some("Go".to_string());
    assert!(matches!(
        Args::parse(c, Some(full_config())),
        Err(ArgsError::ButtonPairIncomplete)
    ));
}

#[test]
fn legacy_button_becomes_its_own_row() {
    let mut c = cli();
    c.buttons = vec!["A|https://a".to_string(), "B|https://b".to_string()];
    c.button_text = Some("Go".to_string());
    c.button_url = Some("https://go".to_string());
    let a = match Args::parse(c, Some(full_config())) {
        Ok(ParsedArgs::Run(a)) => a,
        _ => panic!("expected a run"),
    };
    assert_eq!(a.buttons.len(), 4);
    let m = reply_markup(&a.buttons).unwrap();
    let rows: Vec<Vec<(String, String)>> = m
        .rows
        .iter()
        .map(|r| r.iter().map(|b| (b.text.clone(), b.url.clone())).collect())
        .collect();
    assert_eq!(
        rows,
        vec![
            vec![
                ("A".to_string(), "https://a".to_string()),
                ("B".to_string(), "https://b".to_string())
            ],
            vec![("Go".to_string(), "https://go".to_string())]
        ]
    );
}

#[test]
fn markup_drops_empty_rows_and_is_absent_without_buttons() {
    assert!(reply_markup(&vec![]).is_none());
    assert!(reply_markup(&vec![ButtonSpec::RowBreak, ButtonSpec::RowBreak]).is_none());
    let specs = vec![
        ButtonSpec::RowBreak,
        ButtonSpec::Link { text: "x".to_string(), url: "u".to_string() },
        ButtonSpec::RowBreak,
        ButtonSpec::RowBreak,
        ButtonSpec::Link { text: "y".to_string(), url: "v".to_string() },
    ];
    let m = reply_markup(&specs).unwrap();
    assert_eq!(m.rows.len(), 2);
    assert_eq!(m.rows[0].len(), 1);
    assert_eq!(m.rows[1][0].text, "y");
}
