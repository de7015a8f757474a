use notion_clipper_cli::{
    select, start, step, FlowAction, FlowEvent, FlowState, HttpMethod, HttpResponse, NotionConfig,
    NotionDatabase, NotionDatabaseList, NotionDatabaseProperty, NotionError, NotionRichText,
    PropertyMap,
};

fn descriptor(type_tag: &str) -> NotionDatabaseProperty {
    NotionDatabaseProperty {
        id: None,
        _type: type_tag.to_string(),
        date: None,
        multi_select: None,
        title: None,
        text: None,
        rich_text: None,
    }
}

fn database(id: &str, title: Option<&str>, title_key: Option<&str>) -> NotionDatabase {
    let mut properties = PropertyMap::new();
    properties.insert("Due".to_string(), descriptor("date"));
    if let Some(key) = title_key {
        properties.insert(key.to_string(), descriptor("title"));
    }
    properties.insert("Tags".to_string(), descriptor("multi_select"));
    NotionDatabase {
        created_time: String::new(),
        last_edited_time: String::new(),
        object: "database".to_string(),
        id: id.to_string(),
        title: match title {
            Some(text) => vec![NotionRichText { plain_text: Some(text.to_string()) }],
            None => vec![],
        },
        properties,
    }
}

fn listing(results: Vec<NotionDatabase>) -> NotionDatabaseList {
    NotionDatabaseList { object: "list".to_string(), results, next_cursor: None, has_more: false }
}

fn three_databases() -> NotionDatabaseList {
    listing(vec![
        database("id-0", Some("Groceries"), Some("Name")),
        database("id-1", Some("Books"), Some("Title")),
        database("id-2", Some("Films"), Some("Film")),
    ])
}

fn config(token: &str, database_id: &str, title_property: &str) -> NotionConfig {
    NotionConfig {
        access_secret: token.to_string(),
        database_id: database_id.to_string(),
        title_property: title_property.to_string(),
    }
}

fn blank() -> NotionConfig {
    NotionConfig::default()
}

fn line(text: &str) -> FlowEvent {
    FlowEvent::Line(text.to_string())
}

fn ok_answer(body: &str) -> FlowEvent {
    FlowEvent::Answer(Ok(HttpResponse { status: 200, body: body.to_string() }))
}

/// Takes a flow from its start to the point where the listing is shown.
fn until_selection(token_line: &str, list: NotionDatabaseList) -> FlowState {
    let (state, _) = start(&blank());
    let (state, _) = step(state, line(token_line));
    let (state, _) = step(state, ok_answer("{}"));
    let (state, action) = step(state, FlowEvent::Decoded(Some(list)));
    assert!(matches!(action, FlowAction::Choose(_)));
    state
}

#[test]
fn start_asks_for_the_token_and_offers_the_old_one() {
    let (state, action) = start(&config("old-secret", "d", "Name"));
    assert!(matches!(state, FlowState::AwaitToken));
    match action {
        FlowAction::AskToken { initial } => assert_eq!(initial, "old-secret"),
        other => panic!("unexpected action {:?}", other),
    }
    let (_, action) = start(&blank());
    match action {
        FlowAction::AskToken { initial } => assert_eq!(initial, ""),
        other => panic!("unexpected action {:?}", other),
    }
}

#[test]
fn token_line_is_trimmed_and_sent() {
    let (state, _) = start(&blank());
    let (state, action) = step(state, line("  secret_abc \t"));
    match state {
        FlowState::AwaitListing { token } => assert_eq!(token, "secret_abc"),
        other => panic!("unexpected state {:?}", other),
    }
    match action {
        FlowAction::Send(request) => {
            assert_eq!(request.method, HttpMethod::Get);
            assert_eq!(request.url, "https://api.notion.com/v1/databases");
            assert_eq!(
                request.headers,
                vec![("Authorization".to_string(), "Bearer secret_abc".to_string())]
            );
            assert_eq!(request.body, None);
        },
        other => panic!("unexpected action {:?}", other),
    }
}

#[test]
fn empty_token_is_passed_through() {
    for entry in ["", "   "] {
        let (state, _) = start(&blank());
        let (state, action) = step(state, line(entry));
        match state {
            FlowState::AwaitListing { token } => assert_eq!(token, ""),
            other => panic!("unexpected state {:?}", other),
        }
        match action {
            FlowAction::Send(request) => assert_eq!(request.headers[0].1, "Bearer "),
            other => panic!("unexpected action {:?}", other),
        }
    }
}

#[test]
fn successful_answer_is_handed_to_decoding() {
    let (state, _) = start(&blank());
    let (state, _) = step(state, line("t"));
    let (state, action) = step(state, ok_answer("{\"results\":[]}"));
    match state {
        FlowState::AwaitDecoding { token } => assert_eq!(token, "t"),
        other => panic!("unexpected state {:?}", other),
    }
    match action {
        FlowAction::Decode(body) => assert_eq!(body, "{\"results\":[]}"),
        other => panic!("unexpected action {:?}", other),
    }
}

#[test]
fn rejected_listing_fails_the_flow() {
    let (state, _) = start(&blank());
    let (state, _) = step(state, line("bad"));
    let answer = FlowEvent::Answer(Ok(HttpResponse { status: 401, body: "denied".to_string() }));
    let (state, action) = step(state, answer);
    assert!(matches!(action, FlowAction::Fail));
    match state {
        FlowState::Failed { error } => assert_eq!(
            error,
            NotionError::RemoteRejected { status: 401, body: "denied".to_string() }
        ),
        other => panic!("unexpected state {:?}", other),
    }
}

#[test]
fn transport_failure_fails_the_flow() {
    let (state, _) = start(&blank());
    let (state, _) = step(state, line("t"));
    let (state, action) = step(state, FlowEvent::Answer(Err("no route to host".to_string())));
    assert!(matches!(action, FlowAction::Fail));
    match state {
        FlowState::Failed { error } => {
            assert_eq!(error, NotionError::Transport("no route to host".to_string()))
        },
        other => panic!("unexpected state {:?}", other),
    }
}

#[test]
fn undecodable_body_fails_the_flow() {
    let (state, _) = start(&blank());
    let (state, _) = step(state, line("t"));
    let (state, _) = step(state, ok_answer("<html>"));
    let (state, action) = step(state, FlowEvent::Decoded(None));
    assert!(matches!(action, FlowAction::Fail));
    match state {
        FlowState::Failed { error } => assert_eq!(error, NotionError::MalformedSchema),
        other => panic!("unexpected state {:?}", other),
    }
}

#[test]
fn untitled_database_fails_the_flow() {
    let (state, _) = start(&blank());
    let (state, _) = step(state, line("t"));
    let (state, _) = step(state, ok_answer("{}"));
    let list = listing(vec![
        database("id-0", Some("Groceries"), Some("Name")),
        database("id-1", None, Some("Name")),
    ]);
    let (state, action) = step(state, FlowEvent::Decoded(Some(list)));
    assert!(matches!(action, FlowAction::Fail));
    match state {
        FlowState::Failed { error } => assert_eq!(error, NotionError::MalformedSchema),
        other => panic!("unexpected state {:?}", other),
    }
}

#[test]
fn decoded_listing_is_shown() {
    let (state, _) = start(&blank());
    let (state, _) = step(state, line("t"));
    let (state, _) = step(state, ok_answer("{}"));
    let (state, action) = step(state, FlowEvent::Decoded(Some(three_databases())));
    match action {
        FlowAction::Choose(lines) => assert_eq!(
            lines,
            vec![
                "Found 3 databases, please choose one:".to_string(),
                "[0] - Groceries (id-0)".to_string(),
                "[1] - Books (id-1)".to_string(),
                "[2] - Films (id-2)".to_string(),
            ]
        ),
        other => panic!("unexpected action {:?}", other),
    }
    match state {
        FlowState::AwaitSelection { token, databases } => {
            assert_eq!(token, "t");
            assert_eq!(databases.len(), 3);
        },
        other => panic!("unexpected state {:?}", other),
    }
}

#[test]
fn selection_retries_until_a_valid_index() {
    let mut state = until_selection("t", three_databases());
    for entry in ["x", "-1", "5"] {
        let (next, action) = step(state, line(entry));
        assert!(matches!(action, FlowAction::Retry), "entry {:?}", entry);
        assert!(matches!(next, FlowState::AwaitSelection { .. }), "entry {:?}", entry);
        state = next;
    }
    let (state, action) = step(state, line("2"));
    match action {
        FlowAction::Store(record) => assert_eq!(record, config("t", "id-2", "Film")),
        other => panic!("unexpected action {:?}", other),
    }
    match state {
        FlowState::AwaitStore { config: record } => assert_eq!(record, config("t", "id-2", "Film")),
        other => panic!("unexpected state {:?}", other),
    }
}

#[test]
fn select_reads_an_index_below_the_count() {
    assert_eq!(select("x", 3), None);
    assert_eq!(select("-1", 3), None);
    assert_eq!(select("5", 3), None);
    assert_eq!(select("3", 3), None);
    assert_eq!(select("2", 3), Some(2));
    assert_eq!(select("0", 3), Some(0));
    assert_eq!(select(" 1 \n", 3), Some(1));
    assert_eq!(select("+1", 3), Some(1));
    assert_eq!(select("", 3), None);
    assert_eq!(select("1 1", 3), None);
    assert_eq!(select("0", 0), None);
    assert_eq!(select("99999999999999999999999999999", 3), None);
}

#[test]
fn selection_never_gives_up() {
    let mut state = until_selection("t", three_databases());
    for round in 0..500 {
        let (next, action) = step(state, line(if round % 2 == 0 { "three" } else { "3" }));
        assert!(matches!(action, FlowAction::Retry));
        state = next;
    }
    let (_, action) = step(state, line("0"));
    match action {
        FlowAction::Store(record) => assert_eq!(record, config("t", "id-0", "Name")),
        other => panic!("unexpected action {:?}", other),
    }
}

#[test]
fn empty_listing_accepts_no_entry() {
    let mut state = until_selection("t", listing(vec![]));
    for entry in ["0", "1", "", "x"] {
        let (next, action) = step(state, line(entry));
        assert!(matches!(action, FlowAction::Retry));
        state = next;
    }
    assert!(matches!(state, FlowState::AwaitSelection { .. }));
}

#[test]
fn database_without_title_property_cannot_be_chosen() {
    let list = listing(vec![
        database("id-0", Some("Groceries"), Some("Name")),
        database("id-1", Some("Loose"), None),
    ]);
    let state = until_selection("t", list);
    let (state, action) = step(state, line("1"));
    assert!(matches!(action, FlowAction::Fail));
    match state {
        FlowState::Failed { error } => assert_eq!(error, NotionError::MalformedSchema),
        other => panic!("unexpected state {:?}", other),
    }
}

#[test]
fn incomplete_record_is_never_stored() {
    let no_id = listing(vec![database("", Some("Groceries"), Some("Name"))]);
    let (state, action) = step(until_selection("t", no_id), line("0"));
    assert!(matches!(action, FlowAction::Fail));
    assert!(matches!(state, FlowState::Failed { error: NotionError::MalformedSchema }));

    let empty_token = until_selection("  ", three_databases());
    let (state, action) = step(empty_token, line("0"));
    assert!(matches!(action, FlowAction::Fail));
    assert!(matches!(state, FlowState::Failed { error: NotionError::MalformedSchema }));
}

#[test]
fn stored_record_finishes_the_flow() {
    let state = until_selection("t", three_databases());
    let (state, _) = step(state, line("1"));
    let (state, action) = step(state, FlowEvent::Stored(Ok(())));
    assert!(matches!(action, FlowAction::Finish));
    match state {
        FlowState::Done { config: record } => assert_eq!(record, config("t", "id-1", "Title")),
        other => panic!("unexpected state {:?}", other),
    }
}

#[test]
fn store_failure_fails_the_flow() {
    let state = until_selection("t", three_databases());
    let (state, _) = step(state, line("1"));
    let (state, action) = step(state, FlowEvent::Stored(Err("read-only file system".to_string())));
    assert!(matches!(action, FlowAction::Fail));
    match state {
        FlowState::Failed { error } => {
            assert_eq!(error, NotionError::ConfigStore("read-only file system".to_string()))
        },
        other => panic!("unexpected state {:?}", other),
    }
}

#[test]
fn unexpected_events_change_nothing() {
    let (state, _) = start(&blank());
    let (state, action) = step(state, FlowEvent::Stored(Ok(())));
    assert!(matches!(action, FlowAction::Ignore));
    assert!(matches!(state, FlowState::AwaitToken));
    let (state, action) = step(state, ok_answer("{}"));
    assert!(matches!(action, FlowAction::Ignore));
    assert!(matches!(state, FlowState::AwaitToken));

    let (state, _) = step(state, line("t"));
    let (state, action) = step(state, line("again"));
    assert!(matches!(action, FlowAction::Ignore));
    match &state {
        FlowState::AwaitListing { token } => assert_eq!(token, "t"),
        other => panic!("unexpected state {:?}", other),
    }
    let (state, action) = step(state, FlowEvent::Decoded(None));
    assert!(matches!(action, FlowAction::Ignore));
    assert!(matches!(state, FlowState::AwaitListing { .. }));

    let state = until_selection("t", three_databases());
    let (state, action) = step(state, FlowEvent::Stored(Ok(())));
    assert!(matches!(action, FlowAction::Ignore));
    assert!(matches!(state, FlowState::AwaitSelection { .. }));

    let (state, _) = step(state, line("0"));
    let (state, action) = step(state, line("1"));
    assert!(matches!(action, FlowAction::Ignore));
    match state {
        FlowState::AwaitStore { config: record } => assert_eq!(record, config("t", "id-0", "Name")),
        other => panic!("unexpected state {:?}", other),
    }
}

#[test]
fn finished_and_failed_flows_stay_as_they_are() {
    let state = until_selection("t", three_databases());
    let (state, _) = step(state, line("0"));
    let (mut state, _) = step(state, FlowEvent::Stored(Ok(())));
    for event in [line("1"), ok_answer("{}"), FlowEvent::Decoded(None), FlowEvent::Stored(Ok(()))] {
        let (next, action) = step(state, event);
        assert!(matches!(action, FlowAction::Ignore));
        assert!(matches!(next, FlowState::Done { .. }));
        state = next;
    }

    let (state, _) = start(&blank());
    let (state, _) = step(state, line("t"));
    let (mut state, _) = step(state, FlowEvent::Answer(Err("down".to_string())));
    for event in [line("1"), ok_answer("{}"), FlowEvent::Stored(Ok(()))] {
        let (next, action) = step(state, event);
        assert!(matches!(action, FlowAction::Ignore));
        assert!(matches!(next, FlowState::Failed { .. }));
        state = next;
    }
}

#[test]
fn configuring_sends_one_get_and_stores_once() {
    let plan = notion_clipper_cli::plan_run(
        &blank(),
        &vec!["clip".to_string(), "configure".to_string()],
    );
    assert!(plan.configure);
    assert!(plan.titles.is_empty());
    assert!(!plan.help);

    let events = vec![
        line("secret"),
        ok_answer("{}"),
        FlowEvent::Decoded(Some(three_databases())),
        line("nonsense"),
        line("1"),
        FlowEvent::Stored(Ok(())),
    ];
    let (mut state, _) = start(&blank());
    let mut gets = 0;
    let mut posts = 0;
    let mut writes = 0;
    for event in events {
        let (next, action) = step(state, event);
        match action {
            FlowAction::Send(request) => {
                assert_eq!(request.url, "https://api.notion.com/v1/databases");
                match request.method {
                    HttpMethod::Get => gets += 1,
                    HttpMethod::Post => posts += 1,
                }
            },
            FlowAction::Store(_) => writes += 1,
            _ => {},
        }
        state = next;
    }
    assert_eq!((gets, posts, writes), (1, 0, 1));
    match state {
        FlowState::Done { config: record } => assert_eq!(record, config("secret", "id-1", "Title")),
        other => panic!("unexpected state {:?}", other),
    }
}

#[test]
fn same_choice_gives_the_same_record_to_store() {
    let mut records = Vec::new();
    for _ in 0..2 {
        let state = until_selection(" secret ", three_databases());
        let (_, action) = step(state, line("2"));
        match action {
            FlowAction::Store(record) => records.push(record),
            other => panic!("unexpected action {:?}", other),
        }
    }
    assert_eq!(records[0], records[1]);
    assert_eq!(records[0], config("secret", "id-2", "Film"));
}
