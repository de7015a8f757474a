use notion_clipper_cli::{
    list_databases_outcome, list_databases_request, listed_databases, render_listing, HttpMethod,
    HttpResponse, NotionDatabase, NotionDatabaseList, NotionError, NotionRichText, PropertyMap,
};

fn database(id: &str, title: Option<&str>) -> NotionDatabase {
    NotionDatabase {
        created_time: String::new(),
        last_edited_time: String::new(),
        object: "database".to_string(),
        id: id.to_string(),
        title: match title {
            Some(text) => vec![NotionRichText { plain_text: Some(text.to_string()) }],
            None => vec![],
        },
        properties: PropertyMap::new(),
    }
}

#[test]
fn list_request_is_an_authorized_get() {
    let request = list_databases_request("secret_abc");
    assert_eq!(request.method, HttpMethod::Get);
    assert_eq!(request.url, "https://api.notion.com/v1/databases");
    assert_eq!(
        request.headers,
        vec![("Authorization".to_string(), "Bearer secret_abc".to_string())]
    );
    assert_eq!(request.body, None);
}

#[test]
fn list_request_sends_any_token() {
    assert_eq!(list_databases_request("").headers[0].1, "Bearer ");
    assert_eq!(list_databases_request("a b").headers[0].1, "Bearer a b");
}

#[test]
fn list_outcome_hands_out_the_body_on_success() {
    for status in [200u16, 206, 299] {
        let answer = Ok(HttpResponse { status, body: "{\"results\":[]}".to_string() });
        assert_eq!(list_databases_outcome(answer), Ok("{\"results\":[]}".to_string()));
    }
}

#[test]
fn list_outcome_reports_rejections() {
    for status in [199u16, 300, 401, 403, 500] {
        let answer = Ok(HttpResponse { status, body: "unauthorized".to_string() });
        assert_eq!(
            list_databases_outcome(answer),
            Err(NotionError::RemoteRejected { status, body: "unauthorized".to_string() })
        );
    }
}

#[test]
fn list_outcome_reports_transport_failures() {
    assert_eq!(
        list_databases_outcome(Err("tls handshake".to_string())),
        Err(NotionError::Transport("tls handshake".to_string()))
    );
}

#[test]
fn undecoded_listing_is_malformed() {
    assert_eq!(listed_databases(None).map(|d| d.len()), Err(NotionError::MalformedSchema));
}

#[test]
fn listing_is_read_one_page_only() {
    let list = NotionDatabaseList {
        object: "list".to_string(),
        results: vec![database("a", Some("A")), database("b", Some("B"))],
        next_cursor: Some("cursor".to_string()),
        has_more: true,
    };
    let databases = listed_databases(Some(list)).unwrap();
    assert_eq!(databases.len(), 2);
    assert_eq!(databases[0].id, "a");
    assert_eq!(databases[1].id, "b");
}

#[test]
fn listing_lines_are_numbered_from_zero() {
    let databases = vec![
        database("id-0", Some("Groceries")),
        database("id-1", Some("Books")),
        database("id-2", Some("")),
    ];
    assert_eq!(
        render_listing(&databases),
        Ok(vec![
            "Found 3 databases, please choose one:".to_string(),
            "[0] - Groceries (id-0)".to_string(),
            "[1] - Books (id-1)".to_string(),
            "[2] -  (id-2)".to_string(),
        ])
    );
}

#[test]
fn listing_of_no_database_is_the_header() {
    assert_eq!(
        render_listing(&Vec::new()),
        Ok(vec!["Found 0 databases, please choose one:".to_string()])
    );
}

#[test]
fn listing_numbers_have_as_many_digits_as_needed() {
    let databases: Vec<NotionDatabase> =
        (0..12).map(|i| database(&format!("id{}", i), Some("T"))).collect();
    let lines = render_listing(&databases).unwrap();
    assert_eq!(lines.len(), 13);
    assert_eq!(lines[0], "Found 12 databases, please choose one:");
    assert_eq!(lines[10], "[9] - T (id9)");
    assert_eq!(lines[11], "[10] - T (id10)");
    assert_eq!(lines[12], "[11] - T (id11)");
}

#[test]
fn listing_with_an_untitled_database_is_malformed() {
    let databases =
        vec![database("a", Some("A")), database("b", None), database("c", Some("C"))];
    assert_eq!(render_listing(&databases), Err(NotionError::MalformedSchema));
}

#[test]
fn error_messages() {
    assert_eq!(
        NotionError::RemoteRejected { status: 401, body: "{\"code\":\"unauthorized\"}".to_string() }
            .message(),
        "Error from Notion (401): {\"code\":\"unauthorized\"}"
    );
    assert_eq!(NotionError::Transport("timed out".to_string()).message(), "Could not reach Notion");
    assert_eq!(
        NotionError::MalformedSchema.message(),
        "Notion sent a listing of databases that cannot be used"
    );
    assert_eq!(
        NotionError::ConfigStore("disk full".to_string()).message(),
        "Could not store the configuration: disk full"
    );
}
