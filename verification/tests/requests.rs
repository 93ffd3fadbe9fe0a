use todoist::api::Request;
use todoist::api::TodoistAPI;
use todoist::api::TodoistAPIError;
use todoist::api::BASE_URL;
use todoist::label::Label;
use todoist::params::render_query;
use todoist::project::Project;
use todoist::section::Section;
use todoist::section::SectionParams;
use todoist::section::SectionParamsBuilder;
use todoist::task::Task;
use todoist::task::TaskParams;
use todoist::task::TaskParamsBuilder;

fn client() -> TodoistAPI {
    TodoistAPI::new("0123456789abcdef").unwrap()
}

fn pair(name: &str, value: &str) -> (String, String) {
    (name.to_string(), value.to_string())
}

fn a_project(id: u64) -> Project {
    Project {
        id,
        name: "Errands".to_string(),
        color: 30,
        parent_id: 0,
        order: 1,
        comment_count: 0,
        shared: false,
        favorite: false,
        inbox_project: false,
        team_inbox: false,
        sync_id: 0,
    }
}

#[test]
fn it_works() {
    assert_eq!(2 + 2, 4);
}

#[test]
fn a_client_holds_the_base_and_the_header() {
    let api = TodoistAPI::new("secret").unwrap();
    assert_eq!(api.base_url, "https://api.todoist.com/rest/v1/");
    assert_eq!(api.base_url, BASE_URL);
    assert_eq!(api.authorization, "Bearer secret");
}

#[test]
fn a_base_is_kept_as_the_parser_writes_it() {
    let api = TodoistAPI::with_base_url("HTTPS://Example.COM:443/api/../rest/", "t").unwrap();
    assert_eq!(api.base_url, "https://example.com/rest/");
    assert_eq!(api.get_labels().unwrap().url, "https://example.com/rest/labels");
}

#[test]
fn token_with_newline_is_refused() {
    assert_eq!(TodoistAPI::new("abc\ndef"), Err(TodoistAPIError::InvalidToken));
    assert_eq!(TodoistAPI::new("\n"), Err(TodoistAPIError::InvalidToken));
    assert_eq!(TodoistAPI::new("abc\n"), Err(TodoistAPIError::InvalidToken));
}

#[test]
fn tokens_with_control_characters_are_refused() {
    for token in ["a\rb", "a\0b", "a\u{7f}b", "a\u{1b}b", "\u{1f}", "a\u{b}"] {
        assert_eq!(TodoistAPI::new(token), Err(TodoistAPIError::InvalidToken), "{:?}", token);
    }
}

#[test]
fn other_tokens_are_taken() {
    for token in ["", "abc", "a b", "a\tb", "~!@#$%^&*()", "cl\u{e9}", "\u{80}", "\u{1f511}"] {
        let api = TodoistAPI::new(token).unwrap();
        assert_eq!(api.authorization, format!("Bearer {}", token));
    }
}

#[test]
fn a_base_that_does_not_parse_is_refused_first() {
    assert_eq!(TodoistAPI::with_base_url("no address", "t"), Err(TodoistAPIError::MalformedUrl));
    assert_eq!(TodoistAPI::with_base_url("", "t"), Err(TodoistAPIError::MalformedUrl));
    assert_eq!(TodoistAPI::with_base_url("/rest/v1/", "t"), Err(TodoistAPIError::MalformedUrl));
    assert_eq!(TodoistAPI::with_base_url("no address", "a\nb"), Err(TodoistAPIError::MalformedUrl));
    assert_eq!(
        TodoistAPI::with_base_url("https://example.com/", "a\nb"),
        Err(TodoistAPIError::InvalidToken)
    );
}

#[test]
fn each_resource_has_its_address() {
    let api = client();
    assert_eq!(api.get_projects().unwrap().url, "https://api.todoist.com/rest/v1/projects");
    assert_eq!(api.get_labels().unwrap().url, "https://api.todoist.com/rest/v1/labels");
    assert_eq!(
        api.get_sections(SectionParams::default()).unwrap().url,
        "https://api.todoist.com/rest/v1/sections"
    );
    assert_eq!(
        api.get_tasks(TaskParams::default()).unwrap().url,
        "https://api.todoist.com/rest/v1/tasks"
    );
    assert_eq!(api.get_project(42).unwrap().url, "https://api.todoist.com/rest/v1/projects/42");
    assert_eq!(api.get_project(0).unwrap().url, "https://api.todoist.com/rest/v1/projects/0");
    assert_eq!(
        api.get_project(u64::MAX).unwrap().url,
        "https://api.todoist.com/rest/v1/projects/18446744073709551615"
    );
}

#[test]
fn every_request_carries_the_header() {
    let api = client();
    let expected = "Bearer 0123456789abcdef";
    assert_eq!(api.get_projects().unwrap().authorization, expected);
    assert_eq!(api.get_project(1).unwrap().authorization, expected);
    assert_eq!(api.get_labels().unwrap().authorization, expected);
    assert_eq!(api.get_tasks(TaskParams::default()).unwrap().authorization, expected);
    assert_eq!(api.get_sections(SectionParams::default()).unwrap().authorization, expected);
}

#[test]
fn the_shorthands_ask_for_the_same() {
    let api = client();
    assert_eq!(Project::get_all(&api), api.get_projects());
    assert_eq!(Project::get(42, &api), api.get_project(42));
    assert_eq!(Label::get_all(&api), api.get_labels());
    assert_eq!(Task::get_all(&api), api.get_tasks(TaskParams::default()));
    assert_eq!(Section::get_all(&api), api.get_sections(SectionParams::default()));
    assert_eq!(
        Task::get_all(&api),
        Ok(Request {
            url: "https://api.todoist.com/rest/v1/tasks".to_string(),
            authorization: "Bearer 0123456789abcdef".to_string(),
        })
    );
}

#[test]
fn tasks_of_a_project_are_a_task_listing() {
    let api = client();
    let request = a_project(2203306141).get_tasks(&api).unwrap();
    assert_eq!(request.url, "https://api.todoist.com/rest/v1/tasks?project_id=2203306141");
    assert_eq!(
        a_project(7).get_tasks(&api),
        TaskParamsBuilder::default().project_id(7).call(&api)
    );
}

#[test]
fn nothing_set_gives_no_query() {
    let api = client();
    assert_eq!(TaskParams::default().query_pairs(), vec![]);
    assert_eq!(render_query(&TaskParams::default().query_pairs()), "");
    assert_eq!(render_query(&vec![]), "");
    assert_eq!(
        TaskParamsBuilder::default().call(&api).unwrap().url,
        "https://api.todoist.com/rest/v1/tasks"
    );
    assert_eq!(SectionParams::default().query_pairs(), vec![]);
    assert_eq!(
        SectionParamsBuilder::default().call(&api).unwrap().url,
        "https://api.todoist.com/rest/v1/sections"
    );
}

#[test]
fn a_project_alone_gives_one_parameter() {
    let api = client();
    let params = TaskParamsBuilder::default().project_id(42).build().unwrap();
    assert_eq!(params.query_pairs(), vec![pair("project_id", "42")]);
    assert_eq!(render_query(&params.query_pairs()), "project_id=42");
    assert_eq!(
        api.get_tasks(params).unwrap().url,
        "https://api.todoist.com/rest/v1/tasks?project_id=42"
    );
    let sections = SectionParamsBuilder::default().project_id(42).build().unwrap();
    assert_eq!(sections, SectionParams { project_id: Some(42) });
    assert_eq!(sections.query_pairs(), vec![pair("project_id", "42")]);
    assert_eq!(
        api.get_sections(sections).unwrap().url,
        "https://api.todoist.com/rest/v1/sections?project_id=42"
    );
    assert_eq!(
        SectionParamsBuilder::default().project_id(42).call(&api).unwrap().url,
        "https://api.todoist.com/rest/v1/sections?project_id=42"
    );
}

#[test]
fn ids_keep_their_order() {
    let api = client();
    let params = TaskParamsBuilder::default().ids(vec![3, 1, 2]).build().unwrap();
    assert_eq!(params.query_pairs(), vec![pair("ids", "3,1,2")]);
    assert_eq!(render_query(&params.query_pairs()), "ids=3%2C1%2C2");
    assert_eq!(
        api.get_tasks(params).unwrap().url,
        "https://api.todoist.com/rest/v1/tasks?ids=3%2C1%2C2"
    );
    let none = TaskParamsBuilder::default().ids(vec![]).build().unwrap();
    assert_eq!(none.query_pairs(), vec![pair("ids", "")]);
    assert_eq!(api.get_tasks(none).unwrap().url, "https://api.todoist.com/rest/v1/tasks?ids=");
    let one = TaskParamsBuilder::default().ids(vec![9]).build().unwrap();
    assert_eq!(one.query_pairs(), vec![pair("ids", "9")]);
}

#[test]
fn the_project_comes_before_the_label() {
    let api = client();
    let one = TaskParamsBuilder::default().project_id(11).label_id(22).call(&api).unwrap();
    let other = TaskParamsBuilder::default().label_id(22).project_id(11).call(&api).unwrap();
    assert_eq!(one.url, "https://api.todoist.com/rest/v1/tasks?project_id=11&label_id=22");
    assert_eq!(other, one);
}

#[test]
fn parameters_are_sent_in_one_order() {
    let api = client();
    let mut forwards = TaskParamsBuilder::default();
    forwards
        .project_id(1)
        .label_id(2)
        .filter("today".to_string())
        .lang("en".to_string())
        .ids(vec![4, 5]);
    let mut backwards = TaskParamsBuilder::default();
    backwards
        .ids(vec![4, 5])
        .lang("en".to_string())
        .filter("today".to_string())
        .label_id(2)
        .project_id(1);
    let expected = vec![
        pair("project_id", "1"),
        pair("label_id", "2"),
        pair("filter", "today"),
        pair("lang", "en"),
        pair("ids", "4,5"),
    ];
    assert_eq!(forwards.build().unwrap().query_pairs(), expected);
    assert_eq!(backwards.build().unwrap().query_pairs(), expected);
    assert_eq!(forwards.build(), backwards.build());
    assert_eq!(
        forwards.call(&api).unwrap().url,
        "https://api.todoist.com/rest/v1/tasks?project_id=1&label_id=2&filter=today&lang=en&ids=4%2C5"
    );
    assert_eq!(forwards.call(&api), backwards.call(&api));
}

#[test]
fn a_later_value_replaces_an_earlier_one() {
    let mut builder = TaskParamsBuilder::default();
    builder.project_id(1).filter("a".to_string()).ids(vec![1]).lang("en".to_string()).label_id(5);
    builder.project_id(2).filter("b".to_string()).ids(vec![2, 3]).lang("de".to_string()).label_id(6);
    assert_eq!(
        builder.build(),
        Ok(TaskParams {
            project_id: Some(2),
            label_id: Some(6),
            filter: Some("b".to_string()),
            lang: Some("de".to_string()),
            ids: Some(vec![2, 3]),
        })
    );
    let mut sections = SectionParamsBuilder::default();
    sections.project_id(1).project_id(2);
    assert_eq!(sections.build(), Ok(SectionParams { project_id: Some(2) }));
}

#[test]
fn a_builder_starts_with_nothing_set() {
    assert_eq!(TaskParamsBuilder::default().build(), Ok(TaskParams::default()));
    assert_eq!(
        TaskParams::default(),
        TaskParams { project_id: None, label_id: None, filter: None, lang: None, ids: None }
    );
    assert_eq!(SectionParamsBuilder::default().build(), Ok(SectionParams { project_id: None }));
}

#[test]
fn a_filter_is_sent_percent_encoded() {
    let api = client();
    let request = TaskParamsBuilder::default()
        .filter("(today | overdue) & #Work".to_string())
        .lang("pt-BR".to_string())
        .call(&api)
        .unwrap();
    assert_eq!(
        request.url,
        "https://api.todoist.com/rest/v1/tasks?filter=%28today+%7C+overdue%29+%26+%23Work&lang=pt-BR"
    );
    let params = TaskParamsBuilder::default().filter("a=b&c".to_string()).build().unwrap();
    assert_eq!(params.query_pairs(), vec![pair("filter", "a=b&c")]);
    assert_eq!(render_query(&params.query_pairs()), "filter=a%3Db%26c");
}

#[test]
fn pairs_are_joined_and_encoded() {
    assert_eq!(render_query(&vec![pair("a", "1")]), "a=1");
    assert_eq!(render_query(&vec![pair("a", "1"), pair("b", "2")]), "a=1&b=2");
    assert_eq!(render_query(&vec![pair("a", ""), pair("", "b")]), "a=&=b");
    assert_eq!(render_query(&vec![pair("k k", "v+v")]), "k+k=v%2Bv");
    assert_eq!(render_query(&vec![pair("q", "caf\u{e9} \u{2603}")]), "q=caf%C3%A9+%E2%98%83");
    assert_eq!(render_query(&vec![pair("plain", "Az09*-._")]), "plain=Az09*-._");
    assert_eq!(render_query(&vec![pair("q", "~'\"/?:@")]), "q=%7E%27%22%2F%3F%3A%40");
}

#[test]
fn an_encoded_base_is_not_encoded_again() {
    let api = TodoistAPI::with_base_url("https://example.com/my%20api/v1/", "t").unwrap();
    assert_eq!(api.base_url, "https://example.com/my%20api/v1/");
    assert_eq!(api.get_projects().unwrap().url, "https://example.com/my%20api/v1/projects");
    assert_eq!(api.get_project(5).unwrap().url, "https://example.com/my%20api/v1/projects/5");
    assert_eq!(
        TaskParamsBuilder::default().label_id(8).call(&api).unwrap().url,
        "https://example.com/my%20api/v1/tasks?label_id=8"
    );
}

#[test]
fn a_reference_is_resolved_against_the_base() {
    let api = TodoistAPI::with_base_url("https://example.com/rest/v1", "t").unwrap();
    assert_eq!(api.get_projects().unwrap().url, "https://example.com/rest/projects");
    let with_query = TodoistAPI::with_base_url("https://example.com/rest/?old=1#top", "t").unwrap();
    assert_eq!(with_query.get_labels().unwrap().url, "https://example.com/rest/labels");
}

#[test]
fn a_base_that_cannot_be_joined_gives_a_malformed_url() {
    let broken = TodoistAPI {
        base_url: "nowhere".to_string(),
        authorization: "Bearer t".to_string(),
    };
    assert_eq!(broken.get_projects(), Err(TodoistAPIError::MalformedUrl));
    assert_eq!(broken.get_project(1), Err(TodoistAPIError::MalformedUrl));
    assert_eq!(broken.get_labels(), Err(TodoistAPIError::MalformedUrl));
    assert_eq!(broken.get_tasks(TaskParams::default()), Err(TodoistAPIError::MalformedUrl));
    assert_eq!(broken.get_sections(SectionParams::default()), Err(TodoistAPIError::MalformedUrl));
    assert_eq!(
        TaskParamsBuilder::default().project_id(1).call(&broken),
        Err(TodoistAPIError::MalformedUrl)
    );
    let opaque = TodoistAPI::with_base_url("mailto:someone@example.com", "t").unwrap();
    assert_eq!(opaque.get_projects(), Err(TodoistAPIError::MalformedUrl));
}

#[test]
fn a_failed_call_leaves_the_client_as_it_was() {
    let api = client();
    let before = api.clone();
    assert!(TodoistAPI::new("a\nb").is_err());
    assert_eq!(api, before);
    assert_eq!(api.get_projects().unwrap().url, "https://api.todoist.com/rest/v1/projects");
}
