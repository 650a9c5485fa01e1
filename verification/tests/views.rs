use agentic::app::{ToolAvailability, ToolDashboardItem};
use agentic::chat_view::{StyledLine, Tone};
use agentic::order::{sort_strings, sorted_unique, str_lt};
use agentic::pages::{
    age_label, command_input_line, descriptor_lines, execution_label, fixed, home_footer,
    list_heading, list_scroll, missing_page_lines, output_policy_label, prompt_area_lines,
    risk_label, risk_style, row_title, sessions_lines, status_label, tool_detail_lines, tool_row,
    tools_lines, turns_label,
};
use agentic::protocol::{
    AgentMode, RpcError, RpcResponse, SessionSummary, ToolDescriptor, ToolExecutionKind,
    ToolOutputPolicy, ToolRisk,
};
use agentic::sse::{endpoint, rpc_result, EventBuffer, FetchError};
use agentic::weather::{
    eq_ignore_ascii_case, pick_place, weather_summary, Place, TemperatureUnit, WeatherToolError,
};
use serde_json::Value;

fn texts(line: &StyledLine) -> Vec<(String, Tone)> {
    line.spans.iter().map(|s| (s.text.clone(), s.tone)).collect()
}

fn joined(line: &StyledLine) -> String {
    line.spans.iter().map(|s| s.text.as_str()).collect()
}

fn place(name: &str, country: &str, code: &str) -> Place {
    Place {
        name: name.to_owned(),
        country: Some(country.to_owned()),
        country_code: Some(code.to_owned()),
        admin1: None,
    }
}

fn descriptor(name: &str) -> ToolDescriptor {
    ToolDescriptor {
        name: name.to_owned(),
        description: "reads".to_owned(),
        execution: ToolExecutionKind::LocalProxy,
        approval_required: false,
        risk: ToolRisk::ReadOnly,
        output_policy: ToolOutputPolicy::SummaryOnly,
        parameters: Value::Null,
    }
}

fn item(name: &str) -> ToolDashboardItem {
    ToolDashboardItem {
        descriptor: descriptor(name),
        availability: ToolAvailability::Active,
        tool_id: None,
        version_id: None,
        draft_script: None,
        draft_language: None,
    }
}

#[test]
fn weather_places_and_codes() {
    let places = vec![place("Paris", "United States", "US"), place("Paris", "France", "FR")];
    assert_eq!(pick_place(&places, Some("fr")), Some(1));
    assert_eq!(pick_place(&places, Some("France")), Some(1));
    assert_eq!(pick_place(&places, Some("Japan")), Some(0));
    assert_eq!(pick_place(&places, None), Some(0));
    assert_eq!(pick_place(&Vec::new(), None), None);
    let mut p = place("Springfield", "United States", "US");
    p.admin1 = Some("Illinois".to_owned());
    assert_eq!(p.display_name(), "Springfield, Illinois, United States");
    assert_eq!(weather_summary(Some(0)), "Clear sky");
    assert_eq!(weather_summary(Some(2)), "Partly cloudy");
    assert_eq!(weather_summary(Some(81)), "Rain showers");
    assert_eq!(weather_summary(Some(99)), "Thunderstorm");
    assert_eq!(weather_summary(Some(4)), "Weather conditions unavailable");
    assert_eq!(weather_summary(None), "Weather conditions unavailable");
    assert_eq!(TemperatureUnit::from_arg(Some("FAHRENHEIT")), TemperatureUnit::Fahrenheit);
    assert_eq!(TemperatureUnit::from_arg(Some("kelvin")), TemperatureUnit::Celsius);
    assert_eq!(TemperatureUnit::from_arg(None), TemperatureUnit::Celsius);
    assert_eq!(TemperatureUnit::Fahrenheit.as_query_value(), "fahrenheit");
    assert!(eq_ignore_ascii_case("Berlin", "bERLIN"));
    assert!(!eq_ignore_ascii_case("Berlin", "Berlim"));
    assert_eq!(
        WeatherToolError::city_not_found("Atlantis", Some("GR")).message(),
        "Could not find a city named 'Atlantis' in 'GR'. Please check the spelling."
    );
    assert_eq!(
        WeatherToolError::lookup_failed("Oslo").message(),
        "Weather lookup failed for 'Oslo'. Please try again later."
    );
}

#[test]
fn event_stream_frames() {
    let mut b = EventBuffer::new();
    b.push("data: {\"a\":1}\n");
    assert!(b.next_frame().is_none());
    b.push("\nevent: x\n\ndata: two\nid: 5\n\ndata: tail");
    assert_eq!(b.next_frame(), Some(Some("{\"a\":1}".to_owned())));
    assert_eq!(b.next_frame(), Some(None));
    assert_eq!(b.next_frame(), Some(Some("two".to_owned())));
    assert!(b.next_frame().is_none());
    b.push("\n\n");
    assert_eq!(b.next_frame(), Some(Some("tail".to_owned())));
}

#[test]
fn rpc_replies_and_fetch_errors() {
    let ok: RpcResponse<u32> = RpcResponse::success(1, 7);
    assert_eq!(rpc_result(ok).ok(), Some(7));
    let bad: RpcResponse<u32> = RpcResponse::failure(1, RpcError::method_not_found("x".to_owned()));
    match rpc_result(bad) {
        Err(e) => assert_eq!(e.message(), "RPC failed: method not found: x (-32601)"),
        Ok(_) => panic!("expected an error"),
    }
    let empty = RpcResponse::<u32> { jsonrpc: "2.0".to_owned(), result: None, error: None, id: 1 };
    assert!(matches!(rpc_result(empty), Err(FetchError::MissingResult)));
    assert_eq!(FetchError::Http("refused".to_owned()).message(), "HTTP request failed: refused");
    assert_eq!(endpoint("http://127.0.0.1:3000", "/rpc"), "http://127.0.0.1:3000/rpc");
}

#[test]
fn ordering_of_strings() {
    assert!(str_lt("a", "b"));
    assert!(str_lt("a", "ab"));
    assert!(!str_lt("b", "a"));
    assert!(!str_lt("a", "a"));
    let v = vec!["pear".to_owned(), "apple".to_owned(), "fig".to_owned(), "apple".to_owned()];
    let mut expected = v.clone();
    expected.sort();
    assert_eq!(sort_strings(v.clone()), expected);
    expected.dedup();
    assert_eq!(sorted_unique(v), expected);
}

#[test]
fn list_rows_and_labels() {
    assert_eq!(list_scroll(2, 5), 0);
    assert_eq!(list_scroll(7, 5), 3);
    assert_eq!(age_label(100, 90), "just now");
    assert_eq!(age_label(1000, 100), "15m ago");
    assert_eq!(age_label(10_000, 0), "2h ago");
    assert_eq!(age_label(200_000, 0), "2d ago");
    assert_eq!(age_label(0, 50), "just now");
    assert_eq!(turns_label(1), "1 turn");
    assert_eq!(turns_label(3), "3 turns");
    let long = "y".repeat(60);
    assert_eq!(row_title(&long), format!("{}...", "y".repeat(55)));
    assert_eq!(row_title("short"), "short");
    assert_eq!(fixed("abc", 5), "abc  ");
    assert_eq!(fixed("abcdef", 3), "abc");
    assert_eq!(fixed("äö", 3), "äö ");
    assert_eq!(execution_label(ToolExecutionKind::ServerNative), "Server");
    assert_eq!(risk_label(ToolRisk::DeletesDirectories), "DeletesDirs");
    assert_eq!(risk_style(ToolRisk::ExternalProcess), Tone::Red);
    assert_eq!(output_policy_label(ToolOutputPolicy::FullToModelSummaryToUi), "full to model, summary to UI");
    assert_eq!(status_label(ToolAvailability::MissingLocally), "Missing local");
    assert_eq!(
        texts(&list_heading("Sessions", 4)),
        vec![
            (" ".to_owned(), Tone::Plain),
            ("Sessions".to_owned(), Tone::CyanBold),
            ("  4 total ".to_owned(), Tone::Dim),
        ]
    );
}

#[test]
fn sessions_list_lines() {
    let empty = sessions_lines(&Vec::new(), 0, 5, 0);
    assert_eq!(empty.len(), 1);
    assert_eq!(joined(&empty[0]), "No sessions yet. Start a conversation from the home screen.");
    let ss: Vec<SessionSummary> = (0..4)
        .map(|i| SessionSummary {
            id: format!("s{i}"),
            title: format!("title {i}"),
            updated_at_secs: 0,
            message_count: i,
        })
        .collect();
    let lines = sessions_lines(&ss, 3, 2, 120);
    assert_eq!(lines.len(), 2);
    assert_eq!(joined(&lines[0]), "    title 2  2 turns  2m ago");
    assert_eq!(joined(&lines[1]), "  \u{25b6} title 3  3 turns  2m ago");
    assert_eq!(lines[1].spans[1].tone, Tone::WhiteBold);
}

#[test]
fn tools_list_and_detail_lines() {
    let items = vec![item("alpha"), item("beta")];
    let loading = tools_lines(&items, false, 0, 5);
    assert_eq!(loading.len(), 2);
    assert_eq!(joined(&loading[1]), "Loading tools...");
    let none = tools_lines(&Vec::new(), true, 0, 5);
    assert_eq!(joined(&none[1]), "No tools reported by CLI or server.");
    let rows = tools_lines(&items, true, 1, 5);
    assert_eq!(rows.len(), 3);
    assert_eq!(
        joined(&rows[2]),
        format!(" \u{25b6} {:<20}  {:<11}  {:<17}  {:<8}  Active", "beta", "LocalProxy", "ReadOnly", "No")
    );
    assert_eq!(joined(&tool_row(&items[0], false)).chars().take(3).collect::<String>(), "   ");
    let detail = tool_detail_lines(&items, true, 0, &Some("saved".to_owned()));
    assert_eq!(detail.len(), 10);
    assert_eq!(joined(&detail[3]), "kind > LocalProxy");
    assert_eq!(joined(&detail[5]), "approval > automatic");
    assert_eq!(joined(&detail[9]), "notice > saved");
    let nothing = tool_detail_lines(&items, false, 9, &None);
    assert_eq!(joined(&nothing[0]), "Waiting for server registry...");
    assert_eq!(descriptor_lines(&descriptor("x"), ToolAvailability::Draft).len(), 8);
}

#[test]
fn home_and_page_lines() {
    let empty = prompt_area_lines("");
    assert_eq!(joined(&empty[0]), "Ask Faaido anything about your process...");
    let two = prompt_area_lines("a\nb");
    assert_eq!(two.len(), 2);
    assert_eq!(texts(&two[1]), vec![("b".to_owned(), Tone::Cyan)]);
    let footer = home_footer(12, AgentMode::Plan);
    assert!(joined(&footer).contains("12 chars"));
    assert!(joined(&footer).contains("MODE plan"));
    let page = missing_page_lines("/x");
    assert_eq!(page.len(), 6);
    assert_eq!(joined(&page[0]), "Not Found");
    assert_eq!(joined(&page[2]), "/x");
    assert_eq!(joined(&command_input_line("")), "Type /home, /about, or /settings...");
    assert_eq!(joined(&command_input_line("/ho")), "/ho");
}

#[test]
fn the_cursor_row_is_always_visible() {
    for height in 1..6usize {
        for cursor in 0..20usize {
            let scroll = list_scroll(cursor, height);
            assert!(scroll <= cursor && cursor < scroll + height);
        }
    }
}

#[test]
fn settings_page_text() {
    let page = agentic::pages::settings_page_lines();
    assert_eq!(joined(&page[0]), "Settings");
    assert_eq!(joined(&page[2]), "Configuration controls will appear here.");
    assert_eq!(joined(&page[5]), "Commands  /home  /about  /settings");
}

#[test]
fn search_reads_only_small_files_while_matches_are_wanted() {
    assert!(agentic::search::should_search_file(0, 10, 512 * 1024));
    assert!(!agentic::search::should_search_file(0, 10, 512 * 1024 + 1));
    assert!(!agentic::search::should_search_file(10, 10, 1));
}
