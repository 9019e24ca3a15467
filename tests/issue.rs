use evict::clock::{generate_id, id_from_reading};
use evict::codec::branch_or_unknown;
use evict::codec::CURRENT_VERSION;
use evict::comment::{read_flags, std_handler, Flags, FlagsHandler};
use evict::config::Config;
use evict::fsm::{NextState, StateMachine};
use evict::issue::{Issue, IssueComment, IssueStatus, IssueTag, IssueTimelineEvent, DEFAULT_STATUS_NAME};
use evict::json::{get_string_for_key, Json, Member};
use evict::timestamp::{decimal_text, Timestamp};

fn at(year: u16, month: u8, day: u8, hour: u8, minute: u8, second: u8) -> Timestamp {
    Timestamp { year, month, day, hour, minute, second }
}

fn s(text: &str) -> String {
    text.to_string()
}

fn member(key: &str, value: Json) -> Member {
    Member { key: key.to_string(), value }
}

fn text(v: &str) -> Json {
    Json::Str(v.to_string())
}

fn issue_with_id(title: &str, body: &str, author: &str, id: &str) -> Issue {
    let mut issue = Issue::new(s(title), s(body), s(author), at(2013, 5, 1, 12, 0, 0), Some(s("master")));
    issue.id = s(id);
    issue
}

fn fresh_issue(title: &str, body: &str, author: &str) -> Issue {
    Issue::new(s(title), s(body), s(author), at(2013, 5, 1, 12, 0, 0), None)
}

fn comment_with_id(body: &str, branch: &str, time: Timestamp, id: &str) -> IssueComment {
    let mut c = IssueComment::new(s("me"), s(body), Some(s(branch)), time);
    c.id = s(id);
    c
}

fn tag(name: &str, enabled: bool, time: Timestamp, id: &str) -> IssueTag {
    IssueTag::new(s(name), s("me"), enabled, time, s(id))
}

fn comment_payload(id: Option<&str>) -> Json {
    let mut ms = vec![
        member("author", text("Ann")),
        member("bodyText", text("It breaks")),
        member("branch", text("master")),
        member("time", text("2013-05-01 2013 at 10:20:30")),
    ];
    if let Some(id) = id {
        ms.push(member("id", text(id)));
    }
    Json::Object(ms)
}

fn tag_payload(with_name: bool) -> Json {
    let mut ms = vec![
        member("author", text("Ann")),
        member("enabled", Json::Boolean(true)),
        member("id", text("77")),
        member("time", text("2013-05-01 2013 at 10:20:30")),
    ];
    if with_name {
        ms.push(member("name", text("bug")));
    }
    Json::Object(ms)
}

#[test]
fn issue_equality() {
    let i1 = fresh_issue("A", "B", "C");
    let mut i2 = fresh_issue("X", "Y", "Z");
    i2.id = i1.id.clone();
    let i3 = fresh_issue("D", "E", "F");
    assert!(i1 == i2);
    assert!(i2 != i3);
}

#[test]
fn write_and_read_issue_json() {
    let title = "Foo".to_string();
    let body = "Body".to_string();
    let author = "Author".to_string();
    let issue = Issue::new(
        title.to_string(),
        body.to_string(),
        author.to_string(),
        at(2013, 5, 1, 12, 34, 56),
        None,
    );
    assert_eq!(issue.branch, "<unknown>");
    assert!(!issue.id.is_empty());
    let json = issue.no_comment_json();
    let read_result = Issue::from_json(&json);
    assert!(read_result.is_some());
    let read_issue = read_result.unwrap();
    assert!(read_issue == issue);
    assert!(read_issue.title == title);
    assert!(read_issue.author == author);
    assert!(read_issue.id == issue.id);
    assert!(read_issue.creation_time.format() == issue.creation_time.format());
}

#[test]
fn equal_ids_with_different_content_are_equal() {
    let a = issue_with_id("one", "first", "Ann", "42");
    let b = issue_with_id("two", "second", "Bob", "42");
    let c = issue_with_id("one", "first", "Ann", "43");
    assert!(a == b);
    assert!(a != c);
}

#[test]
fn round_trip_keeps_metadata_and_status() {
    let mut issue = issue_with_id("Crash", "text", "Ann", "123456");
    issue.status = IssueStatus::new(s("closed"), at(2014, 12, 31, 23, 59, 59));
    let back = Issue::from_json(&issue.no_comment_json()).unwrap();
    assert_eq!(back.title, "Crash");
    assert_eq!(back.author, "Ann");
    assert_eq!(back.id, "123456");
    assert_eq!(back.branch, "master");
    assert_eq!(back.creation_time, issue.creation_time);
    assert_eq!(back.status, issue.status);
    assert_eq!(back.body_text, "");
    assert!(back.events.is_empty());
}

#[test]
fn envelope_has_version_and_keys() {
    let issue = issue_with_id("T", "b", "a", "9");
    match issue.no_comment_json() {
        Json::Object(ms) => {
            let keys: Vec<&str> = ms.iter().map(|m| m.key.as_str()).collect();
            assert_eq!(keys, vec!["author", "branch", "evict-version", "id", "status", "time", "title"]);
            assert_eq!(get_string_for_key(&ms, "evict-version"), Some(s(CURRENT_VERSION)));
            assert_eq!(get_string_for_key(&ms, "time"), Some(s("2013-05-01 2013 at 12:00:00")));
        }
        _ => panic!("not an object"),
    }
}

fn envelope(version: Option<&str>, with_title: bool) -> Json {
    let mut ms = vec![
        member("author", text("Ann")),
        member("branch", text("master")),
        member("id", text("5")),
        member("time", text("2013-05-01 2013 at 10:20:30")),
    ];
    if let Some(v) = version {
        ms.push(member("evict-version", text(v)));
    }
    if with_title {
        ms.push(member("title", text("T")));
    }
    Json::Object(ms)
}

#[test]
fn issue_without_version_is_not_read() {
    assert!(Issue::from_json(&envelope(None, true)).is_none());
}

#[test]
fn issue_of_unknown_version_is_not_read() {
    assert!(Issue::from_json(&envelope(Some("2"), true)).is_none());
}

#[test]
fn issue_without_title_is_not_read() {
    assert!(Issue::from_json(&envelope(Some("1"), false)).is_none());
}

#[test]
fn issue_without_status_gets_default_status() {
    let issue = Issue::from_json(&envelope(Some("1"), true)).unwrap();
    assert_eq!(issue.status.name, DEFAULT_STATUS_NAME);
    assert_eq!(issue.status.last_change_time, Timestamp::zero());
    assert_eq!(issue.creation_time, at(2013, 5, 1, 10, 20, 30));
}

#[test]
fn issue_with_bad_time_is_not_read() {
    let j = Json::Object(vec![
        member("author", text("Ann")),
        member("branch", text("master")),
        member("id", text("5")),
        member("time", text("2013-05-01 at 10:20:30")),
        member("evict-version", text("1")),
        member("title", text("T")),
    ]);
    assert!(Issue::from_json(&j).is_none());
}

#[test]
fn unreadable_status_falls_back_to_default() {
    let j = Json::Object(vec![member("name", text("closed"))]);
    let st = IssueStatus::from_json(&j);
    assert_eq!(st.name, "open");
    assert_eq!(st.last_change_time, at(1900, 1, 0, 0, 0, 0));
    let ok = Json::Object(vec![
        member("name", text("closed")),
        member("time", text("2020-02-29 2020 at 01:02:03")),
    ]);
    let st = IssueStatus::from_json(&ok);
    assert_eq!(st.name, "closed");
    assert_eq!(st.last_change_time, at(2020, 2, 29, 1, 2, 3));
    assert_eq!(IssueStatus::from_json(&text("closed")), IssueStatus::default());
}

#[test]
fn tags_last_write_wins_per_name() {
    let mut issue = issue_with_id("T", "b", "a", "1");
    issue.add_tag(tag("x", true, at(2013, 1, 1, 0, 0, 1), "a"));
    issue.add_tag(tag("x", false, at(2013, 1, 1, 0, 0, 2), "b"));
    issue.add_tag(tag("x", true, at(2013, 1, 1, 0, 0, 3), "c"));
    assert_eq!(issue.all_tags(), vec![s("x")]);
}

#[test]
fn disabled_tag_suppresses_earlier_history() {
    let mut issue = issue_with_id("T", "b", "a", "1");
    issue.add_tag(tag("y", true, at(2013, 1, 1, 0, 0, 1), "a"));
    issue.add_tag(tag("y", false, at(2013, 1, 1, 0, 0, 2), "b"));
    assert!(issue.all_tags().is_empty());
}

#[test]
fn tag_enabled_twice_is_listed_once() {
    let mut issue = issue_with_id("T", "b", "a", "1");
    issue.add_tag(tag("z", true, at(2013, 1, 1, 0, 0, 1), "a"));
    issue.add_comment(comment_with_id("hi", "m", at(2013, 1, 1, 0, 0, 2), "c"));
    issue.add_tag(tag("w", true, at(2013, 1, 1, 0, 0, 3), "b"));
    issue.add_tag(tag("z", true, at(2013, 1, 1, 0, 0, 4), "d"));
    assert_eq!(issue.all_tags(), vec![s("z"), s("w")]);
}

#[test]
fn most_recent_tag_keeps_first_on_tie() {
    let mut issue = issue_with_id("T", "b", "a", "1");
    let t = at(2013, 1, 1, 0, 0, 5);
    issue.add_tag(tag("x", true, t, "A"));
    issue.add_tag(tag("x", false, t, "B"));
    let found = issue.most_recent_tag_for_name("x").unwrap();
    assert_eq!(found.change_id, "A");
}

#[test]
fn most_recent_tag_takes_later_time() {
    let mut issue = issue_with_id("T", "b", "a", "1");
    issue.add_tag(tag("x", true, at(2013, 1, 1, 0, 0, 5), "A"));
    issue.add_tag(tag("y", true, at(2013, 1, 1, 0, 0, 6), "Y"));
    issue.add_tag(tag("x", false, at(2013, 1, 1, 0, 0, 7), "B"));
    assert_eq!(issue.most_recent_tag_for_name("x").unwrap().change_id, "B");
    assert!(issue.most_recent_tag_for_name("q").is_none());
}

#[test]
fn legacy_comment_reads_like_wrapped_comment() {
    let legacy = IssueTimelineEvent::from_json(&comment_payload(Some("12")));
    let wrapped = IssueTimelineEvent::from_json(&Json::Array(vec![text("comment"), comment_payload(Some("12"))]));
    assert!(legacy.is_some());
    assert_eq!(legacy, wrapped);
    match legacy.unwrap() {
        IssueTimelineEvent::TimelineComment(c) => {
            assert_eq!(c.body_text, "It breaks");
            assert_eq!(c.id, "12");
        }
        _ => panic!("not a comment"),
    }
}

#[test]
fn malformed_event_is_dropped() {
    let list = Json::Array(vec![
        Json::Array(vec![text("tag"), tag_payload(true)]),
        Json::Array(vec![text("tag"), tag_payload(false)]),
    ]);
    let events = Issue::load_events(&list);
    assert_eq!(events.len(), 1);
    assert_eq!(events[0].event_type(), "tag");
    assert_eq!(events[0].id(), "77");
    assert!(Issue::load_events(&text("x")).is_empty());
}

#[test]
fn unknown_event_kind_is_not_read() {
    let j = Json::Array(vec![text("label"), tag_payload(true)]);
    assert!(IssueTimelineEvent::from_json(&j).is_none());
    let short = Json::Array(vec![text("tag")]);
    assert!(IssueTimelineEvent::from_json(&short).is_none());
}

#[test]
fn comment_without_id_gets_fresh_id() {
    let c = IssueComment::from_json(&comment_payload(None)).unwrap();
    assert!(!c.id.is_empty());
    assert!(c.id.chars().all(|ch| ch.is_ascii_digit() || ch == '-'));
}

#[test]
fn event_round_trip() {
    let t = tag("bug", false, at(1999, 12, 31, 23, 59, 60), "5");
    let e = IssueTimelineEvent::TimelineTag(t.clone());
    let j = e.to_json();
    assert_eq!(IssueTimelineEvent::from_json(&j), Some(e.clone()));
    assert_eq!(e.event_type(), "tag");
    assert_eq!(*e.time(), at(1999, 12, 31, 23, 59, 60));
    let c = comment_with_id("body", "dev", at(2001, 2, 3, 4, 5, 6), "9");
    let ce = IssueTimelineEvent::TimelineComment(c.clone());
    assert_eq!(IssueTimelineEvent::from_json(&ce.to_json()), Some(ce.clone()));
    assert_eq!(ce.event_type(), "comment");
    assert_eq!(ce.id(), "9");
    assert_eq!(IssueTag::from_json(&t.to_json()), Some(t));
}

#[test]
fn argument_fold_records_last_token() {
    let flags = read_flags(vec![s("abc")]);
    assert_eq!(flags, Flags { issue_id_part: Some(s("abc")) });
    assert_eq!(read_flags(vec![]), Flags { issue_id_part: None });
    assert_eq!(read_flags(vec![s("a"), s("b")]).issue_id_part, Some(s("b")));
}

#[test]
fn state_machine_folds_in_order() {
    let mut m = StateMachine::new(FlagsHandler, Flags { issue_id_part: None });
    m.process(s("abc"));
    let direct = Flags { issue_id_part: Some(s("abc")) };
    assert_eq!(m.extract_state(), direct);
    assert_eq!(
        std_handler(Flags { issue_id_part: None }, s("q")),
        NextState::Continue(Flags { issue_id_part: Some(s("q")) })
    );
}

#[test]
fn timestamp_text_form() {
    let t = at(2013, 5, 1, 9, 8, 7);
    assert_eq!(t.format(), "2013-05-01 2013 at 09:08:07");
    assert_eq!(Timestamp::parse("2013-05-01 2013 at 09:08:07"), Some(t));
    assert_eq!(at(1000, 1, 2, 0, 0, 0).format(), "1000-01-02 1000 at 00:00:00");
    assert!(!at(999, 1, 2, 0, 0, 0).is_writable());
}

#[test]
fn timestamp_rejects_other_text() {
    assert_eq!(Timestamp::parse("2013-13-01 2013 at 09:08:07"), None);
    assert_eq!(Timestamp::parse("2013-05-01 2013 at 24:08:07"), None);
    assert_eq!(Timestamp::parse("2013-05-01 2013 at 09:08"), None);
    assert_eq!(Timestamp::parse("2013-05-01T2013 at 09:08:07"), None);
    assert_eq!(Timestamp::parse(""), None);
    assert_eq!(Timestamp::parse("2013-05-00 2013 at 09:08:07"), None);
}

#[test]
fn timestamp_order() {
    assert!(at(2013, 1, 1, 0, 0, 1).before(&at(2013, 1, 1, 0, 0, 2)));
    assert!(!at(2013, 1, 1, 0, 0, 2).before(&at(2013, 1, 1, 0, 0, 2)));
    assert!(at(2012, 12, 31, 23, 59, 59).before(&at(2013, 1, 1, 0, 0, 0)));
}

#[test]
fn decimal_text_and_ids() {
    assert_eq!(decimal_text(0), "0");
    assert_eq!(decimal_text(1234567890), "1234567890");
    let id = generate_id();
    assert!(id.len() > 1);
}

#[test]
fn config_default_has_no_author() {
    assert_eq!(Config::default(), Config { author: None });
}

#[test]
fn sort_events_orders_by_time_and_keeps_ties() {
    let mut issue = issue_with_id("T", "b", "a", "1");
    issue.add_tag(tag("x", true, at(2013, 1, 1, 0, 0, 9), "late"));
    issue.add_tag(tag("x", true, at(2013, 1, 1, 0, 0, 5), "tie1"));
    issue.add_comment(comment_with_id("hi", "m", at(2013, 1, 1, 0, 0, 1), "early"));
    issue.add_tag(tag("x", false, at(2013, 1, 1, 0, 0, 5), "tie2"));
    issue.sort_events();
    let ids: Vec<&str> = issue.events.iter().map(|e| e.id()).collect();
    assert_eq!(ids, vec!["early", "tie1", "tie2", "late"]);
    assert_eq!(issue.most_recent_tag_for_name("x").unwrap().change_id, "late");
}

#[test]
fn timestamp_reading_is_lenient_like_strptime() {
    assert_eq!(Timestamp::parse("2013-1-2 2013 at 3:4:5"), Some(at(2013, 1, 2, 3, 4, 5)));
    assert_eq!(Timestamp::parse("2013-01-02 2014 at 03:04:05"), Some(at(2014, 1, 2, 3, 4, 5)));
    assert_eq!(Timestamp::from_tm((113, 4, 1, 9, 8, 7)), Some(at(2013, 5, 1, 9, 8, 7)));
    assert_eq!(at(2013, 5, 1, 9, 8, 7).to_tm(), (113, 4, 1, 9, 8, 7));
    assert_eq!(Timestamp::from_tm((113, 12, 1, 9, 8, 7)), None);
}

#[test]
fn read_back_keeps_metadata() {
    let issue = issue_with_id("Title", "Body", "Ann", "777");
    let back = issue.read_back().unwrap();
    assert!(back == issue);
    assert_eq!(back.title, "Title");
    assert_eq!(back.creation_time.format(), "2013-05-01 2013 at 12:00:00");
}

#[test]
fn ids_from_clock_readings() {
    assert_eq!(id_from_reading(1371234567, 89), "137123456789");
    assert_eq!(id_from_reading(-2, 800000000), "-2800000000");
    assert_eq!(id_from_reading(0, 0), "00");
}

#[test]
fn default_status_is_the_zero_time() {
    let st = IssueStatus::default();
    assert_eq!(st.name, DEFAULT_STATUS_NAME);
    assert_eq!(st.last_change_time, at(1900, 1, 0, 0, 0, 0));
    assert_eq!(st.last_change_time.format(), "1900-01-00 1900 at 00:00:00");
    assert_eq!(IssueStatus::from_json(&st.to_json()), IssueStatus::default());
    let issue = fresh_issue("T", "b", "a");
    let back = issue.read_back().unwrap();
    assert_eq!(back.status, IssueStatus::default());
}

#[test]
fn years_below_one_thousand_are_read() {
    assert_eq!(Timestamp::parse("0999-05-01 0999 at 09:08:07"), Some(at(999, 5, 1, 9, 8, 7)));
    let j = Json::Object(vec![
        member("author", text("Ann")),
        member("branch", text("master")),
        member("id", text("5")),
        member("time", text("0042-05-01 0042 at 10:20:30")),
        member("evict-version", text("1")),
        member("title", text("T")),
    ]);
    assert_eq!(Issue::from_json(&j).unwrap().creation_time, at(42, 5, 1, 10, 20, 30));
}

#[test]
fn unknown_branch_fallback() {
    assert_eq!(branch_or_unknown(None), "<unknown>");
    assert_eq!(branch_or_unknown(Some(s("dev"))), "dev");
    let c = IssueComment::new(s("Ann"), s("body"), None, at(2001, 2, 3, 4, 5, 6));
    assert_eq!(c.branch, "<unknown>");
    assert!(!c.id.is_empty());
}
