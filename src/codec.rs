//! Writing issues and their events as trees, and reading them back.
//!
//! Events are written as `[kind, payload]` pairs; a bare comment payload,
//! from before events had kinds, still reads as a comment. An issue is
//! written without its events, under the format version it is read back by.
use vstd::prelude::*;
use vstd::string::StringExecFns;
use crate::json::{
    Json, Member, lookup, lookup_from, str_at, bool_at, is_str_member, get, get_string_for_key,
    get_bool_for_key, str_member, text_is,
};
use crate::clock::{id_text, generate_id};
use crate::timestamp::{Timestamp, timestamp_text, parsed_time, read_time};
use crate::issue::{
    Issue, IssueComment, IssueTag, IssueTimelineEvent, IssueStatus, CommentView, TagView,
    EventView, StatusView, DEFAULT_STATUS_NAME,
};

verus! {

/// The format version that issues are written in and read by.
pub const CURRENT_VERSION: &'static str = "1";

/// The name given to the branch of an issue or comment when none is known.
pub const UNKNOWN_BRANCH: &'static str = "<unknown>";

/// The branch name recorded for `branch`.
pub open spec fn branch_name(branch: Option<String>) -> Seq<char> {
    match branch {
        Some(b) => b@,
        None => UNKNOWN_BRANCH@,
    }
}

/// The branch name to record: the one given, or the unknown branch.
pub fn branch_or_unknown(branch: Option<String>) -> (r: String)
    ensures
        r@ == branch_name(branch),
{
    match branch {
        Some(b) => b,
        None => String::from_str(UNKNOWN_BRANCH),
    }
}

/// The timestamp written as text under `key`.
pub open spec fn time_at(ms: Seq<Member>, key: Seq<char>) -> Option<Timestamp> {
    match str_at(ms, key) {
        Some(s) => parsed_time(s),
        None => None,
    }
}

/// The tag event that the members `ms` describe.
pub open spec fn tag_of_members(ms: Seq<Member>) -> Option<TagView> {
    match (str_at(ms, "name"@), str_at(ms, "author"@), bool_at(ms, "enabled"@), str_at(ms, "id"@), time_at(ms, "time"@)) {
        (Some(name), Some(author), Some(enabled), Some(id), Some(time)) => Some(
            TagView { time, name, enabled, author, id },
        ),
        _ => None,
    }
}

/// The tag event that `j` describes.
pub open spec fn tag_of(j: Json) -> Option<TagView> {
    match j {
        Json::Object(ms) => tag_of_members(ms@),
        _ => None,
    }
}

/// `j` holds every field that a comment needs.
pub open spec fn comment_readable(j: Json) -> bool {
    match j {
        Json::Object(ms) => {
            &&& str_at(ms@, "bodyText"@) is Some
            &&& str_at(ms@, "author"@) is Some
            &&& str_at(ms@, "branch"@) is Some
            &&& time_at(ms@, "time"@) is Some
        },
        _ => false,
    }
}

/// `c` is a comment read from `j`: its fields are those of `j`, and so is its
/// identifier where `j` has one; where it has none, the identifier is one
/// drawn from the clock.
pub open spec fn comment_read_from(j: Json, c: CommentView) -> bool {
    match j {
        Json::Object(ms) => {
            &&& str_at(ms@, "bodyText"@) == Some(c.body)
            &&& str_at(ms@, "author"@) == Some(c.author)
            &&& str_at(ms@, "branch"@) == Some(c.branch)
            &&& time_at(ms@, "time"@) == Some(c.time)
            &&& (str_at(ms@, "id"@) matches Some(id) ==> c.id == id)
            &&& (str_at(ms@, "id"@) is None ==> c.id.len() > 0 && exists|secs: i64, nanos: i32|
                0 <= nanos < 1_000_000_000 && c.id == #[trigger] id_text(secs, nanos))
        },
        _ => false,
    }
}

/// `j` is a `[kind, payload]` pair of the given kind.
pub open spec fn is_pair_of_kind(j: Json, kind: Seq<char>) -> bool {
    &&& j matches Json::Array(a)
    &&& a@.len() == 2
    &&& (a@[0] matches Json::Str(k) && k@ == kind)
}

/// The payload of a `[kind, payload]` pair.
pub open spec fn payload(j: Json) -> Json
    recommends
        j is Array,
{
    match j {
        Json::Array(a) => a@[1],
        _ => j,
    }
}

/// `j` can be read as an event.
pub open spec fn event_readable(j: Json) -> bool {
    if is_pair_of_kind(j, "comment"@) {
        comment_readable(payload(j))
    } else if is_pair_of_kind(j, "tag"@) {
        tag_of(payload(j)) is Some
    } else if j is Array {
        false
    } else {
        comment_readable(j)
    }
}

/// `e` is an event read from `j`.
pub open spec fn event_read_from(j: Json, e: EventView) -> bool {
    if is_pair_of_kind(j, "comment"@) {
        e matches EventView::Comment(c) && comment_read_from(payload(j), c)
    } else if is_pair_of_kind(j, "tag"@) {
        e matches EventView::Tag(t) && tag_of(payload(j)) == Some(t)
    } else if j is Array {
        false
    } else {
        e matches EventView::Comment(c) && comment_read_from(j, c)
    }
}

/// The entries of `list` that can be read as events, in order.
pub open spec fn readable_events(list: Seq<Json>) -> Seq<Json>
    decreases list.len(),
{
    if list.len() == 0 {
        list
    } else if event_readable(list.last()) {
        readable_events(list.drop_last()).push(list.last())
    } else {
        readable_events(list.drop_last())
    }
}

/// The status given to an issue that has none, or whose status cannot be read.
pub open spec fn default_status() -> StatusView {
    StatusView {
        name: DEFAULT_STATUS_NAME@,
        time: Timestamp { year: 1900, month: 1, day: 0, hour: 0, minute: 0, second: 0 },
    }
}

/// The status that `j` describes, or the default one.
pub open spec fn status_of(j: Json) -> StatusView {
    match j {
        Json::Object(ms) => match (str_at(ms@, "name"@), time_at(ms@, "time"@)) {
            (Some(name), Some(time)) => StatusView { name, time },
            _ => default_status(),
        },
        _ => default_status(),
    }
}

/// The status held under `status` in `ms`, or the default one.
pub open spec fn status_at(ms: Seq<Member>) -> StatusView {
    match lookup(ms, "status"@) {
        Some(j) => status_of(j),
        None => default_status(),
    }
}

/// What an issue read from a tree holds.
pub struct IssueView {
    pub title: Seq<char>,
    pub time: Timestamp,
    pub author: Seq<char>,
    pub body: Seq<char>,
    pub id: Seq<char>,
    pub events: Seq<EventView>,
    pub branch: Seq<char>,
    pub status: StatusView,
}

impl Issue {
    /// What the issue holds.
    pub open spec fn spec_view(&self) -> IssueView {
        IssueView {
            title: self.title@,
            time: self.creation_time,
            author: self.author@,
            body: self.body_text@,
            id: self.id@,
            events: self.events_view(),
            branch: self.branch@,
            status: self.status@,
        }
    }
}

/// The issue that `j` describes: one of the current format version with all
/// its metadata, with no body and no events.
pub open spec fn issue_of(j: Json) -> Option<IssueView> {
    match j {
        Json::Object(ms) => {
            let ms = ms@;
            if str_at(ms, "evict-version"@) != Some(CURRENT_VERSION@) {
                None
            } else {
                match (str_at(ms, "title"@), str_at(ms, "author"@), str_at(ms, "branch"@), str_at(ms, "id"@), time_at(ms, "time"@)) {
                    (Some(title), Some(author), Some(branch), Some(id), Some(time)) => Some(
                        IssueView {
                            title,
                            time,
                            author,
                            body: Seq::empty(),
                            id,
                            events: Seq::empty(),
                            branch,
                            status: status_at(ms),
                        },
                    ),
                    _ => None,
                }
            }
        },
        _ => None,
    }
}

/// `m` is the member `key` holding the text of `t`.
pub open spec fn is_time_member(m: Member, key: Seq<char>, t: Timestamp) -> bool {
    is_str_member(m, key, timestamp_text(t))
}

/// `j` is the tree that a status is written as.
pub open spec fn is_status_tree(j: Json, s: StatusView) -> bool {
    &&& j matches Json::Object(ms)
    &&& ms@.len() == 2
    &&& is_str_member(ms@[0], "name"@, s.name)
    &&& is_time_member(ms@[1], "time"@, s.time)
}

/// `j` is the tree that a tag event is written as.
pub open spec fn is_tag_tree(j: Json, t: TagView) -> bool {
    &&& j matches Json::Object(ms)
    &&& ms@.len() == 5
    &&& is_str_member(ms@[0], "author"@, t.author)
    &&& ms@[1].key@ == "enabled"@
    &&& ms@[1].value == Json::Boolean(t.enabled)
    &&& is_str_member(ms@[2], "id"@, t.id)
    &&& is_str_member(ms@[3], "name"@, t.name)
    &&& is_time_member(ms@[4], "time"@, t.time)
}

/// `j` is the tree that a comment is written as.
pub open spec fn is_comment_tree(j: Json, c: CommentView) -> bool {
    &&& j matches Json::Object(ms)
    &&& ms@.len() == 5
    &&& is_str_member(ms@[0], "author"@, c.author)
    &&& is_str_member(ms@[1], "bodyText"@, c.body)
    &&& is_str_member(ms@[2], "branch"@, c.branch)
    &&& is_str_member(ms@[3], "id"@, c.id)
    &&& is_time_member(ms@[4], "time"@, c.time)
}

/// The kind under which an event is written.
pub open spec fn kind_of(e: EventView) -> Seq<char> {
    match e {
        EventView::Comment(_) => "comment"@,
        EventView::Tag(_) => "tag"@,
    }
}

/// `j` is the tree that an event's payload is written as.
pub open spec fn is_event_data(j: Json, e: EventView) -> bool {
    match e {
        EventView::Comment(c) => is_comment_tree(j, c),
        EventView::Tag(t) => is_tag_tree(j, t),
    }
}

/// `j` is the tree of an issue's metadata, without its events.
pub open spec fn is_envelope(j: Json, i: IssueView) -> bool {
    &&& j matches Json::Object(ms)
    &&& ms@.len() == 7
    &&& is_str_member(ms@[0], "author"@, i.author)
    &&& is_str_member(ms@[1], "branch"@, i.branch)
    &&& is_str_member(ms@[2], "evict-version"@, CURRENT_VERSION@)
    &&& is_str_member(ms@[3], "id"@, i.id)
    &&& ms@[4].key@ == "status"@
    &&& is_status_tree(ms@[4].value, i.status)
    &&& is_time_member(ms@[5], "time"@, i.time)
    &&& is_str_member(ms@[6], "title"@, i.title)
}

/// A member holding the text of a timestamp.
fn time_member(key: &str, t: &Timestamp) -> (r: Member)
    requires
        t.writable(),
    ensures
        is_time_member(r, key@, *t),
{
    str_member(key, t.format())
}

impl IssueStatus {
    /// The status an issue has until it is given another.
    pub fn default() -> (r: IssueStatus)
        ensures
            r@ == default_status(),
    {
        IssueStatus { name: String::from_str(DEFAULT_STATUS_NAME), last_change_time: Timestamp::zero() }
    }

    /// A status of the given name that changed at `time`.
    pub fn new(name: String, time: Timestamp) -> (r: IssueStatus)
        ensures
            r.name == name,
            r.last_change_time == time,
    {
        IssueStatus { name, last_change_time: time }
    }

    /// The tree that this status is written as.
    pub fn to_json(&self) -> (r: Json)
        requires
            self.last_change_time.writable(),
        ensures
            is_status_tree(r, self@),
    {
        let mut ms: Vec<Member> = Vec::new();
        ms.push(str_member("name", self.name.clone()));
        ms.push(time_member("time", &self.last_change_time));
        Json::Object(ms)
    }

    /// Reads a status; a tree without a readable name and time gives the
    /// default status.
    pub fn from_json(j: &Json) -> (r: IssueStatus)
        ensures
            r@ == status_of(*j),
            r.last_change_time.wf(),
    {
        match j {
            Json::Object(ms) => {
                match (get_string_for_key(ms, "name"), get_string_for_key(ms, "time")) {
                    (Some(name), Some(time)) => match read_time(&time) {
                        Some(t) => IssueStatus { name, last_change_time: t },
                        None => IssueStatus::default(),
                    },
                    _ => IssueStatus::default(),
                }
            },
            _ => IssueStatus::default(),
        }
    }
}

} // verus!

verus! {

impl IssueTag {
    /// The tree that this tag event is written as.
    pub fn to_json(&self) -> (r: Json)
        requires
            self.time.writable(),
        ensures
            is_tag_tree(r, self@),
    {
        let mut ms: Vec<Member> = Vec::new();
        ms.push(str_member("author", self.author.clone()));
        ms.push(Member { key: String::from_str("enabled"), value: Json::Boolean(self.enabled) });
        ms.push(str_member("id", self.change_id.clone()));
        ms.push(str_member("name", self.tag_name.clone()));
        ms.push(time_member("time", &self.time));
        Json::Object(ms)
    }

    /// Reads a tag event; `None` when a field is missing or of the wrong kind,
    /// or the time is not in the timestamp text form.
    pub fn from_json(j: &Json) -> (r: Option<IssueTag>)
        ensures
            match r {
                Some(t) => tag_of(*j) == Some(t@) && t.time.wf(),
                None => tag_of(*j) is None,
            },
    {
        match j {
            Json::Object(ms) => IssueTag::read_from_map(ms),
            _ => None,
        }
    }

    fn read_from_map(ms: &Vec<Member>) -> (r: Option<IssueTag>)
        ensures
            match r {
                Some(t) => tag_of_members(ms@) == Some(t@) && t.time.wf(),
                None => tag_of_members(ms@) is None,
            },
    {
        let name = get_string_for_key(ms, "name");
        let author = get_string_for_key(ms, "author");
        let enabled = get_bool_for_key(ms, "enabled");
        let id = get_string_for_key(ms, "id");
        let time = get_string_for_key(ms, "time");
        match (name, author, enabled, id, time) {
            (Some(tag_name), Some(author), Some(enabled), Some(change_id), Some(time)) => {
                match read_time(&time) {
                    Some(time) => Some(IssueTag { time, tag_name, enabled, author, change_id }),
                    None => None,
                }
            },
            _ => None,
        }
    }

    /// A tag event of the given name, made at `time` with identifier `change_id`.
    pub fn new(name: String, author: String, enabled: bool, time: Timestamp, change_id: String) -> (r: IssueTag)
        ensures
            r.tag_name == name,
            r.author == author,
            r.enabled == enabled,
            r.time == time,
            r.change_id == change_id,
    {
        IssueTag { time, author, enabled, tag_name: name, change_id }
    }
}

impl IssueComment {
    /// The tree that this comment is written as.
    pub fn to_json(&self) -> (r: Json)
        requires
            self.creation_time.writable(),
        ensures
            is_comment_tree(r, self@),
    {
        let mut ms: Vec<Member> = Vec::new();
        ms.push(str_member("author", self.author.clone()));
        ms.push(str_member("bodyText", self.body_text.clone()));
        ms.push(str_member("branch", self.branch.clone()));
        ms.push(str_member("id", self.id.clone()));
        ms.push(time_member("time", &self.creation_time));
        Json::Object(ms)
    }

    /// Reads a comment; `None` when the body, author, branch or time is
    /// missing or unreadable. A comment written without an identifier is given
    /// a fresh one.
    pub fn from_json(j: &Json) -> (r: Option<IssueComment>)
        ensures
            r is Some <==> comment_readable(*j),
            r matches Some(c) ==> comment_read_from(*j, c@) && c.creation_time.wf(),
    {
        match j {
            Json::Object(ms) => IssueComment::read_from_map(ms),
            _ => None,
        }
    }

    fn read_from_map(ms: &Vec<Member>) -> (r: Option<IssueComment>)
        ensures
            r is Some <==> comment_readable(Json::Object(*ms)),
            r matches Some(c) ==> comment_read_from(Json::Object(*ms), c@) && c.creation_time.wf(),
    {
        let body = get_string_for_key(ms, "bodyText");
        let author = get_string_for_key(ms, "author");
        let branch = get_string_for_key(ms, "branch");
        let time = get_string_for_key(ms, "time");
        match (body, author, branch, time) {
            (Some(body_text), Some(author), Some(branch), Some(time)) => {
                match read_time(&time) {
                    Some(creation_time) => {
                        let id = match get_string_for_key(ms, "id") {
                            Some(id) => id,
                            None => crate::clock::generate_id(),
                        };
                        Some(IssueComment { creation_time, author, body_text, branch, id })
                    },
                    None => None,
                }
            },
            _ => None,
        }
    }

    /// A comment by `author`, made at `time` on `branch` (or on the unknown
    /// branch when none is known), with an identifier drawn from the clock.
    pub fn new(author: String, body: String, branch: Option<String>, time: Timestamp) -> (r: IssueComment)
        ensures
            r.author == author,
            r.body_text == body,
            r.branch@ == branch_name(branch),
            r.creation_time == time,
            r.id@.len() > 0,
            exists|secs: i64, nanos: i32|
                0 <= nanos < 1_000_000_000 && r.id@ == #[trigger] id_text(secs, nanos),
    {
        IssueComment {
            author,
            body_text: body,
            creation_time: time,
            branch: branch_or_unknown(branch),
            id: generate_id(),
        }
    }
}

} // verus!

verus! {

impl IssueTimelineEvent {
    /// The event's timestamp can be written.
    pub open spec fn writable(&self) -> bool {
        self@.time().writable()
    }

    /// The kind under which this event is written: `comment` or `tag`.
    pub fn event_type(&self) -> (r: String)
        ensures
            r@ == kind_of(self@),
    {
        match self {
            IssueTimelineEvent::TimelineComment(_) => String::from_str("comment"),
            IssueTimelineEvent::TimelineTag(_) => String::from_str("tag"),
        }
    }

    /// The tree of this event's own fields.
    pub fn event_data(&self) -> (r: Json)
        requires
            self.writable(),
        ensures
            is_event_data(r, self@),
    {
        match self {
            IssueTimelineEvent::TimelineComment(c) => c.to_json(),
            IssueTimelineEvent::TimelineTag(t) => t.to_json(),
        }
    }

    /// The `[kind, payload]` pair that this event is written as.
    pub fn to_json(&self) -> (r: Json)
        requires
            self.writable(),
        ensures
            is_pair_of_kind(r, kind_of(self@)),
            is_event_data(payload(r), self@),
    {
        let mut v: Vec<Json> = Vec::new();
        v.push(Json::Str(self.event_type()));
        v.push(self.event_data());
        Json::Array(v)
    }

    /// Reads an event from a `[kind, payload]` pair, or a comment from a bare
    /// payload; `None` when it cannot be read.
    pub fn from_json(j: &Json) -> (r: Option<IssueTimelineEvent>)
        ensures
            r is Some <==> event_readable(*j),
            r matches Some(e) ==> event_read_from(*j, e@) && e@.time().wf(),
    {
        match j {
            Json::Array(list) => {
                if list.len() != 2 {
                    return None;
                }
                match &list[0] {
                    Json::Str(k) => {
                        if text_is(k, "comment") {
                            match IssueComment::from_json(&list[1]) {
                                Some(c) => Some(IssueTimelineEvent::TimelineComment(c)),
                                None => None,
                            }
                        } else if text_is(k, "tag") {
                            match IssueTag::from_json(&list[1]) {
                                Some(t) => Some(IssueTimelineEvent::TimelineTag(t)),
                                None => None,
                            }
                        } else {
                            None
                        }
                    },
                    _ => None,
                }
            },
            _ => match IssueComment::from_json(j) {
                Some(c) => Some(IssueTimelineEvent::TimelineComment(c)),
                None => None,
            },
        }
    }

    /// When the event happened.
    pub fn time(&self) -> (r: &Timestamp)
        ensures
            *r == self@.time(),
    {
        match self {
            IssueTimelineEvent::TimelineComment(c) => &c.creation_time,
            IssueTimelineEvent::TimelineTag(t) => &t.time,
        }
    }

    /// The event's identifier.
    pub fn id(&self) -> (r: &str)
        ensures
            r@ == self@.id(),
    {
        match self {
            IssueTimelineEvent::TimelineComment(c) => c.id.as_str(),
            IssueTimelineEvent::TimelineTag(t) => t.change_id.as_str(),
        }
    }
}

impl Issue {
    /// A new issue with no events and the default status, made at `time` on
    /// `branch` (or on the unknown branch when none is known), with an
    /// identifier drawn from the clock.
    pub fn new(title: String, body: String, author: String, time: Timestamp, branch: Option<String>) -> (r: Issue)
        ensures
            r.title == title,
            r.body_text == body,
            r.author == author,
            r.creation_time == time,
            r.branch@ == branch_name(branch),
            r.events@.len() == 0,
            r.status@ == default_status(),
            r.id@.len() > 0,
            exists|secs: i64, nanos: i32|
                0 <= nanos < 1_000_000_000 && r.id@ == #[trigger] id_text(secs, nanos),
    {
        Issue {
            title,
            body_text: body,
            author,
            id: generate_id(),
            creation_time: time,
            events: Vec::new(),
            branch: branch_or_unknown(branch),
            status: IssueStatus::default(),
        }
    }

    /// The tree of this issue's metadata and status, under the current format
    /// version; the events are not written.
    pub fn no_comment_json(&self) -> (r: Json)
        requires
            self.creation_time.writable(),
            self.status.last_change_time.writable(),
        ensures
            is_envelope(r, self.spec_view()),
    {
        let mut ms: Vec<Member> = Vec::new();
        ms.push(str_member("author", self.author.clone()));
        ms.push(str_member("branch", self.branch.clone()));
        ms.push(str_member("evict-version", String::from_str(CURRENT_VERSION)));
        ms.push(str_member("id", self.id.clone()));
        ms.push(Member { key: String::from_str("status"), value: self.status.to_json() });
        ms.push(time_member("time", &self.creation_time));
        ms.push(str_member("title", self.title.clone()));
        Json::Object(ms)
    }

    /// Reads an issue's metadata and status; `None` when the format version is
    /// missing or not the current one, or a field is missing or unreadable.
    /// The issue read has no events.
    pub fn from_json(j: &Json) -> (r: Option<Issue>)
        ensures
            match r {
                Some(i) => issue_of(*j) == Some(i.spec_view()) && i.creation_time.wf()
                    && i.status.last_change_time.wf(),
                None => issue_of(*j) is None,
            },
    {
        match j {
            Json::Object(ms) => Issue::read_from_map(ms),
            _ => None,
        }
    }

    fn read_from_map(ms: &Vec<Member>) -> (r: Option<Issue>)
        ensures
            match r {
                Some(i) => issue_of(Json::Object(*ms)) == Some(i.spec_view())
                    && i.creation_time.wf() && i.status.last_change_time.wf(),
                None => issue_of(Json::Object(*ms)) is None,
            },
    {
        match get_string_for_key(ms, "evict-version") {
            Some(v) => {
                if !text_is(&v, CURRENT_VERSION) {
                    return None;
                }
            },
            None => {
                return None;
            },
        }
        let title = get_string_for_key(ms, "title");
        let author = get_string_for_key(ms, "author");
        let branch = get_string_for_key(ms, "branch");
        let id = get_string_for_key(ms, "id");
        let time = get_string_for_key(ms, "time");
        match (title, author, branch, id, time) {
            (Some(title), Some(author), Some(branch), Some(id), Some(time)) => {
                match read_time(&time) {
                    Some(creation_time) => {
                        let status = match get(ms, "status") {
                            Some(sj) => IssueStatus::from_json(sj),
                            None => IssueStatus::default(),
                        };
                        let events: Vec<IssueTimelineEvent> = Vec::new();
                        let issue = Issue {
                            title,
                            body_text: String::new(),
                            author,
                            id,
                            creation_time,
                            events,
                            branch,
                            status,
                        };
                        proof {
                            assert(issue.events_view() =~= Seq::<EventView>::empty());
                            assert(issue.body_text@ =~= Seq::<char>::empty());
                        }
                        Some(issue)
                    },
                    None => None,
                }
            },
            _ => None,
        }
    }

    /// The events of a timeline array that can be read, in order; entries that
    /// cannot be read are left out. Anything but an array gives no events.
    pub fn load_events(j: &Json) -> (r: Vec<IssueTimelineEvent>)
        ensures
            match *j {
                Json::Array(list) => {
                    &&& r@.len() == readable_events(list@).len()
                    &&& forall|k: int|
                        0 <= k < r@.len() ==> event_read_from(
                            #[trigger] readable_events(list@)[k],
                            r@[k]@,
                        )
                },
                _ => r@.len() == 0,
            },
    {
        let mut r: Vec<IssueTimelineEvent> = Vec::new();
        match j {
            Json::Array(list) => {
                let mut i: usize = 0;
                while i < list.len()
                    invariant
                        i <= list@.len(),
                        r@.len() == readable_events(list@.take(i as int)).len(),
                        forall|k: int|
                            0 <= k < r@.len() ==> event_read_from(
                                #[trigger] readable_events(list@.take(i as int))[k],
                                r@[k]@,
                            ),
                    decreases list@.len() - i,
                {
                    proof {
                        assert(list@.take(i + 1).drop_last() =~= list@.take(i as int));
                        assert(list@.take(i + 1).last() == list@[i as int]);
                    }
                    match IssueTimelineEvent::from_json(&list[i]) {
                        Some(e) => {
                            r.push(e);
                        },
                        None => {},
                    }
                    i = i + 1;
                }
                proof {
                    assert(list@.take(i as int) =~= list@);
                }
            },
            _ => {},
        }
        r
    }
}

} // verus!

verus! {

/// The lengths and first letters of the member keys, which tell them apart.
proof fn lemma_key_letters()
    ensures
        "author"@.len() == 6 && "author"@[0] == 'a',
        "branch"@.len() == 6 && "branch"@[0] == 'b',
        "evict-version"@.len() == 13 && "evict-version"@[0] == 'e',
        "id"@.len() == 2 && "id"@[0] == 'i',
        "status"@.len() == 6 && "status"@[0] == 's',
        "time"@.len() == 4 && "time"@[0] == 't',
        "title"@.len() == 5 && "title"@[0] == 't',
        "name"@.len() == 4 && "name"@[0] == 'n',
        "enabled"@.len() == 7 && "enabled"@[0] == 'e',
        "bodyText"@.len() == 8 && "bodyText"@[0] == 'b',
{
    reveal_strlit("author");
    reveal_strlit("branch");
    reveal_strlit("evict-version");
    reveal_strlit("id");
    reveal_strlit("status");
    reveal_strlit("time");
    reveal_strlit("title");
    reveal_strlit("name");
    reveal_strlit("enabled");
    reveal_strlit("bodyText");
}

/// The `k`th member of `ms` is found under its key when no member before it
/// has that key.
proof fn lemma_lookup_at(ms: Seq<Member>, key: Seq<char>, k: int)
    requires
        0 <= k < ms.len(),
        ms[k].key@ == key,
        forall|i: int| 0 <= i < k ==> ms[i].key@ != key,
    ensures
        lookup(ms, key) == Some(ms[k].value),
{
    lemma_lookup_skip(ms, key, 0, k);
}

/// From `i` on, the first member with key `key` is the `k`th.
proof fn lemma_lookup_skip(ms: Seq<Member>, key: Seq<char>, i: int, k: int)
    requires
        0 <= i <= k < ms.len(),
        ms[k].key@ == key,
        forall|j: int| i <= j < k ==> ms[j].key@ != key,
    ensures
        lookup_from(ms, key, i) == Some(ms[k].value),
    decreases k - i,
{
    if i < k {
        lemma_lookup_skip(ms, key, i + 1, k);
    }
}

/// `d` has the title, author, identifier, branch, status and creation time of
/// `issue`, and so the same time text; a status changed on day 0 (the zero
/// time) does not read back, and gives the default status.
pub open spec fn keeps_metadata(d: IssueView, issue: Issue) -> bool {
    &&& d.title == issue.title@
    &&& d.author == issue.author@
    &&& d.id == issue.id@
    &&& d.branch == issue.branch@
    &&& d.time == issue.creation_time
    &&& timestamp_text(d.time) == timestamp_text(issue.creation_time)
    &&& d.status == if 1 <= issue.status.last_change_time.day {
        issue.status@
    } else {
        default_status()
    }
}

/// The tree of an issue's metadata describes an issue with that metadata,
/// given that its time texts read back.
proof fn lemma_envelope_read(issue: Issue, j: Json)
    requires
        parsed_time(timestamp_text(issue.creation_time)) == Some(issue.creation_time),
        1 <= issue.status.last_change_time.day ==> parsed_time(
            timestamp_text(issue.status.last_change_time),
        ) == Some(issue.status.last_change_time),
        issue.status.last_change_time.day == 0 ==> parsed_time(
            timestamp_text(issue.status.last_change_time),
        ) is None,
        is_envelope(j, issue.spec_view()),
    ensures
        issue_of(j) is Some,
        keeps_metadata(issue_of(j)->0, issue),
{
    lemma_key_letters();
    let ms = match j {
        Json::Object(ms) => ms@,
        _ => Seq::empty(),
    };
    lemma_lookup_at(ms, "author"@, 0);
    lemma_lookup_at(ms, "branch"@, 1);
    lemma_lookup_at(ms, "evict-version"@, 2);
    lemma_lookup_at(ms, "id"@, 3);
    lemma_lookup_at(ms, "status"@, 4);
    lemma_lookup_at(ms, "time"@, 5);
    lemma_lookup_at(ms, "title"@, 6);
    let sm = match ms[4].value {
        Json::Object(sm) => sm@,
        _ => Seq::empty(),
    };
    lemma_lookup_at(sm, "name"@, 0);
    lemma_lookup_at(sm, "time"@, 1);
}

impl Issue {
    /// Writes this issue with `no_comment_json` and reads it back with
    /// `from_json`: the issue read is the same issue, with the same title,
    /// author, identifier, branch, status, and creation time (and so the same
    /// time text).
    pub fn read_back(&self) -> (r: Option<Issue>)
        requires
            self.creation_time.writable(),
            1 <= self.creation_time.day,
            self.status.last_change_time.writable(),
        ensures
            r matches Some(d) && keeps_metadata(d.spec_view(), *self) && d.id@ == self.id@,
    {
        let j = self.no_comment_json();
        // Reading the two time texts back brings in what their contracts say
        // they read as.
        let created = read_time(&self.creation_time.format());
        let changed = read_time(&self.status.last_change_time.format());
        proof {
            lemma_envelope_read(*self, j);
        }
        Issue::from_json(&j)
    }
}

/// A bare comment payload reads as an event exactly when the same payload in
/// a `["comment", payload]` pair does, and as the same events.
pub proof fn lemma_legacy_comment(legacy: Json, wrapped: Json)
    requires
        !(legacy is Array),
        is_pair_of_kind(wrapped, "comment"@),
        payload(wrapped) == legacy,
    ensures
        event_readable(legacy) == event_readable(wrapped),
        forall|e: EventView| event_read_from(legacy, e) <==> event_read_from(wrapped, e),
{
}

} // verus!
