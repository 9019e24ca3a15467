//! Issues, their status, and the timeline of comment and tag events, with the
//! queries that derive an issue's current tags from its timeline.
use vstd::prelude::*;
use vstd::string::StringExecFns;
use crate::timestamp::Timestamp;
use vstd::std_specs::cmp::PartialEqSpec;

verus! {

/// The status an issue has until it is given another.
pub const DEFAULT_STATUS_NAME: &'static str = "open";

/// A comment on an issue.
#[derive(Clone, Debug, PartialEq)]
pub struct IssueComment {
    pub creation_time: Timestamp,
    pub author: String,
    pub body_text: String,
    pub branch: String,
    pub id: String,
}

/// A tag switched on or off.
#[derive(Clone, Debug, PartialEq)]
pub struct IssueTag {
    pub time: Timestamp,
    pub tag_name: String,
    pub enabled: bool,
    pub author: String,
    pub change_id: String,
}

/// One event of an issue's timeline.
#[derive(Clone, Debug, PartialEq)]
pub enum IssueTimelineEvent {
    TimelineComment(IssueComment),
    TimelineTag(IssueTag),
}

/// The workflow state of an issue and when it last changed.
#[derive(Clone, Debug, PartialEq)]
pub struct IssueStatus {
    pub name: String,
    pub last_change_time: Timestamp,
}

/// An issue: its metadata, its status, and its timeline of events.
#[derive(Clone, Debug)]
pub struct Issue {
    pub title: String,
    pub creation_time: Timestamp,
    pub author: String,
    pub body_text: String,
    pub id: String,
    pub events: Vec<IssueTimelineEvent>,
    pub branch: String,
    pub status: IssueStatus,
}

/// What a comment holds, with text as character sequences.
pub struct CommentView {
    pub time: Timestamp,
    pub author: Seq<char>,
    pub body: Seq<char>,
    pub branch: Seq<char>,
    pub id: Seq<char>,
}

/// What a tag event holds, with text as character sequences.
pub struct TagView {
    pub time: Timestamp,
    pub name: Seq<char>,
    pub enabled: bool,
    pub author: Seq<char>,
    pub id: Seq<char>,
}

/// What a timeline event holds.
pub enum EventView {
    Comment(CommentView),
    Tag(TagView),
}

/// What a status holds.
pub struct StatusView {
    pub name: Seq<char>,
    pub time: Timestamp,
}

impl View for IssueComment {
    type V = CommentView;

    open spec fn view(&self) -> CommentView {
        CommentView {
            time: self.creation_time,
            author: self.author@,
            body: self.body_text@,
            branch: self.branch@,
            id: self.id@,
        }
    }
}

impl View for IssueTag {
    type V = TagView;

    open spec fn view(&self) -> TagView {
        TagView {
            time: self.time,
            name: self.tag_name@,
            enabled: self.enabled,
            author: self.author@,
            id: self.change_id@,
        }
    }
}

impl View for IssueTimelineEvent {
    type V = EventView;

    open spec fn view(&self) -> EventView {
        match self {
            IssueTimelineEvent::TimelineComment(c) => EventView::Comment(c@),
            IssueTimelineEvent::TimelineTag(t) => EventView::Tag(t@),
        }
    }
}

impl View for IssueStatus {
    type V = StatusView;

    open spec fn view(&self) -> StatusView {
        StatusView { name: self.name@, time: self.last_change_time }
    }
}

impl EventView {
    /// When the event happened.
    pub open spec fn time(self) -> Timestamp {
        match self {
            EventView::Comment(c) => c.time,
            EventView::Tag(t) => t.time,
        }
    }

    /// The event's identifier.
    pub open spec fn id(self) -> Seq<char> {
        match self {
            EventView::Comment(c) => c.id,
            EventView::Tag(t) => t.id,
        }
    }
}

/// The tag event that `most_recent_tag_for_name` picks among `evs`: the first
/// of those named `name` whose time no later one of them exceeds.
pub open spec fn recent_tag(evs: Seq<EventView>, name: Seq<char>) -> Option<TagView>
    decreases evs.len(),
{
    if evs.len() == 0 {
        None
    } else {
        let prev = recent_tag(evs.drop_last(), name);
        match evs.last() {
            EventView::Tag(t) => if t.name != name {
                prev
            } else {
                match prev {
                    None => Some(t),
                    Some(p) => if p.time.spec_before(t.time) { Some(t) } else { Some(p) },
                }
            },
            EventView::Comment(_) => prev,
        }
    }
}

/// Scans `evs` from the latest event back: a tag name is settled by its
/// latest event, and is listed when that event switched it on. Gives the
/// listed names and the settled names, latest first.
pub open spec fn settle_tags(evs: Seq<EventView>) -> (Seq<Seq<char>>, Seq<Seq<char>>)
    decreases evs.len(),
{
    if evs.len() == 0 {
        (Seq::empty(), Seq::empty())
    } else {
        let (listed, settled) = settle_tags(evs.subrange(1, evs.len() as int));
        match evs[0] {
            EventView::Tag(t) => if settled.contains(t.name) {
                (listed, settled)
            } else if t.enabled {
                (listed.push(t.name), settled.push(t.name))
            } else {
                (listed, settled.push(t.name))
            },
            EventView::Comment(_) => (listed, settled),
        }
    }
}

/// The `i`th event of `evs` is a tag event named `name`.
pub open spec fn is_tag_named(evs: Seq<EventView>, i: int, name: Seq<char>) -> bool {
    0 <= i < evs.len() && (evs[i] matches EventView::Tag(t) && t.name == name)
}

/// The time of the tag event at `i`.
pub open spec fn tag_time(evs: Seq<EventView>, i: int) -> Timestamp {
    evs[i].time()
}

/// Strictly before is transitive, also through a "not after".
proof fn lemma_before_chain(a: Timestamp, b: Timestamp, c: Timestamp)
    ensures
        a.spec_before(b) && b.spec_before(c) ==> a.spec_before(c),
        !b.spec_before(a) && b.spec_before(c) ==> a.spec_before(c),
        !b.spec_before(a) && !c.spec_before(b) ==> !c.spec_before(a),
        !a.spec_before(a),
{
}

/// `recent_tag` finds a tag event exactly when there is one named `name`; what
/// it finds is at some index `i`, no tag event of that name is later in time,
/// and every one before index `i` is earlier in time: it is the first of the
/// latest.
pub proof fn lemma_recent_tag(evs: Seq<EventView>, name: Seq<char>)
    ensures
        recent_tag(evs, name) is None <==> forall|j: int| !#[trigger] is_tag_named(evs, j, name),
        recent_tag(evs, name) matches Some(t) ==> exists|i: int| {
            &&& #[trigger] is_tag_named(evs, i, name)
            &&& evs[i] == EventView::Tag(t)
            &&& forall|j: int| #[trigger] is_tag_named(evs, j, name) ==> !t.time.spec_before(tag_time(evs, j))
            &&& forall|j: int| 0 <= j < i && #[trigger] is_tag_named(evs, j, name) ==> tag_time(evs, j).spec_before(t.time)
        },
    decreases evs.len(),
{
    if evs.len() > 0 {
        let pre = evs.drop_last();
        let n = evs.len() - 1;
        lemma_recent_tag(pre, name);
        assert forall|j: int| 0 <= j < n implies (is_tag_named(evs, j, name) == is_tag_named(pre, j, name)
            && tag_time(evs, j) == tag_time(pre, j)) by {
            assert(evs[j] == pre[j]);
        }
        match evs.last() {
            EventView::Tag(t) => {
                if t.name == name {
                    assert(is_tag_named(evs, n, name));
                    match recent_tag(pre, name) {
                        None => {
                            assert forall|j: int| #[trigger] is_tag_named(evs, j, name) implies !t.time.spec_before(tag_time(evs, j)) by {
                                if j < n {
                                    assert(is_tag_named(pre, j, name));
                                }
                                lemma_before_chain(t.time, t.time, t.time);
                            }
                        },
                        Some(p) => {
                            let ip = choose|i: int| {
                                &&& #[trigger] is_tag_named(pre, i, name)
                                &&& pre[i] == EventView::Tag(p)
                                &&& forall|j: int| #[trigger] is_tag_named(pre, j, name) ==> !p.time.spec_before(tag_time(pre, j))
                                &&& forall|j: int| 0 <= j < i && #[trigger] is_tag_named(pre, j, name) ==> tag_time(pre, j).spec_before(p.time)
                            };
                            assert(is_tag_named(evs, ip, name));
                            if p.time.spec_before(t.time) {
                                assert forall|j: int| #[trigger] is_tag_named(evs, j, name) implies !t.time.spec_before(tag_time(evs, j)) by {
                                    lemma_before_chain(t.time, t.time, t.time);
                                    if j < n {
                                        assert(is_tag_named(pre, j, name));
                                        lemma_before_chain(tag_time(pre, j), p.time, t.time);
                                    }
                                }
                                assert forall|j: int| 0 <= j < n && #[trigger] is_tag_named(evs, j, name) implies tag_time(evs, j).spec_before(t.time) by {
                                    assert(is_tag_named(pre, j, name));
                                    lemma_before_chain(tag_time(pre, j), p.time, t.time);
                                }
                            } else {
                                assert forall|j: int| #[trigger] is_tag_named(evs, j, name) implies !p.time.spec_before(tag_time(evs, j)) by {
                                    if j < n {
                                        assert(is_tag_named(pre, j, name));
                                    }
                                }
                                assert forall|j: int| 0 <= j < ip && #[trigger] is_tag_named(evs, j, name) implies tag_time(evs, j).spec_before(p.time) by {
                                    assert(is_tag_named(pre, j, name));
                                }
                            }
                        },
                    }
                } else {
                    assert(!is_tag_named(evs, n, name));
                    if let Some(p) = recent_tag(pre, name) {
                        let ip = choose|i: int| {
                            &&& #[trigger] is_tag_named(pre, i, name)
                            &&& pre[i] == EventView::Tag(p)
                            &&& forall|j: int| #[trigger] is_tag_named(pre, j, name) ==> !p.time.spec_before(tag_time(pre, j))
                            &&& forall|j: int| 0 <= j < i && #[trigger] is_tag_named(pre, j, name) ==> tag_time(pre, j).spec_before(p.time)
                        };
                        assert(is_tag_named(evs, ip, name));
                        assert forall|j: int| #[trigger] is_tag_named(evs, j, name) implies !p.time.spec_before(tag_time(evs, j)) by {
                            assert(is_tag_named(pre, j, name));
                        }
                        assert forall|j: int| 0 <= j < ip && #[trigger] is_tag_named(evs, j, name) implies tag_time(evs, j).spec_before(p.time) by {
                            assert(is_tag_named(pre, j, name));
                        }
                    } else {
                        assert forall|j: int| !#[trigger] is_tag_named(evs, j, name) by {
                            if j < n && 0 <= j {
                                assert(!is_tag_named(pre, j, name));
                            }
                        }
                    }
                }
            },
            EventView::Comment(_) => {
                assert(!is_tag_named(evs, n, name));
                if let Some(p) = recent_tag(pre, name) {
                    let ip = choose|i: int| {
                        &&& #[trigger] is_tag_named(pre, i, name)
                        &&& pre[i] == EventView::Tag(p)
                        &&& forall|j: int| #[trigger] is_tag_named(pre, j, name) ==> !p.time.spec_before(tag_time(pre, j))
                        &&& forall|j: int| 0 <= j < i && #[trigger] is_tag_named(pre, j, name) ==> tag_time(pre, j).spec_before(p.time)
                    };
                    assert(is_tag_named(evs, ip, name));
                    assert forall|j: int| #[trigger] is_tag_named(evs, j, name) implies !p.time.spec_before(tag_time(evs, j)) by {
                        assert(is_tag_named(pre, j, name));
                    }
                    assert forall|j: int| 0 <= j < ip && #[trigger] is_tag_named(evs, j, name) implies tag_time(evs, j).spec_before(p.time) by {
                        assert(is_tag_named(pre, j, name));
                    }
                } else {
                    assert forall|j: int| !#[trigger] is_tag_named(evs, j, name) by {
                        if j < n && 0 <= j {
                            assert(!is_tag_named(pre, j, name));
                        }
                    }
                }
            },
        }
    }
}

/// The latest tag event named `name` among `evs`.
pub open spec fn last_tag(evs: Seq<EventView>, name: Seq<char>) -> Option<TagView>
    decreases evs.len(),
{
    if evs.len() == 0 {
        None
    } else {
        match last_tag(evs.subrange(1, evs.len() as int), name) {
            Some(t) => Some(t),
            None => match evs[0] {
                EventView::Tag(t) => if t.name == name { Some(t) } else { None },
                EventView::Comment(_) => None,
            },
        }
    }
}

/// A name is listed by `settle_tags` exactly when its latest tag event
/// switched it on, and settled exactly when it has a tag event; no name is
/// listed or settled twice.
pub proof fn lemma_settle_tags(evs: Seq<EventView>)
    ensures
        forall|x: Seq<char>| #[trigger] settle_tags(evs).0.contains(x) <==> (last_tag(evs, x) matches Some(t) && t.enabled),
        forall|x: Seq<char>| #[trigger] settle_tags(evs).1.contains(x) <==> last_tag(evs, x) is Some,
        settle_tags(evs).0.no_duplicates(),
        settle_tags(evs).1.no_duplicates(),
    decreases evs.len(),
{
    if evs.len() > 0 {
        let rest = evs.subrange(1, evs.len() as int);
        lemma_settle_tags(rest);
        let (l, c) = settle_tags(rest);
        match evs[0] {
            EventView::Tag(t) => {
                if !c.contains(t.name) {
                    assert forall|x: Seq<char>| #[trigger] l.push(t.name).contains(x) <==> (l.contains(x) || x == t.name) by {
                        if x == t.name {
                            assert(l.push(t.name)[l.len() as int] == x);
                        }
                        if l.contains(x) {
                            let k = choose|k: int| 0 <= k < l.len() && l[k] == x;
                            assert(l.push(t.name)[k] == x);
                        }
                        if l.push(t.name).contains(x) && x != t.name {
                            let k = choose|k: int| 0 <= k < l.push(t.name).len() && l.push(t.name)[k] == x;
                            assert(l[k] == x);
                        }
                    }
                    assert forall|x: Seq<char>| #[trigger] c.push(t.name).contains(x) <==> (c.contains(x) || x == t.name) by {
                        if x == t.name {
                            assert(c.push(t.name)[c.len() as int] == x);
                        }
                        if c.contains(x) {
                            let k = choose|k: int| 0 <= k < c.len() && c[k] == x;
                            assert(c.push(t.name)[k] == x);
                        }
                        if c.push(t.name).contains(x) && x != t.name {
                            let k = choose|k: int| 0 <= k < c.push(t.name).len() && c.push(t.name)[k] == x;
                            assert(c[k] == x);
                        }
                    }
                    assert(!l.contains(t.name));
                }
            },
            EventView::Comment(_) => {},
        }
    }
}

/// The names of the tags switched on by their latest event, latest first.
pub open spec fn active_tags(evs: Seq<EventView>) -> Seq<Seq<char>> {
    settle_tags(evs).0
}

/// The texts of a sequence of strings.
pub open spec fn names_of(v: Seq<String>) -> Seq<Seq<char>> {
    v.map_values(|s: String| s@)
}

/// Whether `name` is among the texts of `v`.
fn contains_name(v: &Vec<String>, name: &String) -> (r: bool)
    ensures
        r == names_of(v@).contains(name@),
{
    let mut i: usize = 0;
    while i < v.len()
        invariant
            i <= v@.len(),
            forall|j: int| 0 <= j < i ==> v@[j]@ != name@,
        decreases v@.len() - i,
    {
        if v[i] == *name {
            proof {
                assert(names_of(v@)[i as int] == name@);
            }
            return true;
        }
        i = i + 1;
    }
    proof {
        if names_of(v@).contains(name@) {
            let j = choose|j: int| 0 <= j < names_of(v@).len() && names_of(v@)[j] == name@;
            assert(v@[j]@ == name@);
        }
    }
    false
}

impl PartialEq for Issue {
    /// Issues are the same issue when their identifiers are equal.
    fn eq(&self, other: &Issue) -> (r: bool)
        ensures
            r == (self.id@ == other.id@),
    {
        self.id == other.id
    }
}

impl vstd::std_specs::cmp::PartialEqSpecImpl for Issue {
    open spec fn obeys_eq_spec() -> bool {
        true
    }

    open spec fn eq_spec(&self, other: &Issue) -> bool {
        self.id@ == other.id@
    }
}

/// Two issues are equal exactly when their identifiers are, whatever their
/// titles, bodies or timelines hold.
pub proof fn lemma_identity_equality(a: Issue, b: Issue)
    ensures
        a.eq_spec(&b) <==> a.id@ == b.id@,
        a.title@ != b.title@ && a.id@ == b.id@ ==> a.eq_spec(&b),
        a.id@ != b.id@ ==> !a.eq_spec(&b),
{
}

/// No event of `evs` comes before an earlier one in time.
pub open spec fn in_time_order(evs: Seq<IssueTimelineEvent>) -> bool {
    forall|i: int, j: int|
        0 <= i < j < evs.len() ==> !(#[trigger] evs[j]@.time()).spec_before(#[trigger] evs[i]@.time())
}

/// "Not before" is transitive.
proof fn lemma_not_before_trans(a: Timestamp, b: Timestamp, c: Timestamp)
    requires
        !b.spec_before(a),
        !c.spec_before(b),
    ensures
        !c.spec_before(a),
{
}

/// Of two timestamps, one is not before the other.
proof fn lemma_before_total(a: Timestamp, b: Timestamp)
    ensures
        a.spec_before(b) ==> !b.spec_before(a),
        !a.spec_before(b) || !b.spec_before(a),
{
}

impl Issue {
    /// What the timeline's events hold, in order.
    pub open spec fn events_view(&self) -> Seq<EventView> {
        self.events@.map_values(|e: IssueTimelineEvent| e@)
    }

    /// Puts the timeline in time order.
    pub fn sort_events(&mut self)
        ensures
            in_time_order(final(self).events@),
            final(self).events@.to_multiset() == old(self).events@.to_multiset(),
            final(self).title == old(self).title,
            final(self).id == old(self).id,
            final(self).author == old(self).author,
            final(self).body_text == old(self).body_text,
            final(self).branch == old(self).branch,
            final(self).creation_time == old(self).creation_time,
            final(self).status == old(self).status,
    {
        broadcast use vstd::seq_lib::group_to_multiset_ensures, vstd::multiset::group_multiset_axioms;
        let ghost all = self.events@.to_multiset();
        let mut sorted: Vec<IssueTimelineEvent> = Vec::new();
        while self.events.len() > 0
            invariant
                self.events@.to_multiset().add(sorted@.to_multiset()) == all,
                in_time_order(sorted@),
                self.title == old(self).title,
                self.id == old(self).id,
                self.author == old(self).author,
                self.body_text == old(self).body_text,
                self.branch == old(self).branch,
                self.creation_time == old(self).creation_time,
                self.status == old(self).status,
            decreases self.events@.len(),
        {
            let ghost before = self.events@;
            let x = self.events.pop().unwrap();
            proof {
                assert(before =~= self.events@.push(x));
            }
            let mut p: usize = 0;
            while p < sorted.len() && sorted[p].time().before(x.time())
                invariant
                    p <= sorted@.len(),
                    forall|k: int| 0 <= k < p ==> (#[trigger] sorted@[k]@.time()).spec_before(x@.time()),
                decreases sorted@.len() - p,
            {
                p = p + 1;
            }
            let ghost prev = sorted@;
            sorted.insert(p, x);
            proof {
                let n = sorted@;
                assert(n == prev.subrange(0, p as int).push(x) + prev.subrange(p as int, prev.len() as int));
                vstd::seq_lib::lemma_multiset_commutative(
                    prev.subrange(0, p as int).push(x),
                    prev.subrange(p as int, prev.len() as int),
                );
                vstd::seq_lib::lemma_multiset_commutative(
                    prev.subrange(0, p as int),
                    prev.subrange(p as int, prev.len() as int),
                );
                assert(prev.subrange(0, p as int) + prev.subrange(p as int, prev.len() as int) =~= prev);
                let a = prev.subrange(0, p as int);
                let b = prev.subrange(p as int, prev.len() as int);
                a.to_multiset_ensures();
                self.events@.to_multiset_ensures();
                assert(a.push(x).to_multiset() =~= a.to_multiset().insert(x));
                assert(n.to_multiset() =~= prev.to_multiset().insert(x));
                assert(before.to_multiset() =~= self.events@.to_multiset().insert(x));
                assert(self.events@.to_multiset().add(n.to_multiset()) =~= all);
                if p < prev.len() {
                    lemma_before_total(prev[p as int]@.time(), x@.time());
                }
                assert forall|i: int, j: int| 0 <= i < j < n.len() implies !(#[trigger] n[j]@.time()).spec_before(
                    #[trigger] n[i]@.time(),
                ) by {
                    if j < p {
                        assert(n[i] == prev[i] && n[j] == prev[j]);
                    } else if j == p {
                        assert(n[i] == prev[i]);
                        lemma_before_total(prev[i]@.time(), x@.time());
                    } else if i == p {
                        assert(n[j] == prev[j - 1]);
                        assert(!prev[j - 1]@.time().spec_before(prev[p as int]@.time()) || j - 1 == p);
                        lemma_not_before_trans(x@.time(), prev[p as int]@.time(), prev[j - 1]@.time());
                    } else if i < p {
                        assert(n[i] == prev[i] && n[j] == prev[j - 1]);
                        assert(!prev[p as int]@.time().spec_before(x@.time()));
                        lemma_before_total(prev[i]@.time(), x@.time());
                        lemma_not_before_trans(prev[i]@.time(), x@.time(), prev[p as int]@.time());
                        if j - 1 > p {
                            lemma_not_before_trans(prev[i]@.time(), prev[p as int]@.time(), prev[j - 1]@.time());
                        }
                    } else {
                        assert(n[i] == prev[i - 1] && n[j] == prev[j - 1]);
                    }
                }
            }
        }
        self.events = sorted;
    }

    /// Appends a comment to the timeline.
    pub fn add_comment(&mut self, comment: IssueComment)
        ensures
            final(self).events@ == old(self).events@.push(
                IssueTimelineEvent::TimelineComment(comment),
            ),
            final(self).title == old(self).title,
            final(self).id == old(self).id,
            final(self).author == old(self).author,
            final(self).body_text == old(self).body_text,
            final(self).branch == old(self).branch,
            final(self).creation_time == old(self).creation_time,
            final(self).status == old(self).status,
    {
        self.events.push(IssueTimelineEvent::TimelineComment(comment));
    }

    /// Appends a tag event to the timeline.
    pub fn add_tag(&mut self, tag: IssueTag)
        ensures
            final(self).events@ == old(self).events@.push(IssueTimelineEvent::TimelineTag(tag)),
            final(self).title == old(self).title,
            final(self).id == old(self).id,
            final(self).author == old(self).author,
            final(self).body_text == old(self).body_text,
            final(self).branch == old(self).branch,
            final(self).creation_time == old(self).creation_time,
            final(self).status == old(self).status,
    {
        self.events.push(IssueTimelineEvent::TimelineTag(tag));
    }

    /// The latest tag event named `name`; of several at the same latest time,
    /// the first in timeline order.
    pub fn most_recent_tag_for_name<'x>(&'x self, name: &str) -> (r: Option<&'x IssueTag>)
        ensures
            match r {
                Some(t) => recent_tag(self.events_view(), name@) == Some(t@),
                None => recent_tag(self.events_view(), name@) is None,
            },
    {
        let n = String::from_str(name);
        let mut recent: Option<&'x IssueTag> = None;
        let mut i: usize = 0;
        while i < self.events.len()
            invariant
                i <= self.events@.len(),
                n@ == name@,
                match recent {
                    Some(t) => recent_tag(self.events_view().take(i as int), name@) == Some(t@),
                    None => recent_tag(self.events_view().take(i as int), name@) is None,
                },
            decreases self.events@.len() - i,
        {
            proof {
                assert(self.events_view().take(i + 1).drop_last() =~= self.events_view().take(
                    i as int,
                ));
                assert(self.events_view().take(i + 1).last() == self.events@[i as int]@);
            }
            match &self.events[i] {
                IssueTimelineEvent::TimelineTag(tag) => {
                    if tag.tag_name == n {
                        match recent {
                            None => {
                                recent = Some(tag);
                            },
                            Some(old_tag) => {
                                if old_tag.time.before(&tag.time) {
                                    recent = Some(tag);
                                }
                            },
                        }
                    }
                },
                IssueTimelineEvent::TimelineComment(_) => {},
            }
            i = i + 1;
        }
        proof {
            assert(self.events_view().take(i as int) =~= self.events_view());
        }
        recent
    }

    /// The names of the tags that are switched on: each tag name counts once,
    /// by its latest event. Assumes the timeline is in time order.
    pub fn all_tags(&self) -> (r: Vec<String>)
        ensures
            names_of(r@) == active_tags(self.events_view()),
    {
        let mut settled: Vec<String> = Vec::new();
        let mut tag_list: Vec<String> = Vec::new();
        let mut i: usize = self.events.len();
        let ghost evs = self.events_view();
        proof {
            assert(evs.subrange(i as int, evs.len() as int) =~= Seq::<EventView>::empty());
        }
        while i > 0
            invariant
                i <= self.events@.len(),
                evs == self.events_view(),
                settle_tags(evs.subrange(i as int, evs.len() as int)) == (
                    names_of(tag_list@),
                    names_of(settled@),
                ),
            decreases i,
        {
            i = i - 1;
            let ghost tail = evs.subrange(i as int + 1, evs.len() as int);
            proof {
                assert(evs.subrange(i as int, evs.len() as int).subrange(
                    1,
                    evs.len() - i,
                ) =~= tail);
                assert(evs.subrange(i as int, evs.len() as int)[0] == self.events@[i as int]@);
            }
            match &self.events[i] {
                IssueTimelineEvent::TimelineTag(tag) => {
                    let is_settled = contains_name(&settled, &tag.tag_name);
                    if !is_settled {
                        if tag.enabled {
                            let ghost prev_list = tag_list@;
                            tag_list.push(tag.tag_name.clone());
                            proof {
                                assert(names_of(tag_list@) =~= names_of(prev_list).push(
                                    tag.tag_name@,
                                ));
                            }
                        }
                        let ghost prev = settled@;
                        settled.push(tag.tag_name.clone());
                        proof {
                            assert(names_of(settled@) =~= names_of(prev).push(tag.tag_name@));
                        }
                    }
                },
                IssueTimelineEvent::TimelineComment(_) => {},
            }
        }
        proof {
            assert(evs.subrange(0, evs.len() as int) =~= evs);
        }
        tag_list
    }
}

} // verus!
