//! The message data model: a builder over optional delivery fields, and the
//! canonical JSON document it serializes to.
//!
//! Every field that was never set is omitted from the document entirely; a
//! present field is rendered under its fixed key, in the fixed key order of
//! [`doc_pieces`].

use vstd::prelude::*;

use crate::json::bool_text;
use crate::json::comma_join;
use crate::json::decimal;
use crate::json::json_string;
use crate::json::json_string_array;
use crate::json::keyed_bool;
use crate::json::keyed_decimal;
use crate::json::keyed_quoted;
use crate::json::keyed_raw;
use crate::json::keyed_string;
use crate::json::keyed_string_array;
use crate::json::push_comma_joined;
use crate::json::quoted;
use crate::json_map::clone_json_map;
use crate::json_map::json_of_map;
use crate::json_map::map_to_json;

verus! {

/// Delivery priority of a message. Serializes as the lowercase strings
/// `"normal"` and `"high"`, never as the variant names.
#[derive(Clone, Copy, PartialEq, Eq, Debug, Structural)]
pub enum Priority {
    Normal,
    High,
}

/// The wire string for a priority value.
pub open spec fn priority_wire(p: Priority) -> Seq<char> {
    match p {
        Priority::Normal => "normal"@,
        Priority::High => "high"@,
    }
}

/// A stored time-to-live as a mathematical integer.
pub open spec fn ttl_view(o: Option<i32>) -> Option<int> {
    match o {
        Some(n) => Some(n as int),
        None => None,
    }
}

/// The abstract value of a [`Message`]: each optional field as it was set,
/// or `None` where it never was.
pub ghost struct MessageView {
    pub registration_ids: Option<Seq<Seq<char>>>,
    pub collapse_key: Option<Seq<char>>,
    pub priority: Option<Priority>,
    pub content_available: Option<bool>,
    pub delay_while_idle: Option<bool>,
    pub time_to_live: Option<int>,
    pub restricted_package_name: Option<Seq<char>>,
    pub dry_run: Option<bool>,
    pub data: Option<serde_json::Map<String, serde_json::Value>>,
}

/// A push-delivery message under construction: a required recipient list and
/// optional delivery fields, accumulated by fluent setters that each set
/// exactly one field and leave the rest untouched.
pub struct Message {
    registration_ids: Option<Vec<String>>,
    collapse_key: Option<String>,
    priority: Option<Priority>,
    content_available: Option<bool>,
    delay_while_idle: Option<bool>,
    time_to_live: Option<i32>,
    restricted_package_name: Option<String>,
    dry_run: Option<bool>,
    data: Option<serde_json::Map<String, serde_json::Value>>,
}

impl View for Message {
    type V = MessageView;

    closed spec fn view(&self) -> MessageView {
        MessageView {
            registration_ids: self.registration_ids.deep_view(),
            collapse_key: self.collapse_key.deep_view(),
            priority: self.priority,
            content_available: self.content_available,
            delay_while_idle: self.delay_while_idle,
            time_to_live: ttl_view(self.time_to_live),
            restricted_package_name: self.restricted_package_name.deep_view(),
            dry_run: self.dry_run,
            data: self.data,
        }
    }
}

/// The document entry for the recipient list.
pub open spec fn regids_piece(ids: Seq<Seq<char>>) -> Seq<char> {
    "\"registration_ids\":"@ + json_string_array(ids)
}

/// The document entry for the collapse key.
pub open spec fn collapse_piece(k: Seq<char>) -> Seq<char> {
    "\"collapse_key\":"@ + json_string(k)
}

/// The document entry for the priority: always the lowercase wire string.
pub open spec fn priority_piece(p: Priority) -> Seq<char> {
    "\"priority\":"@ + quoted(priority_wire(p))
}

/// The document entry for the content-available hint.
pub open spec fn content_piece(b: bool) -> Seq<char> {
    "\"content_available\":"@ + bool_text(b)
}

/// The document entry for the delay-while-idle flag.
pub open spec fn delay_piece(b: bool) -> Seq<char> {
    "\"delay_while_idle\":"@ + bool_text(b)
}

/// The document entry for the time-to-live, in seconds.
pub open spec fn ttl_piece(n: int) -> Seq<char> {
    "\"time_to_live\":"@ + decimal(n)
}

/// The document entry for the restricted package name.
pub open spec fn restricted_piece(s: Seq<char>) -> Seq<char> {
    "\"restricted_package_name\":"@ + json_string(s)
}

/// The document entry for the dry-run flag.
pub open spec fn dry_run_piece(b: bool) -> Seq<char> {
    "\"dry_run\":"@ + bool_text(b)
}

/// The document entry for the custom payload map.
pub open spec fn data_piece(m: serde_json::Map<String, serde_json::Value>) -> Seq<char> {
    "\"data\":"@ + json_of_map(m)
}

pub open spec fn opt_regids(o: Option<Seq<Seq<char>>>) -> Seq<Seq<char>> {
    match o {
        Some(ids) => seq![regids_piece(ids)],
        None => Seq::empty(),
    }
}

pub open spec fn opt_collapse(o: Option<Seq<char>>) -> Seq<Seq<char>> {
    match o {
        Some(k) => seq![collapse_piece(k)],
        None => Seq::empty(),
    }
}

pub open spec fn opt_priority(o: Option<Priority>) -> Seq<Seq<char>> {
    match o {
        Some(p) => seq![priority_piece(p)],
        None => Seq::empty(),
    }
}

pub open spec fn opt_content(o: Option<bool>) -> Seq<Seq<char>> {
    match o {
        Some(b) => seq![content_piece(b)],
        None => Seq::empty(),
    }
}

pub open spec fn opt_delay(o: Option<bool>) -> Seq<Seq<char>> {
    match o {
        Some(b) => seq![delay_piece(b)],
        None => Seq::empty(),
    }
}

pub open spec fn opt_ttl(o: Option<int>) -> Seq<Seq<char>> {
    match o {
        Some(n) => seq![ttl_piece(n)],
        None => Seq::empty(),
    }
}

pub open spec fn opt_restricted(o: Option<Seq<char>>) -> Seq<Seq<char>> {
    match o {
        Some(s) => seq![restricted_piece(s)],
        None => Seq::empty(),
    }
}

pub open spec fn opt_dry_run(o: Option<bool>) -> Seq<Seq<char>> {
    match o {
        Some(b) => seq![dry_run_piece(b)],
        None => Seq::empty(),
    }
}

pub open spec fn opt_data(o: Option<serde_json::Map<String, serde_json::Value>>) -> Seq<Seq<char>> {
    match o {
        Some(m) => seq![data_piece(m)],
        None => Seq::empty(),
    }
}

/// The entries of the serialized document, in key order: one entry for each
/// field that is set, none for a field that is not.
pub open spec fn doc_pieces(m: MessageView) -> Seq<Seq<char>> {
    opt_regids(m.registration_ids) + opt_collapse(m.collapse_key) + opt_priority(m.priority)
        + opt_content(m.content_available) + opt_delay(m.delay_while_idle) + opt_ttl(
        m.time_to_live,
    ) + opt_restricted(m.restricted_package_name) + opt_dry_run(m.dry_run) + opt_data(m.data)
}

/// The serialized document of a message: its present entries, comma-joined
/// inside braces.
pub open spec fn json_doc(m: MessageView) -> Seq<char> {
    "{"@ + comma_join(doc_pieces(m)) + "}"@
}

/// The wire encoding of an optional priority: `"high"` for `High`, `"normal"`
/// both for `Normal` and for an absent value.
///
/// The serializer only invokes this under its present-field gate, so the
/// absent arm never reaches the document: an unset priority is omitted, not
/// rendered as `"normal"`.
pub fn priority_lowercase(priority_field: &Option<Priority>) -> (r: &'static str)
    ensures
        r@ == (match *priority_field {
            Some(p) => priority_wire(p),
            None => "normal"@,
        }),
{
    match priority_field {
        Some(Priority::High) => "high",
        Some(Priority::Normal) => "normal",
        None => "normal",
    }
}

fn add_regids(pieces: &mut Vec<String>, o: &Option<Vec<String>>)
    ensures
        final(pieces).deep_view() == old(pieces).deep_view() + opt_regids(o.deep_view()),
{
    let ghost prev = pieces.deep_view();
    if let Some(ids) = o {
        let piece = keyed_string_array("\"registration_ids\":", ids);
        let ghost pv = piece@;
        pieces.push(piece);
        proof {
            assert(pv == regids_piece(ids.deep_view()));
            assert(pieces.deep_view() =~= prev + opt_regids(o.deep_view()));
        }
    } else {
        proof {
            assert(pieces.deep_view() =~= prev + opt_regids(o.deep_view()));
        }
    }
}

fn add_collapse(pieces: &mut Vec<String>, o: &Option<String>)
    ensures
        final(pieces).deep_view() == old(pieces).deep_view() + opt_collapse(o.deep_view()),
{
    let ghost prev = pieces.deep_view();
    if let Some(k) = o {
        let piece = keyed_string("\"collapse_key\":", k.as_str());
        let ghost pv = piece@;
        pieces.push(piece);
        proof {
            assert(pv == collapse_piece(k@));
            assert(pieces.deep_view() =~= prev + opt_collapse(o.deep_view()));
        }
    } else {
        proof {
            assert(pieces.deep_view() =~= prev + opt_collapse(o.deep_view()));
        }
    }
}

fn add_priority(pieces: &mut Vec<String>, o: &Option<Priority>)
    ensures
        final(pieces).deep_view() == old(pieces).deep_view() + opt_priority(*o),
{
    let ghost prev = pieces.deep_view();
    if let Some(p) = o {
        let piece = keyed_quoted("\"priority\":", priority_lowercase(o));
        let ghost pv = piece@;
        pieces.push(piece);
        proof {
            assert(pv =~= priority_piece(*p));
            assert(pieces.deep_view() =~= prev + opt_priority(*o));
        }
    } else {
        proof {
            assert(pieces.deep_view() =~= prev + opt_priority(*o));
        }
    }
}

fn add_content(pieces: &mut Vec<String>, o: &Option<bool>)
    ensures
        final(pieces).deep_view() == old(pieces).deep_view() + opt_content(*o),
{
    let ghost prev = pieces.deep_view();
    if let Some(b) = o {
        let piece = keyed_bool("\"content_available\":", *b);
        let ghost pv = piece@;
        pieces.push(piece);
        proof {
            assert(pv == content_piece(*b));
            assert(pieces.deep_view() =~= prev + opt_content(*o));
        }
    } else {
        proof {
            assert(pieces.deep_view() =~= prev + opt_content(*o));
        }
    }
}

fn add_delay(pieces: &mut Vec<String>, o: &Option<bool>)
    ensures
        final(pieces).deep_view() == old(pieces).deep_view() + opt_delay(*o),
{
    let ghost prev = pieces.deep_view();
    if let Some(b) = o {
        let piece = keyed_bool("\"delay_while_idle\":", *b);
        let ghost pv = piece@;
        pieces.push(piece);
        proof {
            assert(pv == delay_piece(*b));
            assert(pieces.deep_view() =~= prev + opt_delay(*o));
        }
    } else {
        proof {
            assert(pieces.deep_view() =~= prev + opt_delay(*o));
        }
    }
}

fn add_ttl(pieces: &mut Vec<String>, o: &Option<i32>)
    ensures
        final(pieces).deep_view() == old(pieces).deep_view() + opt_ttl(ttl_view(*o)),
{
    let ghost prev = pieces.deep_view();
    if let Some(n) = o {
        let piece = keyed_decimal("\"time_to_live\":", *n);
        let ghost pv = piece@;
        pieces.push(piece);
        proof {
            assert(pv == ttl_piece(*n as int));
            assert(pieces.deep_view() =~= prev + opt_ttl(ttl_view(*o)));
        }
    } else {
        proof {
            assert(pieces.deep_view() =~= prev + opt_ttl(ttl_view(*o)));
        }
    }
}

fn add_restricted(pieces: &mut Vec<String>, o: &Option<String>)
    ensures
        final(pieces).deep_view() == old(pieces).deep_view() + opt_restricted(o.deep_view()),
{
    let ghost prev = pieces.deep_view();
    if let Some(s) = o {
        let piece = keyed_string("\"restricted_package_name\":", s.as_str());
        let ghost pv = piece@;
        pieces.push(piece);
        proof {
            assert(pv == restricted_piece(s@));
            assert(pieces.deep_view() =~= prev + opt_restricted(o.deep_view()));
        }
    } else {
        proof {
            assert(pieces.deep_view() =~= prev + opt_restricted(o.deep_view()));
        }
    }
}

fn add_dry_run(pieces: &mut Vec<String>, o: &Option<bool>)
    ensures
        final(pieces).deep_view() == old(pieces).deep_view() + opt_dry_run(*o),
{
    let ghost prev = pieces.deep_view();
    if let Some(b) = o {
        let piece = keyed_bool("\"dry_run\":", *b);
        let ghost pv = piece@;
        pieces.push(piece);
        proof {
            assert(pv == dry_run_piece(*b));
            assert(pieces.deep_view() =~= prev + opt_dry_run(*o));
        }
    } else {
        proof {
            assert(pieces.deep_view() =~= prev + opt_dry_run(*o));
        }
    }
}

fn add_data(pieces: &mut Vec<String>, o: &Option<serde_json::Map<String, serde_json::Value>>)
    ensures
        final(pieces).deep_view() == old(pieces).deep_view() + opt_data(*o),
{
    let ghost prev = pieces.deep_view();
    if let Some(d) = o {
        let rendered = map_to_json(d);
        let piece = keyed_raw("\"data\":", rendered.as_str());
        let ghost pv = piece@;
        pieces.push(piece);
        proof {
            assert(pv == data_piece(*d));
            assert(pieces.deep_view() =~= prev + opt_data(*o));
        }
    } else {
        proof {
            assert(pieces.deep_view() =~= prev + opt_data(*o));
        }
    }
}

impl Message {
    /// A new message to the given recipients; every other field is unset.
    pub fn new(registration_ids: Vec<String>) -> (r: Message)
        ensures
            r@ == (MessageView {
                registration_ids: Some(registration_ids.deep_view()),
                collapse_key: None,
                priority: None,
                content_available: None,
                delay_while_idle: None,
                time_to_live: None,
                restricted_package_name: None,
                dry_run: None,
                data: None,
            }),
    {
        Message {
            registration_ids: Some(registration_ids),
            collapse_key: None,
            priority: None,
            content_available: None,
            delay_while_idle: None,
            time_to_live: None,
            restricted_package_name: None,
            dry_run: None,
            data: None,
        }
    }

    /// Sets the tag under which the delivery service may collapse superseding
    /// messages; every other field keeps its value.
    pub fn collapse_key(self, collapse_key: String) -> (r: Self)
        ensures
            r@ == (MessageView { collapse_key: Some(collapse_key@), ..self@ }),
    {
        Message { collapse_key: Some(collapse_key), ..self }
    }

    /// Sets the delivery priority; every other field keeps its value.
    pub fn priority(self, priority: Priority) -> (r: Self)
        ensures
            r@ == (MessageView { priority: Some(priority), ..self@ }),
    {
        Message { priority: Some(priority), ..self }
    }

    /// Sets the content-available wake hint; every other field keeps its value.
    pub fn content_available(self, content_available: bool) -> (r: Self)
        ensures
            r@ == (MessageView { content_available: Some(content_available), ..self@ }),
    {
        Message { content_available: Some(content_available), ..self }
    }

    /// Sets whether delivery waits for the device to become active; every
    /// other field keeps its value.
    pub fn delay_while_idle(self, delay_while_idle: bool) -> (r: Self)
        ensures
            r@ == (MessageView { delay_while_idle: Some(delay_while_idle), ..self@ }),
    {
        Message { delay_while_idle: Some(delay_while_idle), ..self }
    }

    /// Sets how long, in seconds, the service keeps the message for an offline
    /// device. No range is enforced here; the service applies its own maximum.
    /// Every other field keeps its value.
    pub fn time_to_live(self, time_to_live: i32) -> (r: Self)
        ensures
            r@ == (MessageView { time_to_live: Some(time_to_live as int), ..self@ }),
    {
        Message { time_to_live: Some(time_to_live), ..self }
    }

    /// Sets the package name the registration tokens must match; every other
    /// field keeps its value.
    pub fn restricted_package_name(self, restricted_package_name: String) -> (r: Self)
        ensures
            r@ == (MessageView {
                restricted_package_name: Some(restricted_package_name@),
                ..self@
            }),
    {
        Message { restricted_package_name: Some(restricted_package_name), ..self }
    }

    /// Sets the dry-run flag, requesting validation without delivery; every
    /// other field keeps its value.
    pub fn dry_run(self, dry_run: bool) -> (r: Self)
        ensures
            r@ == (MessageView { dry_run: Some(dry_run), ..self@ }),
    {
        Message { dry_run: Some(dry_run), ..self }
    }

    /// Stores a copy of the caller's payload map; later changes to the
    /// caller's map do not reach the stored copy. Every other field keeps its
    /// value.
    pub fn data(self, data: &serde_json::Map<String, serde_json::Value>) -> (r: Self)
        ensures
            r@ == (MessageView { data: Some(*data), ..self@ }),
    {
        Message { data: Some(clone_json_map(data)), ..self }
    }

    /// Marks the end of a builder chain. The message is returned unchanged,
    /// so serializing after any number of `build` calls yields the identical
    /// document.
    pub fn build(self) -> (r: Self)
        ensures
            r == self,
    {
        self
    }

    /// Serializes the message as its canonical JSON document: exactly the
    /// entries of [`doc_pieces`], comma-joined inside braces, so a field
    /// appears if and only if it is set.
    pub fn to_json(&self) -> (r: String)
        ensures
            r@ == json_doc(self@),
    {
        let mut pieces: Vec<String> = Vec::new();
        add_regids(&mut pieces, &self.registration_ids);
        add_collapse(&mut pieces, &self.collapse_key);
        add_priority(&mut pieces, &self.priority);
        add_content(&mut pieces, &self.content_available);
        add_delay(&mut pieces, &self.delay_while_idle);
        add_ttl(&mut pieces, &self.time_to_live);
        add_restricted(&mut pieces, &self.restricted_package_name);
        add_dry_run(&mut pieces, &self.dry_run);
        add_data(&mut pieces, &self.data);
        proof {
            assert(pieces.deep_view() =~= doc_pieces(self@));
        }
        let mut out = String::new();
        out.append("{");
        push_comma_joined(&mut out, &pieces);
        out.append("}");
        proof {
            assert(out@ =~= json_doc(self@));
        }
        out
    }
}

/// True when some entry of `ps` begins with `key`.
pub open spec fn has_entry(ps: Seq<Seq<char>>, key: Seq<char>) -> bool {
    exists|i: int| 0 <= i < ps.len() && key.is_prefix_of(#[trigger] ps[i])
}

pub broadcast proof fn lemma_has_entry_concat(a: Seq<Seq<char>>, b: Seq<Seq<char>>, key: Seq<char>)
    ensures
        #[trigger] has_entry(a + b, key) <==> has_entry(a, key) || has_entry(b, key),
{
    if has_entry(a + b, key) {
        let i = choose|i: int| 0 <= i < (a + b).len() && key.is_prefix_of(#[trigger] (a + b)[i]);
        if i < a.len() {
            assert(key.is_prefix_of(a[i]));
        } else {
            assert(key.is_prefix_of(b[i - a.len()]));
        }
    }
    if has_entry(a, key) {
        let i = choose|i: int| 0 <= i < a.len() && key.is_prefix_of(#[trigger] a[i]);
        assert(key.is_prefix_of((a + b)[i]));
    }
    if has_entry(b, key) {
        let i = choose|i: int| 0 <= i < b.len() && key.is_prefix_of(#[trigger] b[i]);
        assert(key.is_prefix_of((a + b)[a.len() + i]));
    }
}

proof fn lemma_key_prefix(key: Seq<char>, tail: Seq<char>)
    ensures
        key.is_prefix_of(key + tail),
{
    assert(key =~= (key + tail).subrange(0, key.len() as int));
}

proof fn lemma_not_prefix_at(key: Seq<char>, p: Seq<char>, j: int)
    requires
        0 <= j < key.len(),
        j < p.len(),
        key[j] != p[j],
    ensures
        !key.is_prefix_of(p),
{
    if key.is_prefix_of(p) {
        assert(key[j] == p.subrange(0, key.len() as int)[j]);
        assert(p.subrange(0, key.len() as int)[j] == p[j]);
    }
}

proof fn lemma_no_entry_singleton(p: Seq<char>, key: Seq<char>)
    requires
        !key.is_prefix_of(p),
    ensures
        !has_entry(seq![p], key),
{
    assert forall|i: int| 0 <= i < seq![p].len() implies !key.is_prefix_of(#[trigger] seq![p][i]) by {
        assert(seq![p][i] == p);
    }
}

proof fn lemma_no_entry_empty(key: Seq<char>)
    ensures
        !has_entry(Seq::<Seq<char>>::empty(), key),
{
    assert(Seq::<Seq<char>>::empty().len() == 0);
}

proof fn lemma_regids_prefixes(v: Seq<Seq<char>>)
    ensures
        "\"registration_ids\":"@.is_prefix_of(regids_piece(v)),
        !"\"collapse_key\":"@.is_prefix_of(regids_piece(v)),
        !"\"priority\":"@.is_prefix_of(regids_piece(v)),
        !"\"content_available\":"@.is_prefix_of(regids_piece(v)),
        !"\"delay_while_idle\":"@.is_prefix_of(regids_piece(v)),
        !"\"time_to_live\":"@.is_prefix_of(regids_piece(v)),
        !"\"restricted_package_name\":"@.is_prefix_of(regids_piece(v)),
        !"\"dry_run\":"@.is_prefix_of(regids_piece(v)),
        !"\"data\":"@.is_prefix_of(regids_piece(v)),
{
    reveal_strlit("\"registration_ids\":");
    reveal_strlit("\"collapse_key\":");
    reveal_strlit("\"priority\":");
    reveal_strlit("\"content_available\":");
    reveal_strlit("\"delay_while_idle\":");
    reveal_strlit("\"time_to_live\":");
    reveal_strlit("\"restricted_package_name\":");
    reveal_strlit("\"dry_run\":");
    reveal_strlit("\"data\":");
    let p = regids_piece(v);
    lemma_key_prefix("\"registration_ids\":"@, json_string_array(v));
    assert(p[1] == 'r');
    assert(p[3] == 'g');
    lemma_not_prefix_at("\"collapse_key\":"@, p, 1);
    lemma_not_prefix_at("\"priority\":"@, p, 1);
    lemma_not_prefix_at("\"content_available\":"@, p, 1);
    lemma_not_prefix_at("\"delay_while_idle\":"@, p, 1);
    lemma_not_prefix_at("\"time_to_live\":"@, p, 1);
    lemma_not_prefix_at("\"restricted_package_name\":"@, p, 3);
    lemma_not_prefix_at("\"dry_run\":"@, p, 1);
    lemma_not_prefix_at("\"data\":"@, p, 1);
}

proof fn lemma_collapse_prefixes(v: Seq<char>)
    ensures
        "\"collapse_key\":"@.is_prefix_of(collapse_piece(v)),
        !"\"registration_ids\":"@.is_prefix_of(collapse_piece(v)),
        !"\"priority\":"@.is_prefix_of(collapse_piece(v)),
        !"\"content_available\":"@.is_prefix_of(collapse_piece(v)),
        !"\"delay_while_idle\":"@.is_prefix_of(collapse_piece(v)),
        !"\"time_to_live\":"@.is_prefix_of(collapse_piece(v)),
        !"\"restricted_package_name\":"@.is_prefix_of(collapse_piece(v)),
        !"\"dry_run\":"@.is_prefix_of(collapse_piece(v)),
        !"\"data\":"@.is_prefix_of(collapse_piece(v)),
{
    reveal_strlit("\"registration_ids\":");
    reveal_strlit("\"collapse_key\":");
    reveal_strlit("\"priority\":");
    reveal_strlit("\"content_available\":");
    reveal_strlit("\"delay_while_idle\":");
    reveal_strlit("\"time_to_live\":");
    reveal_strlit("\"restricted_package_name\":");
    reveal_strlit("\"dry_run\":");
    reveal_strlit("\"data\":");
    let p = collapse_piece(v);
    lemma_key_prefix("\"collapse_key\":"@, json_string(v));
    assert(p[1] == 'c');
    assert(p[3] == 'l');
    lemma_not_prefix_at("\"registration_ids\":"@, p, 1);
    lemma_not_prefix_at("\"priority\":"@, p, 1);
    lemma_not_prefix_at("\"content_available\":"@, p, 3);
    lemma_not_prefix_at("\"delay_while_idle\":"@, p, 1);
    lemma_not_prefix_at("\"time_to_live\":"@, p, 1);
    lemma_not_prefix_at("\"restricted_package_name\":"@, p, 1);
    lemma_not_prefix_at("\"dry_run\":"@, p, 1);
    lemma_not_prefix_at("\"data\":"@, p, 1);
}

proof fn lemma_priority_prefixes(v: Priority)
    ensures
        "\"priority\":"@.is_prefix_of(priority_piece(v)),
        !"\"registration_ids\":"@.is_prefix_of(priority_piece(v)),
        !"\"collapse_key\":"@.is_prefix_of(priority_piece(v)),
        !"\"content_available\":"@.is_prefix_of(priority_piece(v)),
        !"\"delay_while_idle\":"@.is_prefix_of(priority_piece(v)),
        !"\"time_to_live\":"@.is_prefix_of(priority_piece(v)),
        !"\"restricted_package_name\":"@.is_prefix_of(priority_piece(v)),
        !"\"dry_run\":"@.is_prefix_of(priority_piece(v)),
        !"\"data\":"@.is_prefix_of(priority_piece(v)),
{
    reveal_strlit("\"registration_ids\":");
    reveal_strlit("\"collapse_key\":");
    reveal_strlit("\"priority\":");
    reveal_strlit("\"content_available\":");
    reveal_strlit("\"delay_while_idle\":");
    reveal_strlit("\"time_to_live\":");
    reveal_strlit("\"restricted_package_name\":");
    reveal_strlit("\"dry_run\":");
    reveal_strlit("\"data\":");
    let p = priority_piece(v);
    lemma_key_prefix("\"priority\":"@, quoted(priority_wire(v)));
    assert(p[1] == 'p');
    lemma_not_prefix_at("\"registration_ids\":"@, p, 1);
    lemma_not_prefix_at("\"collapse_key\":"@, p, 1);
    lemma_not_prefix_at("\"content_available\":"@, p, 1);
    lemma_not_prefix_at("\"delay_while_idle\":"@, p, 1);
    lemma_not_prefix_at("\"time_to_live\":"@, p, 1);
    lemma_not_prefix_at("\"restricted_package_name\":"@, p, 1);
    lemma_not_prefix_at("\"dry_run\":"@, p, 1);
    lemma_not_prefix_at("\"data\":"@, p, 1);
}

proof fn lemma_content_prefixes(v: bool)
    ensures
        "\"content_available\":"@.is_prefix_of(content_piece(v)),
        !"\"registration_ids\":"@.is_prefix_of(content_piece(v)),
        !"\"collapse_key\":"@.is_prefix_of(content_piece(v)),
        !"\"priority\":"@.is_prefix_of(content_piece(v)),
        !"\"delay_while_idle\":"@.is_prefix_of(content_piece(v)),
        !"\"time_to_live\":"@.is_prefix_of(content_piece(v)),
        !"\"restricted_package_name\":"@.is_prefix_of(content_piece(v)),
        !"\"dry_run\":"@.is_prefix_of(content_piece(v)),
        !"\"data\":"@.is_prefix_of(content_piece(v)),
{
    reveal_strlit("\"registration_ids\":");
    reveal_strlit("\"collapse_key\":");
    reveal_strlit("\"priority\":");
    reveal_strlit("\"content_available\":");
    reveal_strlit("\"delay_while_idle\":");
    reveal_strlit("\"time_to_live\":");
    reveal_strlit("\"restricted_package_name\":");
    reveal_strlit("\"dry_run\":");
    reveal_strlit("\"data\":");
    let p = content_piece(v);
    lemma_key_prefix("\"content_available\":"@, bool_text(v));
    assert(p[1] == 'c');
    assert(p[3] == 'n');
    lemma_not_prefix_at("\"registration_ids\":"@, p, 1);
    lemma_not_prefix_at("\"collapse_key\":"@, p, 3);
    lemma_not_prefix_at("\"priority\":"@, p, 1);
    lemma_not_prefix_at("\"delay_while_idle\":"@, p, 1);
    lemma_not_prefix_at("\"time_to_live\":"@, p, 1);
    lemma_not_prefix_at("\"restricted_package_name\":"@, p, 1);
    lemma_not_prefix_at("\"dry_run\":"@, p, 1);
    lemma_not_prefix_at("\"data\":"@, p, 1);
}

proof fn lemma_delay_prefixes(v: bool)
    ensures
        "\"delay_while_idle\":"@.is_prefix_of(delay_piece(v)),
        !"\"registration_ids\":"@.is_prefix_of(delay_piece(v)),
        !"\"collapse_key\":"@.is_prefix_of(delay_piece(v)),
        !"\"priority\":"@.is_prefix_of(delay_piece(v)),
        !"\"content_available\":"@.is_prefix_of(delay_piece(v)),
        !"\"time_to_live\":"@.is_prefix_of(delay_piece(v)),
        !"\"restricted_package_name\":"@.is_prefix_of(delay_piece(v)),
        !"\"dry_run\":"@.is_prefix_of(delay_piece(v)),
        !"\"data\":"@.is_prefix_of(delay_piece(v)),
{
    reveal_strlit("\"registration_ids\":");
    reveal_strlit("\"collapse_key\":");
    reveal_strlit("\"priority\":");
    reveal_strlit("\"content_available\":");
    reveal_strlit("\"delay_while_idle\":");
    reveal_strlit("\"time_to_live\":");
    reveal_strlit("\"restricted_package_name\":");
    reveal_strlit("\"dry_run\":");
    reveal_strlit("\"data\":");
    let p = delay_piece(v);
    lemma_key_prefix("\"delay_while_idle\":"@, bool_text(v));
    assert(p[1] == 'd');
    assert(p[2] == 'e');
    lemma_not_prefix_at("\"registration_ids\":"@, p, 1);
    lemma_not_prefix_at("\"collapse_key\":"@, p, 1);
    lemma_not_prefix_at("\"priority\":"@, p, 1);
    lemma_not_prefix_at("\"content_available\":"@, p, 1);
    lemma_not_prefix_at("\"time_to_live\":"@, p, 1);
    lemma_not_prefix_at("\"restricted_package_name\":"@, p, 1);
    lemma_not_prefix_at("\"dry_run\":"@, p, 2);
    lemma_not_prefix_at("\"data\":"@, p, 2);
}

proof fn lemma_ttl_prefixes(v: int)
    ensures
        "\"time_to_live\":"@.is_prefix_of(ttl_piece(v)),
        !"\"registration_ids\":"@.is_prefix_of(ttl_piece(v)),
        !"\"collapse_key\":"@.is_prefix_of(ttl_piece(v)),
        !"\"priority\":"@.is_prefix_of(ttl_piece(v)),
        !"\"content_available\":"@.is_prefix_of(ttl_piece(v)),
        !"\"delay_while_idle\":"@.is_prefix_of(ttl_piece(v)),
        !"\"restricted_package_name\":"@.is_prefix_of(ttl_piece(v)),
        !"\"dry_run\":"@.is_prefix_of(ttl_piece(v)),
        !"\"data\":"@.is_prefix_of(ttl_piece(v)),
{
    reveal_strlit("\"registration_ids\":");
    reveal_strlit("\"collapse_key\":");
    reveal_strlit("\"priority\":");
    reveal_strlit("\"content_available\":");
    reveal_strlit("\"delay_while_idle\":");
    reveal_strlit("\"time_to_live\":");
    reveal_strlit("\"restricted_package_name\":");
    reveal_strlit("\"dry_run\":");
    reveal_strlit("\"data\":");
    let p = ttl_piece(v);
    lemma_key_prefix("\"time_to_live\":"@, decimal(v));
    assert(p[1] == 't');
    lemma_not_prefix_at("\"registration_ids\":"@, p, 1);
    lemma_not_prefix_at("\"collapse_key\":"@, p, 1);
    lemma_not_prefix_at("\"priority\":"@, p, 1);
    lemma_not_prefix_at("\"content_available\":"@, p, 1);
    lemma_not_prefix_at("\"delay_while_idle\":"@, p, 1);
    lemma_not_prefix_at("\"restricted_package_name\":"@, p, 1);
    lemma_not_prefix_at("\"dry_run\":"@, p, 1);
    lemma_not_prefix_at("\"data\":"@, p, 1);
}

proof fn lemma_restricted_prefixes(v: Seq<char>)
    ensures
        "\"restricted_package_name\":"@.is_prefix_of(restricted_piece(v)),
        !"\"registration_ids\":"@.is_prefix_of(restricted_piece(v)),
        !"\"collapse_key\":"@.is_prefix_of(restricted_piece(v)),
        !"\"priority\":"@.is_prefix_of(restricted_piece(v)),
        !"\"content_available\":"@.is_prefix_of(restricted_piece(v)),
        !"\"delay_while_idle\":"@.is_prefix_of(restricted_piece(v)),
        !"\"time_to_live\":"@.is_prefix_of(restricted_piece(v)),
        !"\"dry_run\":"@.is_prefix_of(restricted_piece(v)),
        !"\"data\":"@.is_prefix_of(restricted_piece(v)),
{
    reveal_strlit("\"registration_ids\":");
    reveal_strlit("\"collapse_key\":");
    reveal_strlit("\"priority\":");
    reveal_strlit("\"content_available\":");
    reveal_strlit("\"delay_while_idle\":");
    reveal_strlit("\"time_to_live\":");
    reveal_strlit("\"restricted_package_name\":");
    reveal_strlit("\"dry_run\":");
    reveal_strlit("\"data\":");
    let p = restricted_piece(v);
    lemma_key_prefix("\"restricted_package_name\":"@, json_string(v));
    assert(p[1] == 'r');
    assert(p[3] == 's');
    lemma_not_prefix_at("\"registration_ids\":"@, p, 3);
    lemma_not_prefix_at("\"collapse_key\":"@, p, 1);
    lemma_not_prefix_at("\"priority\":"@, p, 1);
    lemma_not_prefix_at("\"content_available\":"@, p, 1);
    lemma_not_prefix_at("\"delay_while_idle\":"@, p, 1);
    lemma_not_prefix_at("\"time_to_live\":"@, p, 1);
    lemma_not_prefix_at("\"dry_run\":"@, p, 1);
    lemma_not_prefix_at("\"data\":"@, p, 1);
}

proof fn lemma_dry_run_prefixes(v: bool)
    ensures
        "\"dry_run\":"@.is_prefix_of(dry_run_piece(v)),
        !"\"registration_ids\":"@.is_prefix_of(dry_run_piece(v)),
        !"\"collapse_key\":"@.is_prefix_of(dry_run_piece(v)),
        !"\"priority\":"@.is_prefix_of(dry_run_piece(v)),
        !"\"content_available\":"@.is_prefix_of(dry_run_piece(v)),
        !"\"delay_while_idle\":"@.is_prefix_of(dry_run_piece(v)),
        !"\"time_to_live\":"@.is_prefix_of(dry_run_piece(v)),
        !"\"restricted_package_name\":"@.is_prefix_of(dry_run_piece(v)),
        !"\"data\":"@.is_prefix_of(dry_run_piece(v)),
{
    reveal_strlit("\"registration_ids\":");
    reveal_strlit("\"collapse_key\":");
    reveal_strlit("\"priority\":");
    reveal_strlit("\"content_available\":");
    reveal_strlit("\"delay_while_idle\":");
    reveal_strlit("\"time_to_live\":");
    reveal_strlit("\"restricted_package_name\":");
    reveal_strlit("\"dry_run\":");
    reveal_strlit("\"data\":");
    let p = dry_run_piece(v);
    lemma_key_prefix("\"dry_run\":"@, bool_text(v));
    assert(p[1] == 'd');
    assert(p[2] == 'r');
    lemma_not_prefix_at("\"registration_ids\":"@, p, 1);
    lemma_not_prefix_at("\"collapse_key\":"@, p, 1);
    lemma_not_prefix_at("\"priority\":"@, p, 1);
    lemma_not_prefix_at("\"content_available\":"@, p, 1);
    lemma_not_prefix_at("\"delay_while_idle\":"@, p, 2);
    lemma_not_prefix_at("\"time_to_live\":"@, p, 1);
    lemma_not_prefix_at("\"restricted_package_name\":"@, p, 1);
    lemma_not_prefix_at("\"data\":"@, p, 2);
}

proof fn lemma_data_prefixes(v: serde_json::Map<String, serde_json::Value>)
    ensures
        "\"data\":"@.is_prefix_of(data_piece(v)),
        !"\"registration_ids\":"@.is_prefix_of(data_piece(v)),
        !"\"collapse_key\":"@.is_prefix_of(data_piece(v)),
        !"\"priority\":"@.is_prefix_of(data_piece(v)),
        !"\"content_available\":"@.is_prefix_of(data_piece(v)),
        !"\"delay_while_idle\":"@.is_prefix_of(data_piece(v)),
        !"\"time_to_live\":"@.is_prefix_of(data_piece(v)),
        !"\"restricted_package_name\":"@.is_prefix_of(data_piece(v)),
        !"\"dry_run\":"@.is_prefix_of(data_piece(v)),
{
    reveal_strlit("\"registration_ids\":");
    reveal_strlit("\"collapse_key\":");
    reveal_strlit("\"priority\":");
    reveal_strlit("\"content_available\":");
    reveal_strlit("\"delay_while_idle\":");
    reveal_strlit("\"time_to_live\":");
    reveal_strlit("\"restricted_package_name\":");
    reveal_strlit("\"dry_run\":");
    reveal_strlit("\"data\":");
    let p = data_piece(v);
    lemma_key_prefix("\"data\":"@, json_of_map(v));
    assert(p[1] == 'd');
    assert(p[2] == 'a');
    lemma_not_prefix_at("\"registration_ids\":"@, p, 1);
    lemma_not_prefix_at("\"collapse_key\":"@, p, 1);
    lemma_not_prefix_at("\"priority\":"@, p, 1);
    lemma_not_prefix_at("\"content_available\":"@, p, 1);
    lemma_not_prefix_at("\"delay_while_idle\":"@, p, 2);
    lemma_not_prefix_at("\"time_to_live\":"@, p, 1);
    lemma_not_prefix_at("\"restricted_package_name\":"@, p, 1);
    lemma_not_prefix_at("\"dry_run\":"@, p, 2);
}

/// A field's entry stands in the serialized document exactly when the field
/// is set: some document entry begins with a field's key marker if and only
/// if that field was set, and a set field contributes its exact entry. In
/// particular an unset field is omitted entirely, never filled with a
/// default.
#[verifier::rlimit(60)]
pub proof fn lemma_doc_entry_iff_field_set(m: MessageView)
    ensures
        has_entry(doc_pieces(m), "\"registration_ids\":"@) <==> m.registration_ids is Some,
        has_entry(doc_pieces(m), "\"collapse_key\":"@) <==> m.collapse_key is Some,
        has_entry(doc_pieces(m), "\"priority\":"@) <==> m.priority is Some,
        has_entry(doc_pieces(m), "\"content_available\":"@) <==> m.content_available is Some,
        has_entry(doc_pieces(m), "\"delay_while_idle\":"@) <==> m.delay_while_idle is Some,
        has_entry(doc_pieces(m), "\"time_to_live\":"@) <==> m.time_to_live is Some,
        has_entry(doc_pieces(m), "\"restricted_package_name\":"@) <==> m.restricted_package_name is Some,
        has_entry(doc_pieces(m), "\"dry_run\":"@) <==> m.dry_run is Some,
        has_entry(doc_pieces(m), "\"data\":"@) <==> m.data is Some,
        m.registration_ids matches Some(v) ==> doc_pieces(m).contains(regids_piece(v)),
        m.collapse_key matches Some(v) ==> doc_pieces(m).contains(collapse_piece(v)),
        m.priority matches Some(v) ==> doc_pieces(m).contains(priority_piece(v)),
        m.content_available matches Some(v) ==> doc_pieces(m).contains(content_piece(v)),
        m.delay_while_idle matches Some(v) ==> doc_pieces(m).contains(delay_piece(v)),
        m.time_to_live matches Some(v) ==> doc_pieces(m).contains(ttl_piece(v)),
        m.restricted_package_name matches Some(v) ==> doc_pieces(m).contains(restricted_piece(v)),
        m.dry_run matches Some(v) ==> doc_pieces(m).contains(dry_run_piece(v)),
        m.data matches Some(v) ==> doc_pieces(m).contains(data_piece(v)),
{
    broadcast use lemma_has_entry_concat;
    broadcast use vstd::seq_lib::lemma_seq_concat_contains_all_elements;

    match m.registration_ids {
        Some(v) => {
            lemma_regids_prefixes(v);
            assert(opt_regids(m.registration_ids) == seq![regids_piece(v)]);
            assert(seq![regids_piece(v)][0] == regids_piece(v));
            assert(has_entry(opt_regids(m.registration_ids), "\"registration_ids\":"@));
            assert(opt_regids(m.registration_ids).contains(regids_piece(v)));
            lemma_no_entry_singleton(regids_piece(v), "\"collapse_key\":"@);
            assert(!has_entry(opt_regids(m.registration_ids), "\"collapse_key\":"@));
            lemma_no_entry_singleton(regids_piece(v), "\"priority\":"@);
            assert(!has_entry(opt_regids(m.registration_ids), "\"priority\":"@));
            lemma_no_entry_singleton(regids_piece(v), "\"content_available\":"@);
            assert(!has_entry(opt_regids(m.registration_ids), "\"content_available\":"@));
            lemma_no_entry_singleton(regids_piece(v), "\"delay_while_idle\":"@);
            assert(!has_entry(opt_regids(m.registration_ids), "\"delay_while_idle\":"@));
            lemma_no_entry_singleton(regids_piece(v), "\"time_to_live\":"@);
            assert(!has_entry(opt_regids(m.registration_ids), "\"time_to_live\":"@));
            lemma_no_entry_singleton(regids_piece(v), "\"restricted_package_name\":"@);
            assert(!has_entry(opt_regids(m.registration_ids), "\"restricted_package_name\":"@));
            lemma_no_entry_singleton(regids_piece(v), "\"dry_run\":"@);
            assert(!has_entry(opt_regids(m.registration_ids), "\"dry_run\":"@));
            lemma_no_entry_singleton(regids_piece(v), "\"data\":"@);
            assert(!has_entry(opt_regids(m.registration_ids), "\"data\":"@));
        },
        None => {
            assert(opt_regids(m.registration_ids) == Seq::<Seq<char>>::empty());
            lemma_no_entry_empty("\"registration_ids\":"@);
            assert(!has_entry(opt_regids(m.registration_ids), "\"registration_ids\":"@));
            lemma_no_entry_empty("\"collapse_key\":"@);
            assert(!has_entry(opt_regids(m.registration_ids), "\"collapse_key\":"@));
            lemma_no_entry_empty("\"priority\":"@);
            assert(!has_entry(opt_regids(m.registration_ids), "\"priority\":"@));
            lemma_no_entry_empty("\"content_available\":"@);
            assert(!has_entry(opt_regids(m.registration_ids), "\"content_available\":"@));
            lemma_no_entry_empty("\"delay_while_idle\":"@);
            assert(!has_entry(opt_regids(m.registration_ids), "\"delay_while_idle\":"@));
            lemma_no_entry_empty("\"time_to_live\":"@);
            assert(!has_entry(opt_regids(m.registration_ids), "\"time_to_live\":"@));
            lemma_no_entry_empty("\"restricted_package_name\":"@);
            assert(!has_entry(opt_regids(m.registration_ids), "\"restricted_package_name\":"@));
            lemma_no_entry_empty("\"dry_run\":"@);
            assert(!has_entry(opt_regids(m.registration_ids), "\"dry_run\":"@));
            lemma_no_entry_empty("\"data\":"@);
            assert(!has_entry(opt_regids(m.registration_ids), "\"data\":"@));
        },
    }

    match m.collapse_key {
        Some(v) => {
            lemma_collapse_prefixes(v);
            assert(opt_collapse(m.collapse_key) == seq![collapse_piece(v)]);
            assert(seq![collapse_piece(v)][0] == collapse_piece(v));
            assert(has_entry(opt_collapse(m.collapse_key), "\"collapse_key\":"@));
            assert(opt_collapse(m.collapse_key).contains(collapse_piece(v)));
            lemma_no_entry_singleton(collapse_piece(v), "\"registration_ids\":"@);
            assert(!has_entry(opt_collapse(m.collapse_key), "\"registration_ids\":"@));
            lemma_no_entry_singleton(collapse_piece(v), "\"priority\":"@);
            assert(!has_entry(opt_collapse(m.collapse_key), "\"priority\":"@));
            lemma_no_entry_singleton(collapse_piece(v), "\"content_available\":"@);
            assert(!has_entry(opt_collapse(m.collapse_key), "\"content_available\":"@));
            lemma_no_entry_singleton(collapse_piece(v), "\"delay_while_idle\":"@);
            assert(!has_entry(opt_collapse(m.collapse_key), "\"delay_while_idle\":"@));
            lemma_no_entry_singleton(collapse_piece(v), "\"time_to_live\":"@);
            assert(!has_entry(opt_collapse(m.collapse_key), "\"time_to_live\":"@));
            lemma_no_entry_singleton(collapse_piece(v), "\"restricted_package_name\":"@);
            assert(!has_entry(opt_collapse(m.collapse_key), "\"restricted_package_name\":"@));
            lemma_no_entry_singleton(collapse_piece(v), "\"dry_run\":"@);
            assert(!has_entry(opt_collapse(m.collapse_key), "\"dry_run\":"@));
            lemma_no_entry_singleton(collapse_piece(v), "\"data\":"@);
            assert(!has_entry(opt_collapse(m.collapse_key), "\"data\":"@));
        },
        None => {
            assert(opt_collapse(m.collapse_key) == Seq::<Seq<char>>::empty());
            lemma_no_entry_empty("\"registration_ids\":"@);
            assert(!has_entry(opt_collapse(m.collapse_key), "\"registration_ids\":"@));
            lemma_no_entry_empty("\"collapse_key\":"@);
            assert(!has_entry(opt_collapse(m.collapse_key), "\"collapse_key\":"@));
            lemma_no_entry_empty("\"priority\":"@);
            assert(!has_entry(opt_collapse(m.collapse_key), "\"priority\":"@));
            lemma_no_entry_empty("\"content_available\":"@);
            assert(!has_entry(opt_collapse(m.collapse_key), "\"content_available\":"@));
            lemma_no_entry_empty("\"delay_while_idle\":"@);
            assert(!has_entry(opt_collapse(m.collapse_key), "\"delay_while_idle\":"@));
            lemma_no_entry_empty("\"time_to_live\":"@);
            assert(!has_entry(opt_collapse(m.collapse_key), "\"time_to_live\":"@));
            lemma_no_entry_empty("\"restricted_package_name\":"@);
            assert(!has_entry(opt_collapse(m.collapse_key), "\"restricted_package_name\":"@));
            lemma_no_entry_empty("\"dry_run\":"@);
            assert(!has_entry(opt_collapse(m.collapse_key), "\"dry_run\":"@));
            lemma_no_entry_empty("\"data\":"@);
            assert(!has_entry(opt_collapse(m.collapse_key), "\"data\":"@));
        },
    }

    match m.priority {
        Some(v) => {
            lemma_priority_prefixes(v);
            assert(opt_priority(m.priority) == seq![priority_piece(v)]);
            assert(seq![priority_piece(v)][0] == priority_piece(v));
            assert(has_entry(opt_priority(m.priority), "\"priority\":"@));
            assert(opt_priority(m.priority).contains(priority_piece(v)));
            lemma_no_entry_singleton(priority_piece(v), "\"registration_ids\":"@);
            assert(!has_entry(opt_priority(m.priority), "\"registration_ids\":"@));
            lemma_no_entry_singleton(priority_piece(v), "\"collapse_key\":"@);
            assert(!has_entry(opt_priority(m.priority), "\"collapse_key\":"@));
            lemma_no_entry_singleton(priority_piece(v), "\"content_available\":"@);
            assert(!has_entry(opt_priority(m.priority), "\"content_available\":"@));
            lemma_no_entry_singleton(priority_piece(v), "\"delay_while_idle\":"@);
            assert(!has_entry(opt_priority(m.priority), "\"delay_while_idle\":"@));
            lemma_no_entry_singleton(priority_piece(v), "\"time_to_live\":"@);
            assert(!has_entry(opt_priority(m.priority), "\"time_to_live\":"@));
            lemma_no_entry_singleton(priority_piece(v), "\"restricted_package_name\":"@);
            assert(!has_entry(opt_priority(m.priority), "\"restricted_package_name\":"@));
            lemma_no_entry_singleton(priority_piece(v), "\"dry_run\":"@);
            assert(!has_entry(opt_priority(m.priority), "\"dry_run\":"@));
            lemma_no_entry_singleton(priority_piece(v), "\"data\":"@);
            assert(!has_entry(opt_priority(m.priority), "\"data\":"@));
        },
        None => {
            assert(opt_priority(m.priority) == Seq::<Seq<char>>::empty());
            lemma_no_entry_empty("\"registration_ids\":"@);
            assert(!has_entry(opt_priority(m.priority), "\"registration_ids\":"@));
            lemma_no_entry_empty("\"collapse_key\":"@);
            assert(!has_entry(opt_priority(m.priority), "\"collapse_key\":"@));
            lemma_no_entry_empty("\"priority\":"@);
            assert(!has_entry(opt_priority(m.priority), "\"priority\":"@));
            lemma_no_entry_empty("\"content_available\":"@);
            assert(!has_entry(opt_priority(m.priority), "\"content_available\":"@));
            lemma_no_entry_empty("\"delay_while_idle\":"@);
            assert(!has_entry(opt_priority(m.priority), "\"delay_while_idle\":"@));
            lemma_no_entry_empty("\"time_to_live\":"@);
            assert(!has_entry(opt_priority(m.priority), "\"time_to_live\":"@));
            lemma_no_entry_empty("\"restricted_package_name\":"@);
            assert(!has_entry(opt_priority(m.priority), "\"restricted_package_name\":"@));
            lemma_no_entry_empty("\"dry_run\":"@);
            assert(!has_entry(opt_priority(m.priority), "\"dry_run\":"@));
            lemma_no_entry_empty("\"data\":"@);
            assert(!has_entry(opt_priority(m.priority), "\"data\":"@));
        },
    }

    match m.content_available {
        Some(v) => {
            lemma_content_prefixes(v);
            assert(opt_content(m.content_available) == seq![content_piece(v)]);
            assert(seq![content_piece(v)][0] == content_piece(v));
            assert(has_entry(opt_content(m.content_available), "\"content_available\":"@));
            assert(opt_content(m.content_available).contains(content_piece(v)));
            lemma_no_entry_singleton(content_piece(v), "\"registration_ids\":"@);
            assert(!has_entry(opt_content(m.content_available), "\"registration_ids\":"@));
            lemma_no_entry_singleton(content_piece(v), "\"collapse_key\":"@);
            assert(!has_entry(opt_content(m.content_available), "\"collapse_key\":"@));
            lemma_no_entry_singleton(content_piece(v), "\"priority\":"@);
            assert(!has_entry(opt_content(m.content_available), "\"priority\":"@));
            lemma_no_entry_singleton(content_piece(v), "\"delay_while_idle\":"@);
            assert(!has_entry(opt_content(m.content_available), "\"delay_while_idle\":"@));
            lemma_no_entry_singleton(content_piece(v), "\"time_to_live\":"@);
            assert(!has_entry(opt_content(m.content_available), "\"time_to_live\":"@));
            lemma_no_entry_singleton(content_piece(v), "\"restricted_package_name\":"@);
            assert(!has_entry(opt_content(m.content_available), "\"restricted_package_name\":"@));
            lemma_no_entry_singleton(content_piece(v), "\"dry_run\":"@);
            assert(!has_entry(opt_content(m.content_available), "\"dry_run\":"@));
            lemma_no_entry_singleton(content_piece(v), "\"data\":"@);
            assert(!has_entry(opt_content(m.content_available), "\"data\":"@));
        },
        None => {
            assert(opt_content(m.content_available) == Seq::<Seq<char>>::empty());
            lemma_no_entry_empty("\"registration_ids\":"@);
            assert(!has_entry(opt_content(m.content_available), "\"registration_ids\":"@));
            lemma_no_entry_empty("\"collapse_key\":"@);
            assert(!has_entry(opt_content(m.content_available), "\"collapse_key\":"@));
            lemma_no_entry_empty("\"priority\":"@);
            assert(!has_entry(opt_content(m.content_available), "\"priority\":"@));
            lemma_no_entry_empty("\"content_available\":"@);
            assert(!has_entry(opt_content(m.content_available), "\"content_available\":"@));
            lemma_no_entry_empty("\"delay_while_idle\":"@);
            assert(!has_entry(opt_content(m.content_available), "\"delay_while_idle\":"@));
            lemma_no_entry_empty("\"time_to_live\":"@);
            assert(!has_entry(opt_content(m.content_available), "\"time_to_live\":"@));
            lemma_no_entry_empty("\"restricted_package_name\":"@);
            assert(!has_entry(opt_content(m.content_available), "\"restricted_package_name\":"@));
            lemma_no_entry_empty("\"dry_run\":"@);
            assert(!has_entry(opt_content(m.content_available), "\"dry_run\":"@));
            lemma_no_entry_empty("\"data\":"@);
            assert(!has_entry(opt_content(m.content_available), "\"data\":"@));
        },
    }

    match m.delay_while_idle {
        Some(v) => {
            lemma_delay_prefixes(v);
            assert(opt_delay(m.delay_while_idle) == seq![delay_piece(v)]);
            assert(seq![delay_piece(v)][0] == delay_piece(v));
            assert(has_entry(opt_delay(m.delay_while_idle), "\"delay_while_idle\":"@));
            assert(opt_delay(m.delay_while_idle).contains(delay_piece(v)));
            lemma_no_entry_singleton(delay_piece(v), "\"registration_ids\":"@);
            assert(!has_entry(opt_delay(m.delay_while_idle), "\"registration_ids\":"@));
            lemma_no_entry_singleton(delay_piece(v), "\"collapse_key\":"@);
            assert(!has_entry(opt_delay(m.delay_while_idle), "\"collapse_key\":"@));
            lemma_no_entry_singleton(delay_piece(v), "\"priority\":"@);
            assert(!has_entry(opt_delay(m.delay_while_idle), "\"priority\":"@));
            lemma_no_entry_singleton(delay_piece(v), "\"content_available\":"@);
            assert(!has_entry(opt_delay(m.delay_while_idle), "\"content_available\":"@));
            lemma_no_entry_singleton(delay_piece(v), "\"time_to_live\":"@);
            assert(!has_entry(opt_delay(m.delay_while_idle), "\"time_to_live\":"@));
            lemma_no_entry_singleton(delay_piece(v), "\"restricted_package_name\":"@);
            assert(!has_entry(opt_delay(m.delay_while_idle), "\"restricted_package_name\":"@));
            lemma_no_entry_singleton(delay_piece(v), "\"dry_run\":"@);
            assert(!has_entry(opt_delay(m.delay_while_idle), "\"dry_run\":"@));
            lemma_no_entry_singleton(delay_piece(v), "\"data\":"@);
            assert(!has_entry(opt_delay(m.delay_while_idle), "\"data\":"@));
        },
        None => {
            assert(opt_delay(m.delay_while_idle) == Seq::<Seq<char>>::empty());
            lemma_no_entry_empty("\"registration_ids\":"@);
            assert(!has_entry(opt_delay(m.delay_while_idle), "\"registration_ids\":"@));
            lemma_no_entry_empty("\"collapse_key\":"@);
            assert(!has_entry(opt_delay(m.delay_while_idle), "\"collapse_key\":"@));
            lemma_no_entry_empty("\"priority\":"@);
            assert(!has_entry(opt_delay(m.delay_while_idle), "\"priority\":"@));
            lemma_no_entry_empty("\"content_available\":"@);
            assert(!has_entry(opt_delay(m.delay_while_idle), "\"content_available\":"@));
            lemma_no_entry_empty("\"delay_while_idle\":"@);
            assert(!has_entry(opt_delay(m.delay_while_idle), "\"delay_while_idle\":"@));
            lemma_no_entry_empty("\"time_to_live\":"@);
            assert(!has_entry(opt_delay(m.delay_while_idle), "\"time_to_live\":"@));
            lemma_no_entry_empty("\"restricted_package_name\":"@);
            assert(!has_entry(opt_delay(m.delay_while_idle), "\"restricted_package_name\":"@));
            lemma_no_entry_empty("\"dry_run\":"@);
            assert(!has_entry(opt_delay(m.delay_while_idle), "\"dry_run\":"@));
            lemma_no_entry_empty("\"data\":"@);
            assert(!has_entry(opt_delay(m.delay_while_idle), "\"data\":"@));
        },
    }

    match m.time_to_live {
        Some(v) => {
            lemma_ttl_prefixes(v);
            assert(opt_ttl(m.time_to_live) == seq![ttl_piece(v)]);
            assert(seq![ttl_piece(v)][0] == ttl_piece(v));
            assert(has_entry(opt_ttl(m.time_to_live), "\"time_to_live\":"@));
            assert(opt_ttl(m.time_to_live).contains(ttl_piece(v)));
            lemma_no_entry_singleton(ttl_piece(v), "\"registration_ids\":"@);
            assert(!has_entry(opt_ttl(m.time_to_live), "\"registration_ids\":"@));
            lemma_no_entry_singleton(ttl_piece(v), "\"collapse_key\":"@);
            assert(!has_entry(opt_ttl(m.time_to_live), "\"collapse_key\":"@));
            lemma_no_entry_singleton(ttl_piece(v), "\"priority\":"@);
            assert(!has_entry(opt_ttl(m.time_to_live), "\"priority\":"@));
            lemma_no_entry_singleton(ttl_piece(v), "\"content_available\":"@);
            assert(!has_entry(opt_ttl(m.time_to_live), "\"content_available\":"@));
            lemma_no_entry_singleton(ttl_piece(v), "\"delay_while_idle\":"@);
            assert(!has_entry(opt_ttl(m.time_to_live), "\"delay_while_idle\":"@));
            lemma_no_entry_singleton(ttl_piece(v), "\"restricted_package_name\":"@);
            assert(!has_entry(opt_ttl(m.time_to_live), "\"restricted_package_name\":"@));
            lemma_no_entry_singleton(ttl_piece(v), "\"dry_run\":"@);
            assert(!has_entry(opt_ttl(m.time_to_live), "\"dry_run\":"@));
            lemma_no_entry_singleton(ttl_piece(v), "\"data\":"@);
            assert(!has_entry(opt_ttl(m.time_to_live), "\"data\":"@));
        },
        None => {
            assert(opt_ttl(m.time_to_live) == Seq::<Seq<char>>::empty());
            lemma_no_entry_empty("\"registration_ids\":"@);
            assert(!has_entry(opt_ttl(m.time_to_live), "\"registration_ids\":"@));
            lemma_no_entry_empty("\"collapse_key\":"@);
            assert(!has_entry(opt_ttl(m.time_to_live), "\"collapse_key\":"@));
            lemma_no_entry_empty("\"priority\":"@);
            assert(!has_entry(opt_ttl(m.time_to_live), "\"priority\":"@));
            lemma_no_entry_empty("\"content_available\":"@);
            assert(!has_entry(opt_ttl(m.time_to_live), "\"content_available\":"@));
            lemma_no_entry_empty("\"delay_while_idle\":"@);
            assert(!has_entry(opt_ttl(m.time_to_live), "\"delay_while_idle\":"@));
            lemma_no_entry_empty("\"time_to_live\":"@);
            assert(!has_entry(opt_ttl(m.time_to_live), "\"time_to_live\":"@));
            lemma_no_entry_empty("\"restricted_package_name\":"@);
            assert(!has_entry(opt_ttl(m.time_to_live), "\"restricted_package_name\":"@));
            lemma_no_entry_empty("\"dry_run\":"@);
            assert(!has_entry(opt_ttl(m.time_to_live), "\"dry_run\":"@));
            lemma_no_entry_empty("\"data\":"@);
            assert(!has_entry(opt_ttl(m.time_to_live), "\"data\":"@));
        },
    }

    match m.restricted_package_name {
        Some(v) => {
            lemma_restricted_prefixes(v);
            assert(opt_restricted(m.restricted_package_name) == seq![restricted_piece(v)]);
            assert(seq![restricted_piece(v)][0] == restricted_piece(v));
            assert(has_entry(opt_restricted(m.restricted_package_name), "\"restricted_package_name\":"@));
            assert(opt_restricted(m.restricted_package_name).contains(restricted_piece(v)));
            lemma_no_entry_singleton(restricted_piece(v), "\"registration_ids\":"@);
            assert(!has_entry(opt_restricted(m.restricted_package_name), "\"registration_ids\":"@));
            lemma_no_entry_singleton(restricted_piece(v), "\"collapse_key\":"@);
            assert(!has_entry(opt_restricted(m.restricted_package_name), "\"collapse_key\":"@));
            lemma_no_entry_singleton(restricted_piece(v), "\"priority\":"@);
            assert(!has_entry(opt_restricted(m.restricted_package_name), "\"priority\":"@));
            lemma_no_entry_singleton(restricted_piece(v), "\"content_available\":"@);
            assert(!has_entry(opt_restricted(m.restricted_package_name), "\"content_available\":"@));
            lemma_no_entry_singleton(restricted_piece(v), "\"delay_while_idle\":"@);
            assert(!has_entry(opt_restricted(m.restricted_package_name), "\"delay_while_idle\":"@));
            lemma_no_entry_singleton(restricted_piece(v), "\"time_to_live\":"@);
            assert(!has_entry(opt_restricted(m.restricted_package_name), "\"time_to_live\":"@));
            lemma_no_entry_singleton(restricted_piece(v), "\"dry_run\":"@);
            assert(!has_entry(opt_restricted(m.restricted_package_name), "\"dry_run\":"@));
            lemma_no_entry_singleton(restricted_piece(v), "\"data\":"@);
            assert(!has_entry(opt_restricted(m.restricted_package_name), "\"data\":"@));
        },
        None => {
            assert(opt_restricted(m.restricted_package_name) == Seq::<Seq<char>>::empty());
            lemma_no_entry_empty("\"registration_ids\":"@);
            assert(!has_entry(opt_restricted(m.restricted_package_name), "\"registration_ids\":"@));
            lemma_no_entry_empty("\"collapse_key\":"@);
            assert(!has_entry(opt_restricted(m.restricted_package_name), "\"collapse_key\":"@));
            lemma_no_entry_empty("\"priority\":"@);
            assert(!has_entry(opt_restricted(m.restricted_package_name), "\"priority\":"@));
            lemma_no_entry_empty("\"content_available\":"@);
            assert(!has_entry(opt_restricted(m.restricted_package_name), "\"content_available\":"@));
            lemma_no_entry_empty("\"delay_while_idle\":"@);
            assert(!has_entry(opt_restricted(m.restricted_package_name), "\"delay_while_idle\":"@));
            lemma_no_entry_empty("\"time_to_live\":"@);
            assert(!has_entry(opt_restricted(m.restricted_package_name), "\"time_to_live\":"@));
            lemma_no_entry_empty("\"restricted_package_name\":"@);
            assert(!has_entry(opt_restricted(m.restricted_package_name), "\"restricted_package_name\":"@));
            lemma_no_entry_empty("\"dry_run\":"@);
            assert(!has_entry(opt_restricted(m.restricted_package_name), "\"dry_run\":"@));
            lemma_no_entry_empty("\"data\":"@);
            assert(!has_entry(opt_restricted(m.restricted_package_name), "\"data\":"@));
        },
    }

    match m.dry_run {
        Some(v) => {
            lemma_dry_run_prefixes(v);
            assert(opt_dry_run(m.dry_run) == seq![dry_run_piece(v)]);
            assert(seq![dry_run_piece(v)][0] == dry_run_piece(v));
            assert(has_entry(opt_dry_run(m.dry_run), "\"dry_run\":"@));
            assert(opt_dry_run(m.dry_run).contains(dry_run_piece(v)));
            lemma_no_entry_singleton(dry_run_piece(v), "\"registration_ids\":"@);
            assert(!has_entry(opt_dry_run(m.dry_run), "\"registration_ids\":"@));
            lemma_no_entry_singleton(dry_run_piece(v), "\"collapse_key\":"@);
            assert(!has_entry(opt_dry_run(m.dry_run), "\"collapse_key\":"@));
            lemma_no_entry_singleton(dry_run_piece(v), "\"priority\":"@);
            assert(!has_entry(opt_dry_run(m.dry_run), "\"priority\":"@));
            lemma_no_entry_singleton(dry_run_piece(v), "\"content_available\":"@);
            assert(!has_entry(opt_dry_run(m.dry_run), "\"content_available\":"@));
            lemma_no_entry_singleton(dry_run_piece(v), "\"delay_while_idle\":"@);
            assert(!has_entry(opt_dry_run(m.dry_run), "\"delay_while_idle\":"@));
            lemma_no_entry_singleton(dry_run_piece(v), "\"time_to_live\":"@);
            assert(!has_entry(opt_dry_run(m.dry_run), "\"time_to_live\":"@));
            lemma_no_entry_singleton(dry_run_piece(v), "\"restricted_package_name\":"@);
            assert(!has_entry(opt_dry_run(m.dry_run), "\"restricted_package_name\":"@));
            lemma_no_entry_singleton(dry_run_piece(v), "\"data\":"@);
            assert(!has_entry(opt_dry_run(m.dry_run), "\"data\":"@));
        },
        None => {
            assert(opt_dry_run(m.dry_run) == Seq::<Seq<char>>::empty());
            lemma_no_entry_empty("\"registration_ids\":"@);
            assert(!has_entry(opt_dry_run(m.dry_run), "\"registration_ids\":"@));
            lemma_no_entry_empty("\"collapse_key\":"@);
            assert(!has_entry(opt_dry_run(m.dry_run), "\"collapse_key\":"@));
            lemma_no_entry_empty("\"priority\":"@);
            assert(!has_entry(opt_dry_run(m.dry_run), "\"priority\":"@));
            lemma_no_entry_empty("\"content_available\":"@);
            assert(!has_entry(opt_dry_run(m.dry_run), "\"content_available\":"@));
            lemma_no_entry_empty("\"delay_while_idle\":"@);
            assert(!has_entry(opt_dry_run(m.dry_run), "\"delay_while_idle\":"@));
            lemma_no_entry_empty("\"time_to_live\":"@);
            assert(!has_entry(opt_dry_run(m.dry_run), "\"time_to_live\":"@));
            lemma_no_entry_empty("\"restricted_package_name\":"@);
            assert(!has_entry(opt_dry_run(m.dry_run), "\"restricted_package_name\":"@));
            lemma_no_entry_empty("\"dry_run\":"@);
            assert(!has_entry(opt_dry_run(m.dry_run), "\"dry_run\":"@));
            lemma_no_entry_empty("\"data\":"@);
            assert(!has_entry(opt_dry_run(m.dry_run), "\"data\":"@));
        },
    }

    match m.data {
        Some(v) => {
            lemma_data_prefixes(v);
            assert(opt_data(m.data) == seq![data_piece(v)]);
            assert(seq![data_piece(v)][0] == data_piece(v));
            assert(has_entry(opt_data(m.data), "\"data\":"@));
            assert(opt_data(m.data).contains(data_piece(v)));
            lemma_no_entry_singleton(data_piece(v), "\"registration_ids\":"@);
            assert(!has_entry(opt_data(m.data), "\"registration_ids\":"@));
            lemma_no_entry_singleton(data_piece(v), "\"collapse_key\":"@);
            assert(!has_entry(opt_data(m.data), "\"collapse_key\":"@));
            lemma_no_entry_singleton(data_piece(v), "\"priority\":"@);
            assert(!has_entry(opt_data(m.data), "\"priority\":"@));
            lemma_no_entry_singleton(data_piece(v), "\"content_available\":"@);
            assert(!has_entry(opt_data(m.data), "\"content_available\":"@));
            lemma_no_entry_singleton(data_piece(v), "\"delay_while_idle\":"@);
            assert(!has_entry(opt_data(m.data), "\"delay_while_idle\":"@));
            lemma_no_entry_singleton(data_piece(v), "\"time_to_live\":"@);
            assert(!has_entry(opt_data(m.data), "\"time_to_live\":"@));
            lemma_no_entry_singleton(data_piece(v), "\"restricted_package_name\":"@);
            assert(!has_entry(opt_data(m.data), "\"restricted_package_name\":"@));
            lemma_no_entry_singleton(data_piece(v), "\"dry_run\":"@);
            assert(!has_entry(opt_data(m.data), "\"dry_run\":"@));
        },
        None => {
            assert(opt_data(m.data) == Seq::<Seq<char>>::empty());
            lemma_no_entry_empty("\"registration_ids\":"@);
            assert(!has_entry(opt_data(m.data), "\"registration_ids\":"@));
            lemma_no_entry_empty("\"collapse_key\":"@);
            assert(!has_entry(opt_data(m.data), "\"collapse_key\":"@));
            lemma_no_entry_empty("\"priority\":"@);
            assert(!has_entry(opt_data(m.data), "\"priority\":"@));
            lemma_no_entry_empty("\"content_available\":"@);
            assert(!has_entry(opt_data(m.data), "\"content_available\":"@));
            lemma_no_entry_empty("\"delay_while_idle\":"@);
            assert(!has_entry(opt_data(m.data), "\"delay_while_idle\":"@));
            lemma_no_entry_empty("\"time_to_live\":"@);
            assert(!has_entry(opt_data(m.data), "\"time_to_live\":"@));
            lemma_no_entry_empty("\"restricted_package_name\":"@);
            assert(!has_entry(opt_data(m.data), "\"restricted_package_name\":"@));
            lemma_no_entry_empty("\"dry_run\":"@);
            assert(!has_entry(opt_data(m.data), "\"dry_run\":"@));
            lemma_no_entry_empty("\"data\":"@);
            assert(!has_entry(opt_data(m.data), "\"data\":"@));
        },
    }
}

/// A message whose priority was never set serializes without a `"priority"`
/// member: absence, not a default of `"normal"`.
pub proof fn lemma_unset_priority_omitted(m: MessageView)
    requires
        m.priority is None,
    ensures
        !has_entry(doc_pieces(m), "\"priority\":"@),
{
    lemma_doc_entry_iff_field_set(m);
}

} // verus!
