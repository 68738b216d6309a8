//! Wire framing: outbound submissions as one JSON line each, inbound events
//! decoded one line at a time.

use vstd::prelude::*;

verus! {

/// Declared so that trusted items can hand back serde_json's error.
#[verifier::external_type_specification]
#[verifier::external_body]
pub struct ExJsonError(serde_json::Error);

/// The JSON string literal serde_json writes for a text: quotes and escapes.
pub uninterp spec fn json_string(s: Seq<char>) -> Seq<char>;

/// Relies on `serde_json::to_string` on a `str`: it yields the JSON string
/// literal of the text. The serializer writes into a `Vec`, which never fails,
/// so the result is always `Ok`.
#[verifier::external_body]
fn json_quote_raw(s: &str) -> (r: Result<String, serde_json::Error>)
    ensures
        r is Ok,
        r is Ok ==> r->Ok_0@ == json_string(s@),
{
    serde_json::to_string(s)
}

/// The JSON string literal of `s`.
pub fn json_quote(s: &str) -> (r: String)
    ensures
        r@ == json_string(s@),
{
    match json_quote_raw(s) {
        Ok(t) => t,
        Err(_) => String::new(),
    }
}

/// One content item of a user turn.
#[derive(Clone, Debug)]
pub enum InputItem {
    Text { text: String },
}

/// The answer to an approval request.
#[derive(Clone, Copy, Debug, PartialEq, Eq, Structural)]
pub enum ReviewDecision {
    Allow,
    Deny,
}

/// The operation carried by a submission.
#[derive(Clone, Debug)]
pub enum Op {
    UserInput { items: Vec<InputItem> },
    ExecApproval { id: String, decision: ReviewDecision },
    PatchApproval { id: String, decision: ReviewDecision },
    Interrupt,
    Shutdown,
}

/// One outbound command: a unique identifier and an operation.
#[derive(Clone, Debug)]
pub struct Submission {
    pub id: String,
    pub op: Op,
}

/// The decision that an approval flag stands for.
pub open spec fn decision_of(approved: bool) -> ReviewDecision {
    if approved {
        ReviewDecision::Allow
    } else {
        ReviewDecision::Deny
    }
}

pub fn decision_from(approved: bool) -> (r: ReviewDecision)
    ensures
        r == decision_of(approved),
{
    if approved {
        ReviewDecision::Allow
    } else {
        ReviewDecision::Deny
    }
}

pub open spec fn decision_json(d: ReviewDecision) -> Seq<char> {
    match d {
        ReviewDecision::Allow => "\"allow\""@,
        ReviewDecision::Deny => "\"deny\""@,
    }
}

pub open spec fn text_item_json(text: Seq<char>) -> Seq<char> {
    "{\"type\":\"text\",\"text\":"@ + json_string(text) + "}"@
}

pub open spec fn item_json(item: InputItem) -> Seq<char> {
    match item {
        InputItem::Text { text } => text_item_json(text@),
    }
}

/// The items joined by commas, without the brackets.
pub open spec fn items_json(items: Seq<InputItem>) -> Seq<char>
    decreases items.len(),
{
    if items.len() == 0 {
        Seq::empty()
    } else if items.len() == 1 {
        item_json(items[0])
    } else {
        items_json(items.drop_last()) + ","@ + item_json(items.last())
    }
}

pub open spec fn approval_op(tag: Seq<char>, id: Seq<char>, d: ReviewDecision) -> Seq<char> {
    "{\"type\":\""@ + tag + "\",\"id\":"@ + json_string(id) + ",\"decision\":"@ + decision_json(d)
        + "}"@
}

pub open spec fn user_input_op(text: Seq<char>) -> Seq<char> {
    "{\"type\":\"user_input\",\"items\":["@ + text_item_json(text)
        + "]}"@
}

pub open spec fn interrupt_op() -> Seq<char> {
    "{\"type\":\"interrupt\"}"@
}

pub open spec fn shutdown_op() -> Seq<char> {
    "{\"type\":\"shutdown\"}"@
}

/// The envelope of one outbound line around the JSON of its operation.
pub open spec fn envelope(id: Seq<char>, op: Seq<char>) -> Seq<char> {
    "{\"id\":"@ + json_string(id) + ",\"op\":"@ + op + "}"@
}

/// The JSON object of an operation, tagged by its `type` field.
pub open spec fn op_json(op: Op) -> Seq<char> {
    match op {
        Op::UserInput { items } => "{\"type\":\"user_input\",\"items\":["@ + items_json(items@)
            + "]}"@,
        Op::ExecApproval { id, decision } => approval_op("exec_approval"@, id@, decision),
        Op::PatchApproval { id, decision } => approval_op("patch_approval"@, id@, decision),
        Op::Interrupt => interrupt_op(),
        Op::Shutdown => shutdown_op(),
    }
}

/// The one line (without its newline) that carries a submission.
pub open spec fn submission_json(s: Submission) -> Seq<char> {
    envelope(s.id@, op_json(s.op))
}

fn decision_text(d: ReviewDecision) -> (r: String)
    ensures
        r@ == decision_json(d),
{
    match d {
        ReviewDecision::Allow => String::from_str("\"allow\""),
        ReviewDecision::Deny => String::from_str("\"deny\""),
    }
}

pub fn encode_item(item: &InputItem) -> (r: String)
    ensures
        r@ == item_json(*item),
{
    match item {
        InputItem::Text { text } => {
            let mut r = String::from_str("{\"type\":\"text\",\"text\":");
            let q = json_quote(text.as_str());
            r.append(q.as_str());
            r.append("}");
            r
        },
    }
}

fn encode_items(items: &Vec<InputItem>) -> (r: String)
    ensures
        r@ == items_json(items@),
{
    let mut r = String::new();
    let mut i: usize = 0;
    while i < items.len()
        invariant
            i <= items@.len(),
            r@ == items_json(items@.subrange(0, i as int)),
        decreases items@.len() - i,
    {
        let e = encode_item(&items[i]);
        proof {
            let next = items@.subrange(0, i as int + 1);
            assert(next.drop_last() =~= items@.subrange(0, i as int));
            assert(next.last() == items@[i as int]);
        }
        if i > 0 {
            r.append(",");
        }
        r.append(e.as_str());
        i = i + 1;
    }
    proof {
        assert(items@.subrange(0, items@.len() as int) =~= items@);
    }
    r
}

fn encode_approval(tag: &str, id: &String, d: ReviewDecision) -> (r: String)
    ensures
        r@ == approval_op(tag@, id@, d),
{
    let mut r = String::from_str("{\"type\":\"");
    r.append(tag);
    r.append("\",\"id\":");
    let q = json_quote(id.as_str());
    r.append(q.as_str());
    r.append(",\"decision\":");
    let dt = decision_text(d);
    r.append(dt.as_str());
    r.append("}");
    r
}

pub fn encode_op(op: &Op) -> (r: String)
    ensures
        r@ == op_json(*op),
{
    match op {
        Op::UserInput { items } => {
            let mut r = String::from_str("{\"type\":\"user_input\",\"items\":[");
            let body = encode_items(items);
            r.append(body.as_str());
            r.append("]}");
            r
        },
        Op::ExecApproval { id, decision } => encode_approval("exec_approval", id, *decision),
        Op::PatchApproval { id, decision } => encode_approval("patch_approval", id, *decision),
        Op::Interrupt => String::from_str("{\"type\":\"interrupt\"}"),
        Op::Shutdown => String::from_str("{\"type\":\"shutdown\"}"),
    }
}

/// Serializes a submission to the text of its line.
pub fn encode_submission(s: &Submission) -> (r: String)
    ensures
        r@ == submission_json(*s),
{
    let mut r = String::from_str("{\"id\":");
    let q = json_quote(s.id.as_str());
    r.append(q.as_str());
    r.append(",\"op\":");
    let o = encode_op(&s.op);
    r.append(o.as_str());
    r.append("}");
    r
}

/// A user turn of one text item carries that item alone.
pub proof fn lemma_single_item(item: InputItem)
    ensures
        items_json(seq![item]) == item_json(item),
{
}

/// A line as written to the process: its text followed by one newline.
pub open spec fn framed(line: Seq<char>) -> Seq<char> {
    line + "\n"@
}

pub fn frame_line(line: &String) -> (r: String)
    ensures
        r@ == framed(line@),
{
    let mut r = line.clone();
    r.append("\n");
    r
}


/// Declared so that a decoded event can carry serde_json's value through.
#[verifier::external_type_specification]
#[verifier::external_body]
pub struct ExJsonValue(serde_json::Value);

/// Whether serde_json reads the text as exactly one JSON value.
pub uninterp spec fn is_json_text(s: Seq<char>) -> bool;

/// Relies on `serde_json::from_str::<serde_json::Value>`: whether it succeeds
/// depends on the text alone.
#[verifier::external_body]
fn parse_json(s: &str) -> (r: Option<serde_json::Value>)
    ensures
        r is Some <==> is_json_text(s@),
{
    serde_json::from_str::<serde_json::Value>(s).ok()
}

/// The string found in a text's JSON value at a JSON Pointer, if there is one.
pub uninterp spec fn json_text_at(s: Seq<char>, pointer: Seq<char>) -> Option<Seq<char>>;

pub open spec fn opt_text(o: Option<String>) -> Option<Seq<char>> {
    match o {
        Some(t) => Some(t@),
        None => None,
    }
}

/// Relies on `serde_json::from_str::<serde_json::Value>`, then
/// `serde_json::Value::pointer` and `serde_json::Value::as_str`: the string at
/// the pointer when the text parses and holds one there. The result depends
/// on the two texts alone.
#[verifier::external_body]
fn text_at(s: &str, pointer: &str) -> (r: Option<String>)
    ensures
        opt_text(r) == json_text_at(s@, pointer@),
{
    serde_json::from_str::<serde_json::Value>(s).ok().and_then(
        |v| v.pointer(pointer).and_then(serde_json::Value::as_str).map(str::to_string),
    )
}

/// A line that carries one tagged event: a JSON value with a string `id` and
/// a `msg` whose `type` is a string.
pub open spec fn is_event_text(s: Seq<char>) -> bool {
    &&& is_json_text(s)
    &&& json_text_at(s, "/id"@) is Some
    &&& json_text_at(s, "/msg/type"@) is Some
}

/// One inbound event: the line it was read from, its identifier, its tag and
/// the value decoded from it.
pub struct Event {
    pub line: String,
    pub id: String,
    pub tag: String,
    pub value: serde_json::Value,
}

/// Decodes one line of output; a line that is not a tagged event yields
/// nothing.
pub fn decode_event(line: &String) -> (r: Option<Event>)
    ensures
        r is Some <==> is_event_text(line@),
        r matches Some(e) ==> {
            &&& e.line@ == line@
            &&& json_text_at(line@, "/id"@) == Some(e.id@)
            &&& json_text_at(line@, "/msg/type"@) == Some(e.tag@)
        },
{
    let value = match parse_json(line.as_str()) {
        Some(v) => v,
        None => {
            return None;
        },
    };
    let id = match text_at(line.as_str(), "/id") {
        Some(t) => t,
        None => {
            return None;
        },
    };
    let tag = match text_at(line.as_str(), "/msg/type") {
        Some(t) => t,
        None => {
            return None;
        },
    };
    Some(Event { line: line.clone(), id, tag, value })
}

/// The lines, in order, that are forwarded as events.
pub open spec fn forwarded(lines: Seq<Seq<char>>) -> Seq<Seq<char>>
    decreases lines.len(),
{
    if lines.len() == 0 {
        Seq::empty()
    } else if is_event_text(lines.last()) {
        forwarded(lines.drop_last()).push(lines.last())
    } else {
        forwarded(lines.drop_last())
    }
}

pub open spec fn event_lines(events: Seq<Event>) -> Seq<Seq<char>> {
    events.map_values(|e: Event| e.line@)
}

/// Decodes the lines in order, keeping each one that parses.
pub fn decode_lines(lines: &Vec<String>) -> (r: Vec<Event>)
    ensures
        event_lines(r@) == forwarded(lines@.map_values(|l: String| l@)),
{
    let ghost all = lines@.map_values(|l: String| l@);
    let mut r: Vec<Event> = Vec::new();
    let mut i: usize = 0;
    while i < lines.len()
        invariant
            i <= lines@.len(),
            all == lines@.map_values(|l: String| l@),
            event_lines(r@) == forwarded(all.subrange(0, i as int)),
        decreases lines@.len() - i,
    {
        proof {
            let next = all.subrange(0, i as int + 1);
            assert(next.drop_last() =~= all.subrange(0, i as int));
            assert(next.last() == lines@[i as int]@);
        }
        match decode_event(&lines[i]) {
            Some(e) => {
                let ghost before = r@;
                r.push(e);
                proof {
                    assert(event_lines(r@) =~= event_lines(before).push(lines@[i as int]@));
                }
            },
            None => {},
        }
        i = i + 1;
    }
    proof {
        assert(all.subrange(0, lines@.len() as int) =~= all);
    }
    r
}

/// A line forwards itself alone when it parses, and nothing otherwise.
pub proof fn lemma_forwarded_single(l: Seq<char>)
    ensures
        forwarded(seq![l]) == (if is_event_text(l) { seq![l] } else { Seq::<Seq<char>>::empty() }),
{
    let s = seq![l];
    assert(s.drop_last() =~= Seq::<Seq<char>>::empty());
    assert(s.last() == l);
    assert(forwarded(Seq::<Seq<char>>::empty()) == Seq::<Seq<char>>::empty());
    if is_event_text(l) {
        assert(Seq::<Seq<char>>::empty().push(l) =~= seq![l]);
    }
}

/// Decoding is line by line: what a stream forwards is what its first part
/// forwards followed by what the rest forwards, so a line that fails to parse
/// has no effect on the lines after it.
pub proof fn lemma_forwarded_concat(a: Seq<Seq<char>>, b: Seq<Seq<char>>)
    ensures
        forwarded(a + b) == forwarded(a) + forwarded(b),
    decreases b.len(),
{
    if b.len() == 0 {
        assert(a + b =~= a);
        assert(forwarded(a) + forwarded(b) =~= forwarded(a));
    } else {
        assert((a + b).drop_last() =~= a + b.drop_last());
        assert((a + b).last() == b.last());
        lemma_forwarded_concat(a, b.drop_last());
        if is_event_text(b.last()) {
            assert(forwarded(a) + forwarded(b) =~= (forwarded(a) + forwarded(b.drop_last())).push(
                b.last(),
            ));
        }
    }
}

} // verus!
