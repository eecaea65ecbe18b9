//! Whether the server has started, and what it says while it does.
use vstd::prelude::*;
use vstd::string::*;
use vstd::utf8::{decode_utf8, valid_utf8};

use crate::counting::{first_is, first_upto, none_found};
use crate::number::{decimal, decimal_text};
use crate::paths::lower_ascii;
use crate::text::{
    ascii_lowered, begins, chars_of, chars_stand_at, contains, find, holds, same, stands_at,
    stretch, string_of, trim, trimmed,
};

verus! {

/// What `String::from_utf8_lossy` makes of some bytes: their text, with a mark in
/// the place of each part that is no text.
pub uninterp spec fn lossy_utf8(bytes: Seq<u8>) -> Seq<char>;

/// `String::from_utf8_lossy`. Bytes that are a text give that text; what stands
/// for other bytes depends on them alone.
#[verifier::external_body]
fn lossy_text(bytes: &[u8]) -> (r: String)
    ensures
        r@ == lossy_utf8(bytes@),
        valid_utf8(bytes@) ==> r@ == decode_utf8(bytes@),
{
    String::from_utf8_lossy(bytes).into_owned()
}

/// A JSON value of `serde_json`.
#[verifier::external_type_specification]
#[verifier::external_body]
pub struct ExJsonValue(serde_json::Value);

/// The texts that a JSON object holds under its keys. An object holds none under
/// a key with anything but a text, and a value that is no object holds none.
pub uninterp spec fn held_texts(value: serde_json::Value) -> Map<Seq<char>, Seq<char>>;

/// The texts that the JSON value of a body holds, where the body is JSON.
pub uninterp spec fn json_texts(body: Seq<char>) -> Option<Map<Seq<char>, Seq<char>>>;

/// `serde_json::from_str::<serde_json::Value>`. Whether a body is JSON, and which
/// texts its value holds, depends on the body alone.
#[verifier::external_body]
fn json_value(body: &str) -> (r: Option<serde_json::Value>)
    ensures
        match r {
            Some(value) => json_texts(body@) == Some(held_texts(value)),
            None => json_texts(body@) is None,
        },
{
    serde_json::from_str(body).ok()
}

/// `serde_json::Value::get` with a key; what is there is taken where it is a
/// text.
#[verifier::external_body]
fn json_text_at(value: &serde_json::Value, key: &str) -> (r: Option<String>)
    ensures
        match r {
            Some(s) => held_texts(*value).contains_key(key@) && held_texts(*value)[key@] == s@,
            None => !held_texts(*value).contains_key(key@),
        },
{
    value.get(key)?.as_str().map(String::from)
}

/// The text that stands under a key of a JSON object: nothing where the body is
/// no JSON, or no object, or has no such key, or has no text there.
pub open spec fn json_text_field(body: Seq<char>, key: Seq<char>) -> Option<Seq<char>> {
    match json_texts(body) {
        Some(texts) => if texts.contains_key(key) {
            Some(texts[key])
        } else {
            None
        },
        None => None,
    }
}

/// The request that asks the server how it is.
pub fn health_request(address: &str) -> (r: String)
    ensures
        r@ == "GET /api/health HTTP/1.1\r\nHost: "@ + address@
            + "\r\nAccept: application/json\r\nConnection: close\r\n\r\n"@,
{
    let mut out = String::from_str("GET /api/health HTTP/1.1\r\nHost: ");
    out.append(address);
    out.append("\r\nAccept: application/json\r\nConnection: close\r\n\r\n");
    out
}

/// The first place of a part.
pub open spec fn first_place(s: Seq<char>, part: Seq<char>) -> Option<int> {
    first_upto(s.len() as int + 1, |i: int| stands_at(s, part, i))
}

/// The head and the body of a reply.
pub open spec fn reply_parts(reply: Seq<char>) -> Option<(Seq<char>, Seq<char>)> {
    match first_place(reply, "\r\n\r\n"@) {
        Some(k) => Some((reply.take(k), reply.skip(k + 4))),
        None => None,
    }
}

/// The head and the body of a reply.
pub fn split_reply(reply: &str) -> (r: Option<(String, String)>)
    ensures
        match r {
            Some((head, body)) => reply_parts(reply@) == Some((head@, body@)),
            None => reply_parts(reply@) is None,
        },
{
    let v = chars_of(reply);
    let mark = chars_of("\r\n\r\n");
    let ghost p = |i: int| stands_at(v@, mark@, i);
    match find(&v, &mark) {
        Some(k) => {
            proof {
                reveal_strlit("\r\n\r\n");
                assert(p(k as int));
                assert forall|j: int| 0 <= j < k implies !#[trigger] p(j) by {
                }
                first_is(v@.len() as int + 1, p, k as int);
            }
            assert(k + 4 <= v.len());
            let head = stretch(&v, 0, k);
            let body = stretch(&v, k + 4, v.len());
            assert(head@ =~= v@.take(k as int));
            assert(body@ =~= v@.skip(k + 4));
            Some((string_of(&head), string_of(&body)))
        },
        None => {
            proof {
                assert forall|j: int| 0 <= j < v@.len() + 1 implies !#[trigger] p(j) by {
                    assert(!stands_at(v@, mark@, j));
                }
                none_found(v@.len() as int + 1, p);
            }
            None
        },
    }
}

/// Whether the place `i` ends a line.
pub open spec fn ends_line(s: Seq<char>, i: int) -> bool {
    s[i] == '\n'
}

/// The first line of a text. What ends a line is no part of it.
pub open spec fn first_line(s: Seq<char>) -> Seq<char> {
    match first_upto(s.len() as int, |i: int| ends_line(s, i)) {
        Some(k) => if k > 0 && s[k - 1] == '\r' {
            s.take(k - 1)
        } else {
            s.take(k)
        },
        None => s,
    }
}

/// The first line of a text.
fn line_of(s: &str) -> (r: String)
    ensures
        r@ == first_line(s@),
{
    let v = chars_of(s);
    let ghost p = |i: int| ends_line(v@, i);
    let mut i: usize = 0;
    while i < v.len()
        invariant
            i <= v@.len(),
            v@ == s@,
            p == (|i: int| ends_line(v@, i)),
            forall|j: int| 0 <= j < i ==> !#[trigger] p(j),
        decreases v.len() - i,
    {
        if v[i] == '\n' {
            proof {
                assert(p(i as int));
                first_is(v@.len() as int, p, i as int);
            }
            let end: usize = if i > 0 && v[i - 1] == '\r' {
                i - 1
            } else {
                i
            };
            let line = stretch(&v, 0, end);
            assert(line@ =~= v@.take(end as int));
            return string_of(&line);
        }
        assert(!p(i as int));
        i += 1;
    }
    proof {
        none_found(v@.len() as int, p);
    }
    String::from_str(s)
}

/// A reply of this program's server that it is well: the status line says so, and
/// so does the body, by the texts under two of its keys.
pub open spec fn well(head: Seq<char>, status: Option<Seq<char>>, name: Option<Seq<char>>) -> bool {
    &&& holds(first_line(head), " 200 "@)
    &&& status == Some("ok"@)
    &&& name == Some("Base Search"@)
}

/// What a text that may be missing says.
pub open spec fn text_in(s: Option<&str>) -> Option<Seq<char>> {
    match s {
        Some(s) => Some(s@),
        None => None,
    }
}

/// Whether a text that may be missing is another.
fn is_text(s: Option<&str>, other: &str) -> (r: bool)
    ensures
        r == (text_in(s) == Some(other@)),
{
    match s {
        Some(s) => same(s, other),
        None => false,
    }
}

/// Whether a reply says that this program's server is well. A reply of another
/// service on the same port does not.
pub fn reply_is_well(head: &str, status: Option<&str>, name: Option<&str>) -> (r: bool)
    ensures
        r == well(head@, text_in(status), text_in(name)),
{
    let line = line_of(head);
    contains(line.as_str(), " 200 ") && is_text(status, "ok") && is_text(name, "Base Search")
}

/// Whether the server is ready, by the bytes of its reply.
pub fn health_is_ready(response: &[u8]) -> (r: bool)
    ensures
        r == (match reply_parts(lossy_utf8(response@)) {
            Some((head, body)) => well(
                head,
                json_text_field(body, "status"@),
                json_text_field(body, "name"@),
            ),
            None => false,
        }),
{
    let reply = lossy_text(response);
    match split_reply(reply.as_str()) {
        Some((head, body)) => {
            let (status, name) = match json_value(body.as_str()) {
                Some(value) => (json_text_at(&value, "status"), json_text_at(&value, "name")),
                None => (None, None),
            };
            let status = match &status {
                Some(s) => Some(s.as_str()),
                None => None,
            };
            let name = match &name {
                Some(s) => Some(s.as_str()),
                None => None,
            };
            reply_is_well(head.as_str(), status, name)
        },
        None => false,
    }
}

/// What a line of the server's output says of its start, if it speaks of an
/// upgrade, a migration or an index.
pub open spec fn progress_in(line: Seq<char>) -> Option<Seq<char>> {
    let said = trimmed(line);
    let mark = "[base-search]"@;
    if !begins(said, mark) {
        None
    } else {
        let message = trimmed(said.skip(mark.len() as int));
        let lower = ascii_lowered(message);
        if holds(lower, "upgrade"@) || holds(lower, "migration"@) || holds(lower, "index"@) {
            Some(message)
        } else {
            None
        }
    }
}

/// What a line of the server's output says of its start.
pub fn startup_progress_text(line: &str) -> (r: Option<String>)
    ensures
        match r {
            Some(s) => progress_in(line@) == Some(s@),
            None => progress_in(line@) is None,
        },
{
    let said = trim(line);
    let v = chars_of(said.as_str());
    let mark = chars_of("[base-search]");
    if !chars_stand_at(&v, &mark, 0) {
        return None;
    }
    let rest = stretch(&v, mark.len(), v.len());
    assert(rest@ =~= v@.skip(mark@.len() as int));
    let message = trim(string_of(&rest).as_str());
    let lower = lower_ascii(message.as_str());
    if contains(lower.as_str(), "upgrade") || contains(lower.as_str(), "migration") || contains(
        lower.as_str(),
        "index",
    ) {
        Some(message)
    } else {
        None
    }
}

/// What is to be done while the server starts.
#[derive(Clone, Debug, PartialEq, Eq)]
pub enum WaitStep {
    Ready,
    Failed(String),
    /// Waits some milliseconds, then looks again.
    Sleep(u64),
}

/// Whether the server is worth asking how it is: one that no longer runs is not.
pub fn wait_for_process(running: bool) -> (r: Result<(), String>)
    ensures
        r is Ok <==> running,
        r is Err ==> r->Err_0@ == "the local server stopped before it became ready"@,
{
    if running {
        Ok(())
    } else {
        Err(String::from_str("the local server stopped before it became ready"))
    }
}

/// What is to be done after the server was asked how it is, given how long it
/// has been waited for, in milliseconds. It is never waited for beyond the
/// timeout.
pub fn wait_for_health(ready: bool, waited: u64, timeout: u64, poll_interval: u64) -> (r: WaitStep)
    ensures
        if ready {
            r is Ready
        } else if waited >= timeout {
            r is Failed && r->Failed_0@ == "the local server did not become ready within "@
                + decimal((timeout / 1000) as nat) + " seconds"@
        } else {
            r is Sleep && waited + r->Sleep_0 <= timeout && r->Sleep_0 <= poll_interval && (
            r->Sleep_0 == poll_interval || waited + r->Sleep_0 == timeout)
        },
{
    if ready {
        return WaitStep::Ready;
    }
    if waited >= timeout {
        let mut message = String::from_str("the local server did not become ready within ");
        message.append(decimal_text(timeout / 1000).as_str());
        message.append(" seconds");
        return WaitStep::Failed(message);
    }
    let left: u64 = timeout - waited;
    WaitStep::Sleep(
        if poll_interval < left {
            poll_interval
        } else {
            left
        },
    )
}

/// A reply is parted at its first empty line: what stands before it is the head,
/// and what stands behind it the body.
pub proof fn a_reply_is_parted_at_its_first_empty_line(head: Seq<char>, body: Seq<char>)
    requires
        forall|i: int| 0 <= i < head.len() ==> !stands_at(
            head + "\r\n\r\n"@ + body,
            "\r\n\r\n"@,
            i,
        ),
    ensures
        reply_parts(head + "\r\n\r\n"@ + body) == Some((head, body)),
{
    reveal_strlit("\r\n\r\n");
    let reply = head + "\r\n\r\n"@ + body;
    let k = head.len() as int;
    let p = |i: int| stands_at(reply, "\r\n\r\n"@, i);
    assert(reply.subrange(k, k + 4) =~= "\r\n\r\n"@);
    assert(p(k));
    assert forall|i: int| 0 <= i < k implies !#[trigger] p(i) by {}
    first_is(reply.len() as int + 1, p, k);
    assert(reply.take(k) =~= head);
    assert(reply.skip(k + 4) =~= body);
}

/// A head's first line ends before the first line end, and the carriage return
/// before it is not part of it.
pub proof fn a_first_line_ends_at_the_line_end(line: Seq<char>, rest: Seq<char>)
    requires
        forall|i: int| 0 <= i < line.len() ==> line[i] != '\n',
        line.len() > 0 ==> line.last() != '\r',
    ensures
        first_line(line + seq!['\r', '\n'] + rest) == line,
        first_line(line + seq!['\n'] + rest) == line,
        first_line(line) == line,
{
    let a = line + seq!['\r', '\n'] + rest;
    let p = |i: int| ends_line(a, i);
    let k = line.len() as int;
    assert(p(k + 1));
    assert forall|i: int| 0 <= i < k + 1 implies !#[trigger] p(i) by {
        if i < k {
            assert(a[i] == line[i]);
        }
    }
    first_is(a.len() as int, p, k + 1);
    assert(a.take(k) =~= line);
    let b = line + seq!['\n'] + rest;
    let q = |i: int| ends_line(b, i);
    assert(q(k));
    assert forall|i: int| 0 <= i < k implies !#[trigger] q(i) by {
        assert(b[i] == line[i]);
    }
    first_is(b.len() as int, q, k);
    assert(b.take(k) =~= line);
    if k > 0 {
        assert(b[k - 1] == line.last());
    }
    let none = |i: int| ends_line(line, i);
    assert forall|i: int| 0 <= i < k implies !#[trigger] none(i) by {}
    none_found(k, none);
}

/// A server is well only where it answers with code 200, says that it is ok and
/// says that it is this program.
pub proof fn only_this_program_is_well(
    head: Seq<char>,
    status: Option<Seq<char>>,
    name: Option<Seq<char>>,
)
    ensures
        status is None || name is None ==> !well(head, status, name),
        well(head, status, name) <==> status == Some("ok"@) && name == Some("Base Search"@)
            && holds(first_line(head), " 200 "@),
{
}

/// A line of the server is shown as progress only where it is marked as the
/// server's own and speaks of an upgrade, a migration or an index; the mark is not
/// shown.
pub proof fn only_marked_lines_are_progress(line: Seq<char>)
    ensures
        match progress_in(line) {
            Some(message) => begins(trimmed(line), "[base-search]"@) && message == trimmed(
                trimmed(line).skip(13),
            ) && (holds(ascii_lowered(message), "upgrade"@) || holds(
                ascii_lowered(message),
                "migration"@,
            ) || holds(ascii_lowered(message), "index"@)),
            None => !begins(trimmed(line), "[base-search]"@) || !holds(
                ascii_lowered(trimmed(trimmed(line).skip(13))),
                "upgrade"@,
            ),
        },
{
    reveal_strlit("[base-search]");
}

} // verus!
