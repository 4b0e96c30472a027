//! Requests to butlerd and the reading of its answers.
use vstd::prelude::*;

use crate::error::ErrorKind;
use crate::json::{lookup, object_text, JsonObject};
use crate::responses::{ResponseErr, ResponseRes};

verus! {

/// Which HTTP client carries a request.
#[derive(Debug, Clone, Copy, PartialEq, Eq)]
pub enum Channel {
    /// The client with the default timeout.
    Standard,
    /// The client without a timeout, for calls that last as long as a game runs.
    Launch,
    /// A bare POST with an empty body whose answer nobody waits for.
    Detached,
}

/// What the caller takes from butlerd's answer.
#[derive(Debug)]
pub enum Reply {
    /// Nothing: only whether the request could be sent counts.
    Ignore,
    /// The whole `result` object.
    Whole,
    /// One member of the `result` object.
    Field(String),
}

/// Whether `reply` asks for the member named `field`.
pub open spec fn reply_field(reply: Reply, field: Seq<char>) -> bool {
    reply matches Reply::Field(f) && f@ == field
}

impl Reply {
    /// A reply that takes the member named `field`.
    pub fn field(field: &str) -> (r: Reply)
        ensures
            reply_field(r, field@),
    {
        Reply::Field(String::from_str(field))
    }
}

/// A call of butlerd: the path it is posted to, its JSON body, the client that
/// carries it, and what is taken from the answer.
#[derive(Debug)]
pub struct Request {
    pub path: String,
    pub body: String,
    pub channel: Channel,
    pub reply: Reply,
}

impl Request {
    /// A request whose body is the JSON text of `params`.
    pub fn new(path: &str, params: JsonObject, channel: Channel, reply: Reply) -> (r: Request)
        ensures
            r.path@ == path@,
            r.body@ == object_text(params@),
            r.channel == channel,
            r.reply == reply,
    {
        Request { path: String::from_str(path), body: params.render(), channel, reply }
    }

    /// A request with an empty body, sent without waiting for its answer.
    pub fn detached(path: &str) -> (r: Request)
        ensures
            r.path@ == path@,
            r.body@ == Seq::<char>::empty(),
            r.channel == Channel::Detached,
            r.reply == Reply::Ignore,
    {
        Request {
            path: String::from_str(path),
            body: String::new(),
            channel: Channel::Detached,
            reply: Reply::Ignore,
        }
    }
}

/// What `pres` gives for an answer: the JSON text of its `result` object when it read as
/// a result; else butlerd's error when it read as an error; else the parse failure.
pub open spec fn pres_gives(
    res: Result<ResponseRes, String>,
    err: Result<ResponseErr, String>,
    r: Result<String, ErrorKind>,
) -> bool {
    match res {
        Ok(rr) => r matches Ok(t) && t@ == object_text(rr.result@),
        Err(_) => match err {
            Ok(e) => r == Err::<String, ErrorKind>(ErrorKind::ButlerError(e.error)),
            Err(m) => r == Err::<String, ErrorKind>(ErrorKind::Parse(m)),
        },
    }
}

/// What `parse_r` gives for an answer and a member name: the JSON text of that member of
/// its `result` when it read as a result with such a member; `MissingField` with the name
/// when it read as a result without one; else as `pres_gives`.
pub open spec fn parse_r_gives(
    res: Result<ResponseRes, String>,
    err: Result<ResponseErr, String>,
    prop: Seq<char>,
    r: Result<String, ErrorKind>,
) -> bool {
    match res {
        Ok(rr) => match lookup(rr.result@, prop) {
            Some(v) => r matches Ok(t) && t@ == v,
            None => r matches Err(ErrorKind::MissingField(f)) && f@ == prop,
        },
        Err(_) => pres_gives(res, err, r),
    }
}

/// The JSON text of the whole `result` of an answer. `res` is the answer read as a
/// result, `err` the same answer read as an error, each with the parse failure's message
/// when it did not read so.
pub fn pres(res: Result<ResponseRes, String>, err: Result<ResponseErr, String>) -> (r: Result<
    String,
    ErrorKind,
>)
    ensures
        pres_gives(res, err, r),
{
    match res {
        Ok(rr) => Ok(rr.result.render()),
        Err(_) => match err {
            Ok(e) => Err(ErrorKind::ButlerError(e.error)),
            Err(m) => Err(ErrorKind::Parse(m)),
        },
    }
}

/// The JSON text of the member `prop` of an answer's `result`; `res` and `err` as for
/// `pres`.
pub fn parse_r(res: Result<ResponseRes, String>, err: Result<ResponseErr, String>, prop: &str) -> (r:
    Result<String, ErrorKind>)
    ensures
        parse_r_gives(res, err, prop@, r),
        res matches Ok(rr) ==> (lookup(rr.result@, prop@) matches Some(v) ==> (r matches Ok(t)
            && t@ == v)),
        res matches Ok(rr) ==> (lookup(rr.result@, prop@) is None ==> (r matches Err(
            ErrorKind::MissingField(f),
        ) && f@ == prop@)),
        res is Err ==> pres_gives(res, err, r),
{
    match res {
        Ok(rr) => match rr.result.get(prop) {
            Some(v) => Ok(v),
            None => Err(ErrorKind::MissingField(String::from_str(prop))),
        },
        Err(_) => match err {
            Ok(e) => Err(ErrorKind::ButlerError(e.error)),
            Err(m) => Err(ErrorKind::Parse(m)),
        },
    }
}

/// What the caller takes from an answer to a request with this `reply`: nothing, the
/// whole result, or one member of it.
pub fn interpret(reply: &Reply, res: Result<ResponseRes, String>, err: Result<ResponseErr, String>) -> (r:
    Result<Option<String>, ErrorKind>)
    ensures
        *reply == Reply::Ignore ==> r == Ok::<Option<String>, ErrorKind>(None),
        *reply == Reply::Whole ==> pres_gives(res, err, unwrap_some(r)),
        reply matches Reply::Field(f) ==> parse_r_gives(res, err, f@, unwrap_some(r)),
        *reply != Reply::Ignore ==> (r matches Ok(v) ==> v is Some),
{
    match reply {
        Reply::Ignore => Ok(None),
        Reply::Whole => match pres(res, err) {
            Ok(t) => Ok(Some(t)),
            Err(e) => Err(e),
        },
        Reply::Field(f) => match parse_r(res, err, f.as_str()) {
            Ok(t) => Ok(Some(t)),
            Err(e) => Err(e),
        },
    }
}

/// `r` with its success taken out of the `Some` around it.
pub open spec fn unwrap_some(r: Result<Option<String>, ErrorKind>) -> Result<String, ErrorKind> {
    match r {
        Ok(Some(t)) => Ok(t),
        Ok(None) => Ok(arbitrary()),
        Err(e) => Err(e),
    }
}

/// When the result of an answer has a member named `prop`, `parse_r` succeeds with the JSON
/// text of the first such member, whatever that text is; it reports the member missing
/// exactly when the result has no member of that name.
pub proof fn lemma_member_present_succeeds(
    rr: ResponseRes,
    err: Result<ResponseErr, String>,
    prop: Seq<char>,
    r: Result<String, ErrorKind>,
    i: int,
)
    requires
        parse_r_gives(Ok(rr), err, prop, r),
        0 <= i < rr.result@.len(),
        rr.result@[i].0 == prop,
        forall|j: int| 0 <= j < i ==> rr.result@[j].0 != prop,
    ensures
        r matches Ok(t) && t@ == rr.result@[i].1,
{
    crate::json::lemma_lookup_found(rr.result@, prop);
    if lookup(rr.result@, prop) is None {
        assert(rr.result@[i].0 != prop);
    } else {
        let v = lookup(rr.result@, prop)->0;
        let k = choose|k: int|
            0 <= k < rr.result@.len() && rr.result@[k].0 == prop && rr.result@[k].1 == v
                && forall|j: int| 0 <= j < k ==> rr.result@[j].0 != prop;
        if k < i {
            assert(rr.result@[k].0 != prop);
        } else if k > i {
            assert(rr.result@[i].0 != prop);
        }
    }
}

/// `parse_r` reports the member `prop` missing only when the result has no member of that name.
pub proof fn lemma_missing_only_when_absent(
    rr: ResponseRes,
    err: Result<ResponseErr, String>,
    prop: Seq<char>,
    r: Result<String, ErrorKind>,
)
    requires
        parse_r_gives(Ok(rr), err, prop, r),
        r is Err,
    ensures
        forall|j: int| 0 <= j < rr.result@.len() ==> rr.result@[j].0 != prop,
        r matches Err(ErrorKind::MissingField(f)) && f@ == prop,
{
    crate::json::lemma_lookup_found(rr.result@, prop);
}

/// An answer that does not read as a result fails alike whether the whole result or one
/// member of it was asked for.
pub proof fn lemma_failures_agree(
    res: Result<ResponseRes, String>,
    err: Result<ResponseErr, String>,
    prop: Seq<char>,
    whole: Result<String, ErrorKind>,
    member: Result<String, ErrorKind>,
)
    requires
        res is Err,
        pres_gives(res, err, whole),
        parse_r_gives(res, err, prop, member),
    ensures
        whole == member,
{
}

/// The text `parse_r` hands on for a member is the value of the first member of that name
/// of the result, whose object `pres` hands on.
pub proof fn lemma_member_of_result(
    rr: ResponseRes,
    err: Result<ResponseErr, String>,
    prop: Seq<char>,
    member: Result<String, ErrorKind>,
)
    requires
        parse_r_gives(Ok(rr), err, prop, member),
        member is Ok,
    ensures
        exists|i: int|
            0 <= i < rr.result@.len() && rr.result@[i].0 == prop && rr.result@[i].1
                == member->Ok_0@ && forall|j: int| 0 <= j < i ==> rr.result@[j].0 != prop,
{
    crate::json::lemma_lookup_found(rr.result@, prop);
}

} // verus!
