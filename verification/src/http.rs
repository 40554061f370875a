//! Requests to the DeepSeek services and what is made of their replies.

use vstd::prelude::*;
use vstd::string::StringExecFns;

use crate::json::{Json, JsonModel, json_from_bytes, parsed_bytes};
use crate::text::{decimal, is_white_space, law_trimmed_text, push_decimal, trim, trimmed};

verus! {

/// The message for a login that the platform no longer accepts.
pub const LOGIN_EXPIRED: &'static str = "登录已过期，请重新复制 userToken";

/// The message for a key that the service does not accept.
pub const KEY_REJECTED: &'static str = "API Key 无效（401）";

/// A GET request.
#[derive(Debug)]
pub struct HttpRequest {
    pub url: String,
    /// Names and values of the headers.
    pub headers: Vec<(String, String)>,
    /// The time after which the request is given up, in seconds.
    pub timeout_s: u64,
}

/// What a request says.
#[verifier::ext_equal]
pub struct RequestModel {
    pub url: Seq<char>,
    pub headers: Seq<(Seq<char>, Seq<char>)>,
    pub timeout_s: u64,
}

impl View for HttpRequest {
    type V = RequestModel;

    open spec fn view(&self) -> RequestModel {
        RequestModel {
            url: self.url@,
            headers: Seq::new(
                self.headers@.len(),
                |i: int| (self.headers@[i].0@, self.headers@[i].1@),
            ),
            timeout_s: self.timeout_s,
        }
    }
}

/// How a request ended.
#[derive(Debug)]
pub enum HttpReply {
    /// The body of a reply that reports success.
    Body(Vec<u8>),
    /// Why the body of such a reply could not be read.
    BodyUnread(String),
    /// A status that reports a failure, with the body of the reply.
    Status { code: u16, body: String },
    /// Why no reply came.
    Transport(String),
}

/// Which of the two services answers.
#[derive(Clone, Copy, Debug, PartialEq, Eq, Structural)]
pub enum Service {
    /// The web platform, which knows the user by a login.
    Platform,
    /// The public API, which knows the user by a key.
    Api,
}

impl Service {
    /// Whether the status says that the service does not accept the user.
    pub open spec fn rejects(self, code: u16) -> bool {
        match self {
            Service::Platform => code == 401 || code == 403,
            Service::Api => code == 401,
        }
    }

    /// The message for a user that is not accepted.
    pub open spec fn rejection(self) -> Seq<char> {
        match self {
            Service::Platform => LOGIN_EXPIRED@,
            Service::Api => KEY_REJECTED@,
        }
    }
}

/// Whether the status says that `service` does not accept the user. The body of
/// such a reply is of no interest.
pub fn is_rejection(service: Service, code: u16) -> (r: bool)
    ensures
        r == service.rejects(code),
{
    match service {
        Service::Platform => code == 401 || code == 403,
        Service::Api => code == 401,
    }
}

/// The message for a status that reports a failure.
pub open spec fn status_message(service: Service, code: u16, body: Seq<char>) -> Seq<char> {
    if service.rejects(code) {
        service.rejection()
    } else {
        "HTTP "@ + decimal(code as nat) + ": "@ + trimmed(body)
    }
}

/// The message for a request to which no reply came.
pub open spec fn transport_message(detail: Seq<char>) -> Seq<char> {
    "网络错误: "@ + detail
}

/// The message for a body that could not be read or understood.
pub open spec fn body_message(detail: Seq<char>) -> Seq<char> {
    "返回数据解析失败: "@ + detail
}

/// The message for a body that is no JSON document.
pub open spec fn syntax_message(detail: Seq<char>) -> Seq<char> {
    body_message("Failed to read JSON: "@ + detail)
}

/// The message for a status that reports a failure.
pub fn status_error(service: Service, code: u16, body: &str) -> (r: String)
    ensures
        r@ == status_message(service, code, body@),
{
    if is_rejection(service, code) {
        match service {
            Service::Platform => LOGIN_EXPIRED.to_owned(),
            Service::Api => KEY_REJECTED.to_owned(),
        }
    } else {
        let mut out: String = "HTTP ".to_owned();
        push_decimal(&mut out, code as u64);
        out.append(": ");
        out.append(trim(body).as_str());
        out
    }
}

/// The document of a body, given what reading it as JSON gave.
pub fn document_of(parsed: Result<Json, String>) -> (r: Result<Json, String>)
    ensures
        match parsed {
            Ok(j) => r == Ok::<Json, String>(j),
            Err(e) => r matches Err(m) && m@ == syntax_message(e@),
        },
{
    match parsed {
        Ok(j) => Ok(j),
        Err(e) => {
            let mut out: String = "返回数据解析失败: ".to_owned();
            let mut detail: String = "Failed to read JSON: ".to_owned();
            detail.append(e.as_str());
            out.append(detail.as_str());
            Err(out)
        },
    }
}

/// What a reply comes to, given what its body is read as: a document, or the
/// message for the user.
pub open spec fn reply_outcome(service: Service, reply: HttpReply) -> Result<
    JsonModel,
    Seq<char>,
> {
    match reply {
        HttpReply::Body(bytes) => match parsed_bytes(bytes@) {
            Ok(m) => Ok(m),
            Err(e) => Err(syntax_message(e)),
        },
        HttpReply::BodyUnread(detail) => Err(body_message(detail@)),
        HttpReply::Status { code, body } => Err(status_message(service, code, body@)),
        HttpReply::Transport(detail) => Err(transport_message(detail@)),
    }
}

/// The document of a reply, or the message for the user.
pub fn read_reply(service: Service, reply: &HttpReply) -> (r: Result<Json, String>)
    ensures
        match r {
            Ok(j) => reply_outcome(service, *reply) == Ok::<_, Seq<char>>(j@),
            Err(m) => reply_outcome(service, *reply) == Err::<JsonModel, _>(m@),
        },
{
    match reply {
        HttpReply::Body(bytes) => document_of(json_from_bytes(bytes)),
        HttpReply::BodyUnread(detail) => {
            let mut out: String = "返回数据解析失败: ".to_owned();
            out.append(detail.as_str());
            Err(out)
        },
        HttpReply::Status { code, body } => Err(status_error(service, *code, body.as_str())),
        HttpReply::Transport(detail) => {
            let mut out: String = "网络错误: ".to_owned();
            out.append(detail.as_str());
            Err(out)
        },
    }
}

/// The document of a reply of the platform, or the message for the user.
pub fn platform_get(reply: &HttpReply) -> (r: Result<Json, String>)
    ensures
        match r {
            Ok(j) => reply_outcome(Service::Platform, *reply) == Ok::<_, Seq<char>>(j@),
            Err(m) => reply_outcome(Service::Platform, *reply) == Err::<
                JsonModel,
                _,
            >(m@),
        },
{
    read_reply(Service::Platform, reply)
}

/// A login that the platform does not accept is reported in one way, whatever
/// the reply says besides.
pub proof fn law_rejected_login_is_reported(code: u16, body: Seq<char>, other: Seq<char>)
    requires
        code == 401 || code == 403,
    ensures
        status_message(Service::Platform, code, body) == LOGIN_EXPIRED@,
        status_message(Service::Platform, code, body) == status_message(
            Service::Platform,
            code,
            other,
        ),
{
}

/// The platform turns a user away with 401 or 403, the API with 401 only; each has
/// one message for it.
pub proof fn law_rejections(code: u16)
    ensures
        Service::Platform.rejects(code) <==> code == 401 || code == 403,
        Service::Api.rejects(code) <==> code == 401,
        Service::Platform.rejection() == "登录已过期，请重新复制 userToken"@,
        Service::Api.rejection() == "API Key 无效（401）"@,
{
}

/// A key that the API does not accept is reported in one way, whatever the reply
/// says besides.
pub proof fn law_rejected_key_is_reported(body: Seq<char>)
    ensures
        status_message(Service::Api, 401, body) == "API Key 无效（401）"@,
{
}

/// Any other failure is reported with its status and the body without white space
/// around it; 403 from the API is such a failure.
pub proof fn law_other_status_is_shown(
    service: Service,
    code: u16,
    head: Seq<char>,
    body: Seq<char>,
    tail: Seq<char>,
)
    requires
        code != 401,
        code != 403 || service == Service::Api,
        forall|i: int| 0 <= i < head.len() ==> is_white_space(#[trigger] head[i]),
        forall|i: int| 0 <= i < tail.len() ==> is_white_space(#[trigger] tail[i]),
        body.len() > 0 ==> !is_white_space(body.first()) && !is_white_space(body.last()),
    ensures
        status_message(service, code, head + body + tail) == "HTTP "@ + decimal(code as nat)
            + ": "@ + body,
{
    law_trimmed_text(head, body, tail);
}

/// A reply comes to a document exactly where it has a body that reads as one, and
/// then to that document, whichever service sent it.
pub proof fn law_only_a_document_succeeds(service: Service, reply: HttpReply, doc: JsonModel)
    ensures
        reply_outcome(service, reply) == Ok::<_, Seq<char>>(doc) <==> {
            &&& reply matches HttpReply::Body(bytes)
            &&& parsed_bytes(bytes@) == Ok::<_, Seq<char>>(doc)
        },
{
}

/// Each way in which a request can fail has its own message with what went wrong
/// in it.
pub proof fn law_failures_are_told_apart(
    service: Service,
    bytes: Vec<u8>,
    detail: String,
    code: u16,
    syntax: Seq<char>,
)
    ensures
        reply_outcome(service, HttpReply::Transport(detail)) == Err::<JsonModel, _>(
            "网络错误: "@ + detail@,
        ),
        reply_outcome(service, HttpReply::BodyUnread(detail)) == Err::<JsonModel, _>(
            "返回数据解析失败: "@ + detail@,
        ),
        reply_outcome(service, HttpReply::Status { code, body: detail }) == Err::<JsonModel, _>(
            status_message(service, code, detail@),
        ),
        parsed_bytes(bytes@) == Err::<JsonModel, _>(syntax) ==> reply_outcome(
            service,
            HttpReply::Body(bytes),
        ) == Err::<JsonModel, _>("返回数据解析失败: "@ + ("Failed to read JSON: "@ + syntax)),
{
}

/// A request says its address, its time limit and its headers, each at its
/// position.
pub proof fn law_request_says_what_it_holds(req: HttpRequest)
    ensures
        req@.url == req.url@,
        req@.timeout_s == req.timeout_s,
        req@.headers.len() == req.headers@.len(),
        forall|i: int|
            0 <= i < req.headers@.len() ==> #[trigger] req@.headers[i] == (
                req.headers@[i].0@,
                req.headers@[i].1@,
            ),
{
}

// ---------------------------------------------------------------------------
// What the operations do
// ---------------------------------------------------------------------------

/// `is_rejection` knows 401 and 403 of the platform and 401 of the API, and
/// `status_error` has one message for each service then; for any other status it
/// shows the status and the body without white space around it.
pub proof fn law_status_error_reports_the_status(
    service: Service,
    code: u16,
    rejected: bool,
    body: &str,
    message: String,
    head: Seq<char>,
    middle: Seq<char>,
    tail: Seq<char>,
)
    requires
        call_ensures(is_rejection, (service, code), rejected),
        call_ensures(status_error, (service, code, body), message),
        body@ == head + middle + tail,
        forall|i: int| 0 <= i < head.len() ==> is_white_space(#[trigger] head[i]),
        forall|i: int| 0 <= i < tail.len() ==> is_white_space(#[trigger] tail[i]),
        middle.len() > 0 ==> !is_white_space(middle.first()) && !is_white_space(middle.last()),
    ensures
        rejected <==> code == 401 || (code == 403 && service == Service::Platform),
        rejected && service == Service::Platform ==> message@
            == "登录已过期，请重新复制 userToken"@,
        rejected && service == Service::Api ==> message@ == "API Key 无效（401）"@,
        !rejected ==> message@ == "HTTP "@ + decimal(code as nat) + ": "@ + middle,
{
    law_trimmed_text(head, middle, tail);
}

/// `read_reply` gives the document of a body that is one, and a message otherwise:
/// that of `status_error` for a status, and one with what went wrong for all else.
/// `platform_get` is the same for a reply of the platform.
pub proof fn law_read_reply_gives_the_document(
    service: Service,
    reply: &HttpReply,
    r: Result<Json, String>,
    of_platform: Result<Json, String>,
    code: u16,
    body: &str,
    message: String,
    doc: JsonModel,
    syntax: Seq<char>,
)
    requires
        call_ensures(read_reply, (service, reply), r),
        call_ensures(platform_get, (reply,), of_platform),
        call_ensures(status_error, (service, code, body), message),
    ensures
        *reply is Body && parsed_bytes(reply->Body_0@) == Ok::<_, Seq<char>>(doc) ==> r is Ok
            && r->Ok_0@ == doc,
        *reply is Body && parsed_bytes(reply->Body_0@) == Err::<JsonModel, _>(syntax) ==> r is Err
            && r->Err_0@ == "返回数据解析失败: "@ + ("Failed to read JSON: "@ + syntax),
        *reply is BodyUnread ==> r is Err && r->Err_0@ == "返回数据解析失败: "@
            + reply->BodyUnread_0@,
        *reply is Transport ==> r is Err && r->Err_0@ == "网络错误: "@ + reply->Transport_0@,
        *reply is Status && reply->code == code && reply->body@ == body@ ==> r is Err && r->Err_0@
            == message@,
        service == Service::Platform && r is Ok ==> of_platform is Ok && of_platform->Ok_0@
            == r->Ok_0@,
        service == Service::Platform && r is Err ==> of_platform is Err && of_platform->Err_0@
            == r->Err_0@,
{
}

/// `document_of` gives the document that was read, and says why where none was.
pub proof fn law_document_of_what_was_read(
    j: Json,
    read: Result<Json, String>,
    e: String,
    unread: Result<Json, String>,
)
    requires
        call_ensures(document_of, (Ok(j),), read),
        call_ensures(document_of, (Err(e),), unread),
    ensures
        read is Ok && read->Ok_0 == j,
        unread is Err && unread->Err_0@ == "返回数据解析失败: "@ + ("Failed to read JSON: "@ + e@),
{
}

} // verus!
