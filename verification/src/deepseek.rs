//! The DeepSeek account: balance, and the usage and cost of the platform's bill.

use vstd::prelude::*;
use vstd::string::StrSliceExecFns;
use vstd::string::StringExecFns;

use crate::http::{
    HttpReply, HttpRequest, LOGIN_EXPIRED, RequestModel, Service, law_request_says_what_it_holds,
    platform_get, read_reply, reply_outcome,
};
use crate::json::{
    Json, JsonModel, field, head, int_or_zero, is_true, items, json_from_str, parsed_bytes,
    parsed_text, place_model, text_or,
};
use crate::text::{
    Strip, begins_with, decimal, is_white_space, law_padded_decimal_reads_back,
    law_trim_keeps_the_middle, law_trimmed_text, number_or_zero, push_decimal,
    push_signed_decimal, read_number_or_zero, same_text, signed_decimal, strip_ends, stripped,
    texts, trim, trimmed,
};
use crate::usage::{
    Clocks, SystemTimeRaw, date_text, law_date_has_ten_characters, law_date_parts, local_today,
    utc_today,
};

verus! {

pub const BALANCE_URL: &'static str = "https://api.deepseek.com/user/balance";

pub const PLATFORM_AMOUNT_URL: &'static str = "https://platform.deepseek.com/api/v0/usage/amount";

pub const PLATFORM_COST_URL: &'static str = "https://platform.deepseek.com/api/v0/usage/cost";

pub const PLATFORM_USAGE_PAGE: &'static str = "https://platform.deepseek.com/usage";

pub const BROWSER: &'static str =
    "Mozilla/5.0 (Windows NT 10.0; Win64; x64) AppleWebKit/537.36 Chrome/120.0 Safari/537.36";

pub const PLATFORM_TIMEOUT_S: u64 = 15;

pub const BALANCE_TIMEOUT_S: u64 = 12;

// ---------------------------------------------------------------------------
// The login of the platform
// ---------------------------------------------------------------------------

/// What was pasted, without white space at the ends and then without the quotes
/// around it.
pub open spec fn pasted_text(raw: Seq<char>) -> Seq<char> {
    stripped(
        stripped(trimmed(raw), Strip::DoubleQuote),
        Strip::SingleQuote,
    )
}

/// The login in `pasted`, given what it is read as JSON: the member `value` of an
/// object, or a text, without white space at the ends; otherwise `pasted` as it
/// stands.
pub open spec fn login_of(
    pasted: Seq<char>,
    parsed: Result<JsonModel, Seq<char>>,
) -> Seq<char> {
    match parsed {
        Ok(m) => match m.field("value"@) {
            JsonModel::Text(s) => trimmed(s),
            _ => match m {
                JsonModel::Text(s) => trimmed(s),
                _ => pasted,
            },
        },
        Err(_) => pasted,
    }
}

/// What reading a text as JSON gave, as the specifications speak of it.
pub open spec fn parsed_model(parsed: Result<Json, String>) -> Result<
    JsonModel,
    Seq<char>,
> {
    match parsed {
        Ok(j) => Ok(j@),
        Err(e) => Err(e@),
    }
}

/// The login in `pasted`, given what it is read as JSON.
pub fn login_from(pasted: &str, parsed: &Result<Json, String>) -> (r: String)
    ensures
        r@ == login_of(pasted@, parsed_model(*parsed)),
{
    match parsed {
        Ok(j) => {
            match field(Some(j), "value") {
                Some(Json::Text(s)) => trim(s.as_str()),
                _ => match j {
                    Json::Text(s) => trim(s.as_str()),
                    _ => pasted.to_owned(),
                },
            }
        },
        Err(_) => pasted.to_owned(),
    }
}

/// The login in what the user pasted. The platform stores it as
/// `{"value":"...","__version":"0"}`; the bare login is taken as well.
pub open spec fn login_in(raw: Seq<char>) -> Seq<char> {
    login_of(pasted_text(raw), parsed_text(pasted_text(raw)))
}

/// The login in what the user pasted.
pub fn normalize_user_token(raw: &str) -> (r: String)
    ensures
        r@ == login_in(raw@),
{
    let bare: String = trim(raw);
    let unquoted: String = strip_ends(bare.as_str(), Strip::DoubleQuote);
    let pasted: String = strip_ends(unquoted.as_str(), Strip::SingleQuote);
    let parsed: Result<Json, String> = json_from_str(pasted.as_str());
    login_from(pasted.as_str(), &parsed)
}

/// A login that is no JSON document is taken as it stands, but for white space
/// and quotes around it.
pub proof fn law_bare_login_is_kept(raw: Seq<char>)
    requires
        parsed_text(pasted_text(raw)) is Err,
    ensures
        login_in(raw) == pasted_text(raw),
{
}

/// A login in the platform's wrapping is the member `value`, whatever else the
/// wrapping holds.
pub proof fn law_wrapped_login_is_unwrapped(
    raw: Seq<char>,
    wrapping: JsonModel,
    value: Seq<char>,
)
    requires
        parsed_text(pasted_text(raw)) == Ok::<_, Seq<char>>(wrapping),
        wrapping.field("value"@) == JsonModel::Text(value),
    ensures
        login_in(raw) == trimmed(value),
{
}

/// What was pasted loses the white space around it, then the double quotes and
/// then the single quotes, however many there are; the rest stays as it is.
pub proof fn law_pasted_text_loses_its_quotes(
    head: Seq<char>,
    opening: Seq<char>,
    inner_opening: Seq<char>,
    rest: Seq<char>,
    inner_closing: Seq<char>,
    closing: Seq<char>,
    tail: Seq<char>,
)
    requires
        forall|i: int| 0 <= i < head.len() ==> is_white_space(#[trigger] head[i]),
        forall|i: int| 0 <= i < tail.len() ==> is_white_space(#[trigger] tail[i]),
        forall|i: int| 0 <= i < opening.len() ==> #[trigger] opening[i] == '"',
        forall|i: int| 0 <= i < closing.len() ==> #[trigger] closing[i] == '"',
        forall|i: int| 0 <= i < inner_opening.len() ==> #[trigger] inner_opening[i] == '\'',
        forall|i: int| 0 <= i < inner_closing.len() ==> #[trigger] inner_closing[i] == '\'',
        rest.len() > 0 ==> rest.first() != '\'' && rest.last() != '\'',
        ({
            let inner = inner_opening + rest + inner_closing;
            inner.len() > 0 ==> inner.first() != '"' && inner.last() != '"'
        }),
        ({
            let outer = opening + (inner_opening + rest + inner_closing) + closing;
            outer.len() > 0 ==> !is_white_space(outer.first()) && !is_white_space(outer.last())
        }),
    ensures
        pasted_text(head + (opening + (inner_opening + rest + inner_closing) + closing) + tail)
            == rest,
{
    let inner = inner_opening + rest + inner_closing;
    law_trim_keeps_the_middle(inner_opening, rest, inner_closing, Strip::SingleQuote);
    law_trim_keeps_the_middle(opening, inner, closing, Strip::DoubleQuote);
    law_trim_keeps_the_middle(head, opening + inner + closing, tail, Strip::White);
}

/// The login is taken from the member `value` where that is a text, else from a
/// document that is a text itself, both without white space around them; from any
/// other document, or from none, it is what was pasted.
pub proof fn law_where_the_login_is_taken_from(
    pasted: Seq<char>,
    m: JsonModel,
    s: Seq<char>,
    error: Seq<char>,
)
    ensures
        m.field("value"@) == JsonModel::Text(s) ==> login_of(pasted, Ok(m)) == trimmed(s),
        m.field("value"@) !is Text && m == JsonModel::Text(s) ==> login_of(pasted, Ok(m))
            == trimmed(s),
        m.field("value"@) !is Text && m !is Text ==> login_of(pasted, Ok(m)) == pasted,
        login_of(pasted, Err(error)) == pasted,
{
}

/// What the user pasted is read as JSON without the quotes around it, and the
/// login is taken from what that gives.
pub proof fn law_login_is_read_from_the_pasted_text(raw: Seq<char>, m: JsonModel, s: Seq<char>)
    ensures
        parsed_text(pasted_text(raw)) is Err ==> login_in(raw) == pasted_text(raw),
        parsed_text(pasted_text(raw)) == Ok::<_, Seq<char>>(m) && m.field("value"@)
            == JsonModel::Text(s) ==> login_in(raw) == trimmed(s),
        parsed_text(pasted_text(raw)) == Ok::<_, Seq<char>>(m) && m == JsonModel::Text(s)
            ==> login_in(raw) == trimmed(s),
        parsed_text(pasted_text(raw)) == Ok::<_, Seq<char>>(m) && m.field("value"@) !is Text && m
            !is Text ==> login_in(raw) == pasted_text(raw),
{
}

/// What was read as JSON is taken as it is: a document as what it holds, an error
/// as its message.
pub proof fn law_what_was_read_is_taken_as_it_is(j: Json, e: String)
    ensures
        parsed_model(Ok(j)) == Ok::<_, Seq<char>>(j@),
        parsed_model(Err(e)) == Err::<JsonModel, _>(e@),
{
}

// ---------------------------------------------------------------------------
// Requests
// ---------------------------------------------------------------------------

/// A request to a page of the platform.
pub open spec fn platform_request(url: Seq<char>, token: Seq<char>) -> RequestModel {
    RequestModel {
        url,
        headers: seq![
            ("Authorization"@, "Bearer "@ + token),
            ("Accept"@, "application/json"@),
            ("Referer"@, PLATFORM_USAGE_PAGE@),
            ("User-Agent"@, BROWSER@),
        ],
        timeout_s: PLATFORM_TIMEOUT_S,
    }
}

/// The request for the balance.
pub open spec fn balance_request(api_key: Seq<char>) -> RequestModel {
    RequestModel {
        url: BALANCE_URL@,
        headers: seq![
            ("Authorization"@, "Bearer "@ + api_key),
            ("Accept"@, "application/json"@),
        ],
        timeout_s: BALANCE_TIMEOUT_S,
    }
}

/// The year that a date begins with, and 0 where its first four characters are
/// no number.
pub open spec fn billing_year(today: Seq<char>) -> nat {
    number_or_zero(today.subrange(0, 4))
}

/// The month of a date, and 0 where its sixth and seventh characters are no
/// number.
pub open spec fn billing_month(today: Seq<char>) -> nat {
    number_or_zero(today.subrange(5, 7))
}

/// The address of a page of the bill for the month of `today`.
pub open spec fn billing_url(page: Seq<char>, today: Seq<char>) -> Seq<char> {
    page + "?month="@ + decimal(billing_month(today)) + "&year="@
        + decimal(billing_year(today))
}

/// The two requests for the bill of the current month.
#[derive(Debug)]
pub struct UsagePlan {
    pub amount: HttpRequest,
    pub cost: HttpRequest,
}

fn header(name: &str, value: &str) -> (r: (String, String))
    ensures
        r.0@ == name@,
        r.1@ == value@,
{
    (name.to_owned(), value.to_owned())
}

fn bearer(secret: &str) -> (r: String)
    ensures
        r@ == "Bearer "@ + secret@,
{
    let mut out: String = "Bearer ".to_owned();
    out.append(secret);
    out
}

fn ask_platform(url: String, token: &str) -> (r: HttpRequest)
    ensures
        r@ == platform_request(url@, token@),
{
    let mut headers: Vec<(String, String)> = Vec::new();
    headers.push(header("Authorization", bearer(token).as_str()));
    headers.push(header("Accept", "application/json"));
    headers.push(header("Referer", PLATFORM_USAGE_PAGE));
    headers.push(header("User-Agent", BROWSER));
    let r: HttpRequest = HttpRequest { url, headers, timeout_s: PLATFORM_TIMEOUT_S };
    assert(r@ =~= platform_request(url@, token@));
    r
}

fn bill_url(page: &str, month: u32, year: u32) -> (r: String)
    ensures
        r@ == page@ + "?month="@ + decimal(month as nat) + "&year="@
            + decimal(year as nat),
{
    let mut out: String = page.to_owned();
    out.append("?month=");
    push_decimal(&mut out, month as u64);
    out.append("&year=");
    push_decimal(&mut out, year as u64);
    out
}

/// The requests for the bill of the local month with a login, or the message
/// that there is no login.
pub fn usage_plan(token: &str, clocks: &Clocks) -> (r: Result<UsagePlan, String>)
    ensures
        r is Err <==> token@.len() == 0,
        r matches Err(m) ==> m@ == "userToken 为空"@,
        r matches Ok(plan) ==> ({
            let today = date_text(clocks.local);
            &&& plan.amount@ == platform_request(billing_url(PLATFORM_AMOUNT_URL@, today), token@)
            &&& plan.cost@ == platform_request(billing_url(PLATFORM_COST_URL@, today), token@)
        }),
{
    if token.is_empty() {
        return Err("userToken 为空".to_owned());
    }
    let today: String = local_today(clocks);
    proof {
        law_date_has_ten_characters(clocks.local);
    }
    let year: u32 = read_number_or_zero(today.as_str().substring_char(0, 4));
    let month: u32 = read_number_or_zero(today.as_str().substring_char(5, 7));
    let amount: HttpRequest = ask_platform(bill_url(PLATFORM_AMOUNT_URL, month, year), token);
    let cost: HttpRequest = ask_platform(bill_url(PLATFORM_COST_URL, month, year), token);
    Ok(UsagePlan { amount, cost })
}

/// The requests for the bill of the local month with the login that the user
/// pasted, or the message that there is no login in it.
pub fn fetch_official_usage(user_token: &str, clocks: &Clocks) -> (r: Result<UsagePlan, String>)
    ensures
        r is Err <==> login_in(user_token@).len() == 0,
        r matches Err(m) ==> m@ == "userToken 为空"@,
        r matches Ok(plan) ==> ({
            let token = login_in(user_token@);
            let today = date_text(clocks.local);
            &&& plan.amount@ == platform_request(billing_url(PLATFORM_AMOUNT_URL@, today), token)
            &&& plan.cost@ == platform_request(billing_url(PLATFORM_COST_URL@, today), token)
        }),
{
    let token: String = normalize_user_token(user_token);
    usage_plan(token.as_str(), clocks)
}

/// The request for the balance with `api_key`.
pub fn fetch_balance(api_key: &str) -> (r: HttpRequest)
    ensures
        r@ == balance_request(api_key@),
{
    let mut headers: Vec<(String, String)> = Vec::new();
    headers.push(header("Authorization", bearer(api_key).as_str()));
    headers.push(header("Accept", "application/json"));
    let r: HttpRequest = HttpRequest {
        url: BALANCE_URL.to_owned(),
        headers,
        timeout_s: BALANCE_TIMEOUT_S,
    };
    assert(r@ =~= balance_request(api_key@));
    r
}

/// The request that carries the key goes to the service of the API.
pub proof fn law_key_goes_to_the_api(api_key: Seq<char>)
    ensures
        begins_with(balance_request(api_key).url, "https://api.deepseek.com/"@),
{
    reveal_strlit("https://api.deepseek.com/user/balance");
    reveal_strlit("https://api.deepseek.com/");
    assert(BALANCE_URL@.subrange(0, 25) =~= "https://api.deepseek.com/"@);
}

/// The requests that carry the login go to the platform, for every month.
pub proof fn law_login_goes_to_the_platform(token: Seq<char>, today: Seq<char>)
    ensures
        begins_with(
            platform_request(billing_url(PLATFORM_AMOUNT_URL@, today), token).url,
            "https://platform.deepseek.com/"@,
        ),
        begins_with(
            platform_request(billing_url(PLATFORM_COST_URL@, today), token).url,
            "https://platform.deepseek.com/"@,
        ),
{
    reveal_strlit("https://platform.deepseek.com/");
    reveal_strlit("https://platform.deepseek.com/api/v0/usage/amount");
    reveal_strlit("https://platform.deepseek.com/api/v0/usage/cost");
    assert(billing_url(PLATFORM_AMOUNT_URL@, today).subrange(0, 30)
        =~= "https://platform.deepseek.com/"@);
    assert(billing_url(PLATFORM_COST_URL@, today).subrange(0, 30)
        =~= "https://platform.deepseek.com/"@);
}

/// The bill is asked for by the month and year of the local clock.
pub proof fn law_bill_is_of_the_local_month(t: SystemTimeRaw)
    requires
        t.year <= 9999,
        t.month <= 99,
    ensures
        billing_year(date_text(t)) == t.year,
        billing_month(date_text(t)) == t.month,
{
    law_date_parts(t);
    law_padded_decimal_reads_back(t.year as nat, 4);
    law_padded_decimal_reads_back(t.month as nat, 2);
}

/// The request for the balance goes to one address, carries the key and nothing
/// else that is secret, and is given up after 12 seconds.
pub proof fn law_what_a_balance_request_says(req: HttpRequest, api_key: Seq<char>)
    requires
        req@ == balance_request(api_key),
    ensures
        req.url@ == "https://api.deepseek.com/user/balance"@,
        req.timeout_s == 12,
        req.headers@.len() == 2,
        req.headers@[0].0@ == "Authorization"@,
        req.headers@[0].1@ == "Bearer "@ + api_key,
        req.headers@[1].0@ == "Accept"@,
        req.headers@[1].1@ == "application/json"@,
{
    law_request_says_what_it_holds(req);
    assert(req@.headers[0] == (req.headers@[0].0@, req.headers@[0].1@));
    assert(req@.headers[1] == (req.headers@[1].0@, req.headers@[1].1@));
}

/// A request to the platform goes to the address it is made for, carries the login
/// and says which page and browser it comes from, and is given up after 15
/// seconds.
pub proof fn law_what_a_platform_request_says(req: HttpRequest, url: Seq<char>, token: Seq<char>)
    requires
        req@ == platform_request(url, token),
    ensures
        req.url@ == url,
        req.timeout_s == 15,
        req.headers@.len() == 4,
        req.headers@[0].0@ == "Authorization"@,
        req.headers@[0].1@ == "Bearer "@ + token,
        req.headers@[1].0@ == "Accept"@,
        req.headers@[1].1@ == "application/json"@,
        req.headers@[2].0@ == "Referer"@,
        req.headers@[2].1@ == "https://platform.deepseek.com/usage"@,
        req.headers@[3].0@ == "User-Agent"@,
        req.headers@[3].1@
            == "Mozilla/5.0 (Windows NT 10.0; Win64; x64) AppleWebKit/537.36 Chrome/120.0 Safari/537.36"@,
{
    law_request_says_what_it_holds(req);
    assert(req@.headers[0] == (req.headers@[0].0@, req.headers@[0].1@));
    assert(req@.headers[1] == (req.headers@[1].0@, req.headers@[1].1@));
    assert(req@.headers[2] == (req.headers@[2].0@, req.headers@[2].1@));
    assert(req@.headers[3] == (req.headers@[3].0@, req.headers@[3].1@));
}

/// The two pages of the bill are asked for with the month and the year of the
/// clock, the month first.
pub proof fn law_addresses_of_the_bill(t: SystemTimeRaw)
    requires
        t.year <= 9999,
        t.month <= 99,
    ensures
        billing_url(PLATFORM_AMOUNT_URL@, date_text(t))
            == "https://platform.deepseek.com/api/v0/usage/amount"@ + "?month="@ + decimal(
            t.month as nat,
        ) + "&year="@ + decimal(t.year as nat),
        billing_url(PLATFORM_COST_URL@, date_text(t))
            == "https://platform.deepseek.com/api/v0/usage/cost"@ + "?month="@ + decimal(
            t.month as nat,
        ) + "&year="@ + decimal(t.year as nat),
{
    law_bill_is_of_the_local_month(t);
}

/// Year and month of the bill are the numbers that a date has in its first four
/// characters and, behind one more, in the next two, and the address of a page has
/// them behind the page.
pub proof fn law_month_of_the_bill(
    page: Seq<char>,
    year: Seq<char>,
    between: char,
    month: Seq<char>,
    rest: Seq<char>,
)
    requires
        year.len() == 4,
        month.len() == 2,
    ensures
        billing_year(year.push(between) + month + rest) == number_or_zero(year),
        billing_month(year.push(between) + month + rest) == number_or_zero(month),
        billing_url(page, year.push(between) + month + rest) == page + "?month="@ + decimal(
            number_or_zero(month),
        ) + "&year="@ + decimal(number_or_zero(year)),
{
    let today = year.push(between) + month + rest;
    assert(today.subrange(0, 4) == year);
    assert(today.subrange(5, 7) == month);
}

// ---------------------------------------------------------------------------
// The bill
// ---------------------------------------------------------------------------

/// The bill of a month, as the notations of the amounts that make up each
/// figure, in the order in which they are added.
#[derive(Debug)]
pub struct OfficialAmounts {
    pub currency: String,
    /// The tokens of the month.
    pub month_tokens: Vec<String>,
    /// The cost of the month.
    pub month_cost: Vec<String>,
    /// The tokens of today, one list for each entry of the day.
    pub today_tokens: Vec<Vec<String>>,
    /// The cost of today, one list for each entry of the day.
    pub today_cost: Vec<Vec<String>>,
}

/// What a bill says.
#[verifier::ext_equal]
pub struct BillModel {
    pub currency: Seq<char>,
    pub month_tokens: Seq<Seq<char>>,
    pub month_cost: Seq<Seq<char>>,
    pub today_tokens: Seq<Seq<Seq<char>>>,
    pub today_cost: Seq<Seq<Seq<char>>>,
}

/// The contents of a list of lists of texts.
pub open spec fn text_lists(lists: Seq<Vec<String>>) -> Seq<Seq<Seq<char>>> {
    Seq::new(lists.len(), |i: int| texts(lists[i]@))
}

impl View for OfficialAmounts {
    type V = BillModel;

    open spec fn view(&self) -> BillModel {
        BillModel {
            currency: self.currency@,
            month_tokens: texts(self.month_tokens@),
            month_cost: texts(self.month_cost@),
            today_tokens: text_lists(self.today_tokens@),
            today_cost: text_lists(self.today_cost@),
        }
    }
}

/// The code of a document of the platform.
pub open spec fn code_of(payload: JsonModel) -> i64 {
    payload.field("code"@).int_or_zero()
}

/// The business code of a document of the platform.
pub open spec fn biz_code_of(payload: JsonModel) -> i64 {
    payload.field("data"@).field("biz_code"@).int_or_zero()
}

/// The codes for a login that the platform no longer accepts.
pub open spec fn is_login_code(code: i64) -> bool {
    code == 40002 || code == 40003
}

/// The message for a document that reports a failure; `None` for one that
/// reports none. `name` is what the document is about.
pub open spec fn payload_message(
    name: Seq<char>,
    payload: JsonModel,
) -> Option<Seq<char>> {
    let code = code_of(payload);
    let biz_code = biz_code_of(payload);
    if is_login_code(code) || is_login_code(biz_code) {
        Some(LOGIN_EXPIRED@)
    } else if code != 0 || biz_code != 0 {
        Some(
            name + "接口返回异常（code="@ + signed_decimal(code as int)
                + ", biz_code="@ + signed_decimal(biz_code as int) + ", "@
                + payload.field("msg"@).text_or(""@) + " "@ + payload.field("data"@).field(
                "biz_msg"@,
            ).text_or(""@) + "）"@,
        )
    } else {
        None
    }
}

/// The notation of an amount: a text without white space at the ends, or a
/// number. Anything else has the empty notation, which is no number.
pub open spec fn amount_of(v: JsonModel) -> Seq<char> {
    match v {
        JsonModel::Text(s) => trimmed(s),
        JsonModel::Number { text, .. } => text,
        _ => Seq::empty(),
    }
}

/// Whether an entry counts: all but the number of requests do.
pub open spec fn counts(entry: JsonModel) -> bool {
    entry.field("type"@).text_or(""@) != "REQUEST"@
}

/// The amounts of the entries that count.
pub open spec fn entry_amounts(entries: Seq<JsonModel>) -> Seq<Seq<char>>
    decreases entries.len(),
{
    if entries.len() == 0 {
        Seq::empty()
    } else if counts(entries.last()) {
        entry_amounts(entries.drop_last()).push(amount_of(entries.last().field("amount"@)))
    } else {
        entry_amounts(entries.drop_last())
    }
}

/// The amounts of the entries of all models.
pub open spec fn model_amounts(models: Seq<JsonModel>) -> Seq<Seq<char>>
    decreases models.len(),
{
    if models.len() == 0 {
        Seq::empty()
    } else {
        model_amounts(models.drop_last()) + entry_amounts(models.last().field("usage"@).items())
    }
}

/// Whether an entry of the list of days is of the day `today`.
pub open spec fn is_day(day: JsonModel, today: Seq<char>) -> bool {
    day.field("date"@) == JsonModel::Text(today)
}

/// The amounts of the entries of the day `today`.
pub open spec fn day_amounts(days: Seq<JsonModel>, today: Seq<char>) -> Seq<
    Seq<Seq<char>>,
>
    decreases days.len(),
{
    if days.len() == 0 {
        Seq::empty()
    } else if is_day(days.last(), today) {
        day_amounts(days.drop_last(), today).push(model_amounts(days.last().field("data"@).items()))
    } else {
        day_amounts(days.drop_last(), today)
    }
}

/// The bill in the two documents of the platform, or the message for the user.
pub open spec fn bill_of(
    amount: JsonModel,
    cost: JsonModel,
    today: Seq<char>,
) -> Result<BillModel, Seq<char>> {
    match (payload_message("用量"@, amount), payload_message("花费"@, cost)) {
        (Some(m), _) => Err(m),
        (None, Some(m)) => Err(m),
        (None, None) => {
            let amount_data = amount.field("data"@).field("biz_data"@);
            let cost_data = cost.field("data"@).field("biz_data"@).head();
            Ok(
                BillModel {
                    currency: cost_data.field("currency"@).text_or("CNY"@),
                    month_tokens: model_amounts(amount_data.field("total"@).items()),
                    month_cost: model_amounts(cost_data.field("total"@).items()),
                    today_tokens: day_amounts(amount_data.field("days"@).items(), today),
                    today_cost: day_amounts(cost_data.field("days"@).items(), today),
                },
            )
        },
    }
}

/// The code of a document of the platform.
pub fn code_value(v: &Json) -> (r: i64)
    ensures
        r == code_of(v@),
{
    int_or_zero(field(Some(v), "code"))
}

/// The business code of a document of the platform.
pub fn biz_code_value(v: &Json) -> (r: i64)
    ensures
        r == biz_code_of(v@),
{
    int_or_zero(field(field(Some(v), "data"), "biz_code"))
}

/// Whether a code says that the platform no longer accepts the login.
pub fn is_auth_code(code: i64) -> (r: bool)
    ensures
        r == is_login_code(code),
{
    code == 40002 || code == 40003
}

fn payload_error(name: &str, payload: &Json) -> (r: Option<String>)
    ensures
        match r {
            Some(m) => payload_message(name@, payload@) == Some(m@),
            None => payload_message(name@, payload@) is None,
        },
{
    let code: i64 = code_value(payload);
    let biz_code: i64 = biz_code_value(payload);
    if is_auth_code(code) || is_auth_code(biz_code) {
        return Some(LOGIN_EXPIRED.to_owned());
    }
    if code != 0 || biz_code != 0 {
        let msg: String = text_or(field(Some(payload), "msg"), "");
        let biz_msg: String = text_or(field(field(Some(payload), "data"), "biz_msg"), "");
        let mut out: String = name.to_owned();
        out.append("接口返回异常（code=");
        push_signed_decimal(&mut out, code);
        out.append(", biz_code=");
        push_signed_decimal(&mut out, biz_code);
        out.append(", ");
        out.append(msg.as_str());
        out.append(" ");
        out.append(biz_msg.as_str());
        out.append("）");
        return Some(out);
    }
    None
}

fn amount_text(place: Option<&Json>) -> (r: String)
    ensures
        r@ == amount_of(place_model(place)),
{
    match place {
        Some(Json::Text(s)) => trim(s.as_str()),
        Some(Json::Number { text, .. }) => text.clone(),
        _ => String::new(),
    }
}

fn push_entry_amounts(out: &mut Vec<String>, entries: Option<&Json>)
    ensures
        texts(final(out)@) == texts(old(out)@) + entry_amounts(
            place_model(entries).items(),
        ),
{
    let ghost start = texts(out@);
    let ghost all = place_model(entries).items();
    match items(entries) {
        Some(list) => {
            let mut i: usize = 0;
            assert(start + entry_amounts(all.take(0)) =~= start);
            while i < list.len()
                invariant
                    i <= list@.len(),
                    all == Seq::new(list@.len(), |i: int| list@[i]@),
                    texts(out@) == start + entry_amounts(all.take(i as int)),
                decreases list@.len() - i,
            {
                let entry: Option<&Json> = Some(&list[i]);
                let kind: String = text_or(field(entry, "type"), "");
                let ghost before = texts(out@);
                assert(all.take(i + 1).drop_last() == all.take(i as int));
                assert(all.take(i + 1).last() == list@[i as int]@);
                if !same_text(kind.as_str(), "REQUEST") {
                    let amount: String = amount_text(field(entry, "amount"));
                    out.push(amount);
                    assert(texts(out@) =~= before.push(amount@));
                    assert(start + entry_amounts(all.take(i + 1)) =~= (start + entry_amounts(
                        all.take(i as int),
                    )).push(amount@));
                }
                i += 1;
            }
            assert(all.take(i as int) == all);
        },
        None => {
            assert(start + entry_amounts(all) =~= start);
        },
    }
}

/// The amounts of all models in the list at a place, but for the number of
/// requests.
pub fn list_model_amounts(models: Option<&Json>) -> (r: Vec<String>)
    ensures
        texts(r@) == model_amounts(place_model(models).items()),
{
    let ghost all = place_model(models).items();
    let mut out: Vec<String> = Vec::new();
    assert(texts(out@) =~= Seq::<Seq<char>>::empty());
    match items(models) {
        Some(list) => {
            let mut i: usize = 0;
            while i < list.len()
                invariant
                    i <= list@.len(),
                    all == Seq::new(list@.len(), |i: int| list@[i]@),
                    texts(out@) == model_amounts(all.take(i as int)),
                decreases list@.len() - i,
            {
                assert(all.take(i + 1).drop_last() == all.take(i as int));
                assert(all.take(i + 1).last() == list@[i as int]@);
                push_entry_amounts(&mut out, field(Some(&list[i]), "usage"));
                i += 1;
            }
            assert(all.take(i as int) == all);
        },
        None => {},
    }
    out
}

/// The amounts of the entries of the day `today` in the list at a place.
pub fn list_day_amounts(days: Option<&Json>, today: &str) -> (r: Vec<Vec<String>>)
    ensures
        text_lists(r@) == day_amounts(place_model(days).items(), today@),
{
    let ghost all = place_model(days).items();
    let mut out: Vec<Vec<String>> = Vec::new();
    assert(text_lists(out@) =~= Seq::<Seq<Seq<char>>>::empty());
    match items(days) {
        Some(list) => {
            let mut i: usize = 0;
            while i < list.len()
                invariant
                    i <= list@.len(),
                    all == Seq::new(list@.len(), |i: int| list@[i]@),
                    text_lists(out@) == day_amounts(all.take(i as int), today@),
                decreases list@.len() - i,
            {
                let day: Option<&Json> = Some(&list[i]);
                let ghost before = text_lists(out@);
                assert(all.take(i + 1).drop_last() == all.take(i as int));
                assert(all.take(i + 1).last() == list@[i as int]@);
                let same: bool = match field(day, "date") {
                    Some(Json::Text(date)) => same_text(date.as_str(), today),
                    _ => false,
                };
                assert(same == is_day(list@[i as int]@, today@));
                if same {
                    let amounts: Vec<String> = list_model_amounts(field(day, "data"));
                    out.push(amounts);
                    assert(text_lists(out@) =~= before.push(texts(amounts@)));
                }
                i += 1;
            }
            assert(all.take(i as int) == all);
        },
        None => {},
    }
    out
}

/// Reads the bill from the two documents of the platform, or gives the message
/// for the user. `today` is the day of coordinated universal time.
pub fn parse_official_usage(amount: &Json, cost: &Json, today: &str) -> (r: Result<
    OfficialAmounts,
    String,
>)
    ensures
        match r {
            Ok(bill) => bill_of(amount@, cost@, today@) == Ok::<_, Seq<char>>(bill@),
            Err(m) => bill_of(amount@, cost@, today@) == Err::<BillModel, _>(m@),
        },
{
    match payload_error("用量", amount) {
        Some(m) => {
            return Err(m);
        },
        None => {},
    }
    match payload_error("花费", cost) {
        Some(m) => {
            return Err(m);
        },
        None => {},
    }
    let amount_data: Option<&Json> = field(field(Some(amount), "data"), "biz_data");
    let cost_data: Option<&Json> = head(field(field(Some(cost), "data"), "biz_data"));
    let bill: OfficialAmounts = OfficialAmounts {
        currency: text_or(field(cost_data, "currency"), "CNY"),
        month_tokens: list_model_amounts(field(amount_data, "total")),
        month_cost: list_model_amounts(field(cost_data, "total")),
        today_tokens: list_day_amounts(field(amount_data, "days"), today),
        today_cost: list_day_amounts(field(cost_data, "days"), today),
    };
    Ok(bill)
}

/// The bill, from the document of amounts that came first and the reply that
/// carries the document of costs, or the message for the user. The platform
/// splits its days by coordinated universal time, so today is the day of that
/// clock.
pub fn read_official_usage(amount: &Json, cost_reply: &HttpReply, clocks: &Clocks) -> (r: Result<
    OfficialAmounts,
    String,
>)
    ensures
        match reply_outcome(Service::Platform, *cost_reply) {
            Ok(cost) => match r {
                Ok(bill) => bill_of(amount@, cost, date_text(clocks.utc)) == Ok::<
                    _,
                    Seq<char>,
                >(bill@),
                Err(m) => bill_of(amount@, cost, date_text(clocks.utc)) == Err::<
                    BillModel,
                    _,
                >(m@),
            },
            Err(message) => r matches Err(m) && m@ == message,
        },
{
    match platform_get(cost_reply) {
        Ok(cost) => {
            let today: String = utc_today(clocks);
            parse_official_usage(amount, &cost, today.as_str())
        },
        Err(m) => Err(m),
    }
}

/// A bill comes exactly where both documents report no failure.
pub proof fn law_bill_needs_clean_documents(amount: JsonModel, cost: JsonModel, today: Seq<char>)
    ensures
        bill_of(amount, cost, today) is Ok <==> {
            &&& code_of(amount) == 0
            &&& biz_code_of(amount) == 0
            &&& code_of(cost) == 0
            &&& biz_code_of(cost) == 0
        },
{
}

/// A login code in either document is reported as an expired login, unless the
/// first document reports another failure before it.
pub proof fn law_expired_login_is_reported(amount: JsonModel, cost: JsonModel, today: Seq<char>)
    ensures
        is_login_code(code_of(amount)) || is_login_code(biz_code_of(amount)) ==> bill_of(
            amount,
            cost,
            today,
        ) == Err::<BillModel, _>(LOGIN_EXPIRED@),
        code_of(amount) == 0 && biz_code_of(amount) == 0 && (is_login_code(code_of(cost))
            || is_login_code(biz_code_of(cost))) ==> bill_of(amount, cost, today) == Err::<
            BillModel,
            _,
        >(LOGIN_EXPIRED@),
{
}

/// Entries of other days do not count: without an entry of today, today's lists
/// are empty.
pub proof fn law_other_days_do_not_count(days: Seq<JsonModel>, today: Seq<char>)
    requires
        forall|i: int| 0 <= i < days.len() ==> !is_day(#[trigger] days[i], today),
    ensures
        day_amounts(days, today) == Seq::<Seq<Seq<char>>>::empty(),
    decreases days.len(),
{
    if days.len() > 0 {
        law_other_days_do_not_count(days.drop_last(), today);
    }
}

/// The number of requests does not count: an entry of that kind, wherever it
/// stands, changes no amounts.
pub proof fn law_requests_do_not_count(
    before: Seq<JsonModel>,
    entry: JsonModel,
    after: Seq<JsonModel>,
)
    requires
        entry.field("type"@) == JsonModel::Text("REQUEST"@),
    ensures
        entry_amounts(before.push(entry) + after) == entry_amounts(before + after),
    decreases after.len(),
{
    if after.len() > 0 {
        law_requests_do_not_count(before, entry, after.drop_last());
        assert((before.push(entry) + after).drop_last() == before.push(entry) + after.drop_last());
        assert((before + after).drop_last() == before + after.drop_last());
    } else {
        assert(before.push(entry) + after == before.push(entry));
        assert(before + after == before);
        assert(before.push(entry).drop_last() == before);
    }
}

/// The figures of the month do not depend on the day.
pub proof fn law_month_does_not_depend_on_the_day(
    amount: JsonModel,
    cost: JsonModel,
    today: Seq<char>,
    other: Seq<char>,
)
    ensures
        bill_of(amount, cost, today) matches Ok(a) ==> bill_of(amount, cost, other) matches Ok(b)
            && a.month_tokens == b.month_tokens && a.month_cost == b.month_cost && a.currency
            == b.currency,
        bill_of(amount, cost, today) matches Err(m) ==> bill_of(amount, cost, other) == Err::<
            BillModel,
            _,
        >(m),
{
}

/// An entry counts unless its type is the text `REQUEST`; one without a type, or
/// with another kind of type, counts too.
pub proof fn law_which_entries_count(entry: JsonModel)
    ensures
        counts(entry) <==> entry.field("type"@) != JsonModel::Text("REQUEST"@),
{
    reveal_strlit("REQUEST");
    reveal_strlit("");
    assert("REQUEST"@.len() != ""@.len());
}

/// An amount is the text without white space around it, or the notation of the
/// number; anything else is the empty notation.
pub proof fn law_notation_of_an_amount(
    head: Seq<char>,
    middle: Seq<char>,
    tail: Seq<char>,
    value: Option<i64>,
    other: JsonModel,
)
    requires
        forall|i: int| 0 <= i < head.len() ==> is_white_space(#[trigger] head[i]),
        forall|i: int| 0 <= i < tail.len() ==> is_white_space(#[trigger] tail[i]),
        middle.len() > 0 ==> !is_white_space(middle.first()) && !is_white_space(middle.last()),
        other !is Text,
        other !is Number,
    ensures
        amount_of(JsonModel::Text(head + middle + tail)) == middle,
        amount_of(JsonModel::Number { value, text: middle }) == middle,
        amount_of(other) == Seq::<char>::empty(),
{
    law_trimmed_text(head, middle, tail);
}

/// An entry that counts contributes its amount once, at its position among the
/// others; one that does not contributes nothing.
pub proof fn law_each_entry_is_listed_once(
    before: Seq<JsonModel>,
    entry: JsonModel,
    after: Seq<JsonModel>,
)
    ensures
        entry_amounts(Seq::empty()) == Seq::<Seq<char>>::empty(),
        entry.field("type"@) != JsonModel::Text("REQUEST"@) ==> entry_amounts(
            before.push(entry) + after,
        ) == entry_amounts(before).push(amount_of(entry.field("amount"@))) + entry_amounts(after),
        entry.field("type"@) == JsonModel::Text("REQUEST"@) ==> entry_amounts(
            before.push(entry) + after,
        ) == entry_amounts(before) + entry_amounts(after),
{
    law_which_entries_count(entry);
    lemma_entries_add_up(before.push(entry), after);
    assert(before.push(entry).drop_last() == before);
}

proof fn lemma_entries_add_up(a: Seq<JsonModel>, b: Seq<JsonModel>)
    ensures
        entry_amounts(a + b) == entry_amounts(a) + entry_amounts(b),
    decreases b.len(),
{
    if b.len() > 0 {
        lemma_entries_add_up(a, b.drop_last());
        assert((a + b).drop_last() == a + b.drop_last());
        assert(entry_amounts(a + b) == entry_amounts(a) + entry_amounts(b));
    } else {
        assert(a + b == a);
        assert(entry_amounts(a) + entry_amounts(b) == entry_amounts(a));
    }
}

/// The amounts of two lists of models are those of the first and then those of
/// the second: no model of either is left out.
pub proof fn law_models_add_up(a: Seq<JsonModel>, b: Seq<JsonModel>)
    ensures
        model_amounts(a + b) == model_amounts(a) + model_amounts(b),
    decreases b.len(),
{
    if b.len() > 0 {
        law_models_add_up(a, b.drop_last());
        assert((a + b).drop_last() == a + b.drop_last());
        assert(model_amounts(a + b) == model_amounts(a) + model_amounts(b));
    } else {
        assert(a + b == a);
        assert(model_amounts(a) + model_amounts(b) == model_amounts(a));
    }
}

/// Each model, wherever it stands in the list, contributes the amounts of its
/// entries once; one without a list of entries contributes nothing.
pub proof fn law_each_model_is_listed_once(
    before: Seq<JsonModel>,
    model: JsonModel,
    after: Seq<JsonModel>,
    entries: Seq<JsonModel>,
)
    ensures
        model_amounts(Seq::empty()) == Seq::<Seq<char>>::empty(),
        model.field("usage"@) == JsonModel::Array(entries) ==> model_amounts(
            before.push(model) + after,
        ) == model_amounts(before) + entry_amounts(entries) + model_amounts(after),
        model.field("usage"@) !is Array ==> model_amounts(before.push(model) + after)
            == model_amounts(before) + model_amounts(after),
{
    law_models_add_up(before.push(model), after);
    assert(before.push(model).drop_last() == before);
    assert(entry_amounts(Seq::<JsonModel>::empty()) == Seq::<Seq<char>>::empty());
    assert(model_amounts(before) + Seq::<Seq<char>>::empty() == model_amounts(before));
}

proof fn lemma_days_add_up(a: Seq<JsonModel>, b: Seq<JsonModel>, today: Seq<char>)
    ensures
        day_amounts(a + b, today) == day_amounts(a, today) + day_amounts(b, today),
    decreases b.len(),
{
    if b.len() > 0 {
        lemma_days_add_up(a, b.drop_last(), today);
        assert((a + b).drop_last() == a + b.drop_last());
        assert(day_amounts(a + b, today) == day_amounts(a, today) + day_amounts(b, today));
    } else {
        assert(a + b == a);
        assert(day_amounts(a, today) + day_amounts(b, today) == day_amounts(a, today));
    }
}

/// Each entry of the day `today`, wherever it stands among the days, gives one
/// list, and that list has the amounts of all its models: those of `a` and then
/// those of `b` where its models are `a` and then `b`. An entry without a list of
/// models gives an empty list, and one of another day gives none.
pub proof fn law_day_lists_all_its_models(
    before: Seq<JsonModel>,
    day: JsonModel,
    after: Seq<JsonModel>,
    a: Seq<JsonModel>,
    b: Seq<JsonModel>,
    today: Seq<char>,
)
    ensures
        day_amounts(Seq::empty(), today) == Seq::<Seq<Seq<char>>>::empty(),
        day.field("date"@) == JsonModel::Text(today) && day.field("data"@) == JsonModel::Array(
            a + b,
        ) ==> day_amounts(before.push(day) + after, today) == day_amounts(before, today).push(
            model_amounts(a) + model_amounts(b),
        ) + day_amounts(after, today),
        day.field("date"@) == JsonModel::Text(today) && day.field("data"@) !is Array
            ==> day_amounts(before.push(day) + after, today) == day_amounts(before, today).push(
            Seq::<Seq<char>>::empty(),
        ) + day_amounts(after, today),
        day.field("date"@) != JsonModel::Text(today) ==> day_amounts(
            before.push(day) + after,
            today,
        ) == day_amounts(before, today) + day_amounts(after, today),
{
    lemma_days_add_up(before.push(day), after, today);
    assert(before.push(day).drop_last() == before);
    law_models_add_up(a, b);
    assert(model_amounts(Seq::<JsonModel>::empty()) == Seq::<Seq<char>>::empty());
}

/// A bill has the lists that its figures are made of, each under its name and in
/// order.
pub proof fn law_bill_says_what_it_holds(bill: OfficialAmounts)
    ensures
        bill@.currency == bill.currency@,
        bill@.month_tokens == texts(bill.month_tokens@),
        bill@.month_cost == texts(bill.month_cost@),
        bill@.today_tokens.len() == bill.today_tokens@.len(),
        forall|i: int|
            0 <= i < bill.today_tokens@.len() ==> #[trigger] bill@.today_tokens[i] == texts(
                bill.today_tokens@[i]@,
            ),
        bill@.today_cost.len() == bill.today_cost@.len(),
        forall|i: int|
            0 <= i < bill.today_cost@.len() ==> #[trigger] bill@.today_cost[i] == texts(
                bill.today_cost@[i]@,
            ),
{
}

/// The tokens of a bill come from the document of amounts: those of the month from
/// the models of its total, those of today from its days. Without these lists
/// there are none.
pub proof fn law_tokens_come_from_the_amounts(
    amount: JsonModel,
    cost: JsonModel,
    today: Seq<char>,
    bill: OfficialAmounts,
    models: Seq<JsonModel>,
    days: Seq<JsonModel>,
)
    requires
        bill_of(amount, cost, today) == Ok::<_, Seq<char>>(bill@),
    ensures
        ({
            let part = amount.field("data"@).field("biz_data"@);
            &&& part.field("total"@) == JsonModel::Array(models) ==> texts(bill.month_tokens@)
                == model_amounts(models)
            &&& part.field("total"@) !is Array ==> bill.month_tokens@.len() == 0
            &&& part.field("days"@) == JsonModel::Array(days) ==> text_lists(bill.today_tokens@)
                == day_amounts(days, today)
            &&& part.field("days"@) !is Array ==> bill.today_tokens@.len() == 0
        }),
{
    law_bill_says_what_it_holds(bill);
    assert(bill@.today_tokens == text_lists(bill.today_tokens@));
    assert(texts(bill.month_tokens@).len() == bill.month_tokens@.len());
}

/// The costs of a bill come from the first part of the document of costs, in the
/// same way, and so does the currency, which is CNY where no text says otherwise.
pub proof fn law_costs_come_from_the_first_part(
    amount: JsonModel,
    cost: JsonModel,
    today: Seq<char>,
    bill: OfficialAmounts,
    part: JsonModel,
    more: Seq<JsonModel>,
    models: Seq<JsonModel>,
    days: Seq<JsonModel>,
    currency: Seq<char>,
)
    requires
        bill_of(amount, cost, today) == Ok::<_, Seq<char>>(bill@),
        cost.field("data"@).field("biz_data"@) == JsonModel::Array(seq![part] + more),
    ensures
        part.field("total"@) == JsonModel::Array(models) ==> texts(bill.month_cost@)
            == model_amounts(models),
        part.field("total"@) !is Array ==> bill.month_cost@.len() == 0,
        part.field("days"@) == JsonModel::Array(days) ==> text_lists(bill.today_cost@)
            == day_amounts(days, today),
        part.field("days"@) !is Array ==> bill.today_cost@.len() == 0,
        part.field("currency"@) == JsonModel::Text(currency) ==> bill.currency@ == currency,
        part.field("currency"@) !is Text ==> bill.currency@ == "CNY"@,
{
    law_bill_says_what_it_holds(bill);
    assert((seq![part] + more)[0] == part);
    assert(bill@.today_cost == text_lists(bill.today_cost@));
    assert(texts(bill.month_cost@).len() == bill.month_cost@.len());
}

/// Without such a part there are no costs, and the currency is CNY.
pub proof fn law_no_costs_without_a_part(
    amount: JsonModel,
    cost: JsonModel,
    today: Seq<char>,
    bill: OfficialAmounts,
)
    requires
        bill_of(amount, cost, today) == Ok::<_, Seq<char>>(bill@),
        cost.field("data"@).field("biz_data"@) !is Array || cost.field("data"@).field("biz_data"@)
            == JsonModel::Array(Seq::empty()),
    ensures
        bill.month_cost@.len() == 0,
        bill.today_cost@.len() == 0,
        bill.currency@ == "CNY"@,
{
    law_bill_says_what_it_holds(bill);
    assert(bill@.today_cost == text_lists(bill.today_cost@));
    assert(texts(bill.month_cost@).len() == bill.month_cost@.len());
}

/// Every entry of today counts: whatever model it belongs to and wherever it
/// stands in that model, its amount is listed once among those of the day, unless
/// it is the number of requests. So it is for the tokens and for the cost.
pub proof fn law_every_entry_of_today_is_in_the_bill(
    amount: JsonModel,
    cost: JsonModel,
    today: Seq<char>,
    bill: OfficialAmounts,
    days_before: Seq<JsonModel>,
    day: JsonModel,
    days_after: Seq<JsonModel>,
    models_before: Seq<JsonModel>,
    model: JsonModel,
    models_after: Seq<JsonModel>,
    before: Seq<JsonModel>,
    entry: JsonModel,
    after: Seq<JsonModel>,
)
    requires
        bill_of(amount, cost, today) == Ok::<_, Seq<char>>(bill@),
        forall|i: int|
            0 <= i < days_before.len() ==> (#[trigger] days_before[i]).field("date"@)
                != JsonModel::Text(today),
        forall|i: int|
            0 <= i < days_after.len() ==> (#[trigger] days_after[i]).field("date"@)
                != JsonModel::Text(today),
        day.field("date"@) == JsonModel::Text(today),
        day.field("data"@) == JsonModel::Array(models_before.push(model) + models_after),
        model.field("usage"@) == JsonModel::Array(before.push(entry) + after),
        entry.field("type"@) != JsonModel::Text("REQUEST"@),
    ensures
        ({
            let days = JsonModel::Array(days_before.push(day) + days_after);
            let listed = (model_amounts(models_before) + entry_amounts(before)).push(
                amount_of(entry.field("amount"@)),
            ) + (entry_amounts(after) + model_amounts(models_after));
            &&& amount.field("data"@).field("biz_data"@).field("days"@) == days ==> text_lists(
                bill.today_tokens@,
            ) == seq![listed]
            &&& cost.field("data"@).field("biz_data"@).head().field("days"@) == days
                ==> text_lists(bill.today_cost@) == seq![listed]
        }),
{
    let days = days_before.push(day) + days_after;
    let models = models_before.push(model) + models_after;
    let entries = before.push(entry) + after;
    let listed = (model_amounts(models_before) + entry_amounts(before)).push(
        amount_of(entry.field("amount"@)),
    ) + (entry_amounts(after) + model_amounts(models_after));
    law_each_entry_is_listed_once(before, entry, after);
    law_each_model_is_listed_once(models_before, model, models_after, entries);
    assert(model_amounts(models) == listed);
    law_day_lists_all_its_models(days_before, day, days_after, models, Seq::empty(), today);
    assert(models + Seq::<JsonModel>::empty() == models);
    assert(model_amounts(Seq::<JsonModel>::empty()) == Seq::<Seq<char>>::empty());
    assert(listed + Seq::<Seq<char>>::empty() == listed);
    law_other_days_do_not_count(days_before, today);
    law_other_days_do_not_count(days_after, today);
    assert(day_amounts(days, today) == seq![listed]);
    law_bill_says_what_it_holds(bill);
    assert(bill@.today_tokens == text_lists(bill.today_tokens@));
    assert(bill@.today_cost == text_lists(bill.today_cost@));
}

/// The codes of the two documents decide: a bill comes exactly where all four are
/// 0; 40002 or 40003 in either says that the login has expired, unless the first
/// document reports another failure.
pub proof fn law_codes_decide(amount: JsonModel, cost: JsonModel, today: Seq<char>)
    ensures
        ({
            let a = amount.field("code"@).int_or_zero();
            let a_biz = amount.field("data"@).field("biz_code"@).int_or_zero();
            let c = cost.field("code"@).int_or_zero();
            let c_biz = cost.field("data"@).field("biz_code"@).int_or_zero();
            let expired = Err::<BillModel, _>("登录已过期，请重新复制 userToken"@);
            &&& bill_of(amount, cost, today) is Ok <==> a == 0 && a_biz == 0 && c == 0 && c_biz == 0
            &&& a == 40002 || a == 40003 || a_biz == 40002 || a_biz == 40003 ==> bill_of(
                amount,
                cost,
                today,
            ) == expired
            &&& a == 0 && a_biz == 0 && (c == 40002 || c == 40003 || c_biz == 40002 || c_biz
                == 40003) ==> bill_of(amount, cost, today) == expired
        }),
{
}

/// Any other failure names its document, its codes and what the platform says to
/// it; that of the first document comes first.
pub proof fn law_failure_names_its_document(amount: JsonModel, cost: JsonModel, today: Seq<char>)
    ensures
        ({
            let a = amount.field("code"@).int_or_zero();
            let a_biz = amount.field("data"@).field("biz_code"@).int_or_zero();
            let c = cost.field("code"@).int_or_zero();
            let c_biz = cost.field("data"@).field("biz_code"@).int_or_zero();
            &&& (a != 0 || a_biz != 0) && a != 40002 && a != 40003 && a_biz != 40002 && a_biz
                != 40003 ==> bill_of(amount, cost, today) == Err::<BillModel, _>(
                "用量"@ + "接口返回异常（code="@ + signed_decimal(a as int) + ", biz_code="@
                    + signed_decimal(a_biz as int) + ", "@ + amount.field("msg"@).text_or(""@)
                    + " "@ + amount.field("data"@).field("biz_msg"@).text_or(""@) + "）"@,
            )
            &&& a == 0 && a_biz == 0 && (c != 0 || c_biz != 0) && c != 40002 && c != 40003 && c_biz
                != 40002 && c_biz != 40003 ==> bill_of(amount, cost, today) == Err::<BillModel, _>(
                "花费"@ + "接口返回异常（code="@ + signed_decimal(c as int) + ", biz_code="@
                    + signed_decimal(c_biz as int) + ", "@ + cost.field("msg"@).text_or(""@)
                    + " "@ + cost.field("data"@).field("biz_msg"@).text_or(""@) + "）"@,
            )
        }),
{
}

/// The codes are read where the platform writes them, and two of them mean an
/// expired login.
pub proof fn law_where_codes_are_read(payload: JsonModel, data: JsonModel, code: i64)
    ensures
        code_of(payload) == payload.field("code"@).int_or_zero(),
        payload.field("data"@) == data ==> biz_code_of(payload) == data.field(
            "biz_code"@,
        ).int_or_zero(),
        is_login_code(code) <==> code == 40002 || code == 40003,
{
}

// ---------------------------------------------------------------------------
// The balance
// ---------------------------------------------------------------------------

/// The balance of the account.
#[derive(Clone, Debug)]
pub struct BalanceInfo {
    pub is_available: bool,
    pub currency: String,
    pub total_balance: String,
    pub granted_balance: String,
    pub topped_up_balance: String,
}

/// What a balance says.
#[verifier::ext_equal]
pub struct BalanceModel {
    pub is_available: bool,
    pub currency: Seq<char>,
    pub total_balance: Seq<char>,
    pub granted_balance: Seq<char>,
    pub topped_up_balance: Seq<char>,
}

impl View for BalanceInfo {
    type V = BalanceModel;

    open spec fn view(&self) -> BalanceModel {
        BalanceModel {
            is_available: self.is_available,
            currency: self.currency@,
            total_balance: self.total_balance@,
            granted_balance: self.granted_balance@,
            topped_up_balance: self.topped_up_balance@,
        }
    }
}

/// The balance in a document of the service: its first entry, with the currency
/// CNY and empty figures where the document says nothing.
pub open spec fn balance_of(doc: JsonModel) -> BalanceModel {
    let info = doc.field("balance_infos"@).head();
    BalanceModel {
        is_available: doc.field("is_available"@).is_true(),
        currency: info.field("currency"@).text_or("CNY"@),
        total_balance: info.field("total_balance"@).text_or(""@),
        granted_balance: info.field("granted_balance"@).text_or(""@),
        topped_up_balance: info.field("topped_up_balance"@).text_or(""@),
    }
}

/// Reads the balance from a document of the service.
pub fn parse_balance(doc: &Json) -> (r: BalanceInfo)
    ensures
        r@ == balance_of(doc@),
{
    let info: Option<&Json> = head(field(Some(doc), "balance_infos"));
    BalanceInfo {
        is_available: is_true(field(Some(doc), "is_available")),
        currency: text_or(field(info, "currency"), "CNY"),
        total_balance: text_or(field(info, "total_balance"), ""),
        granted_balance: text_or(field(info, "granted_balance"), ""),
        topped_up_balance: text_or(field(info, "topped_up_balance"), ""),
    }
}

/// The balance in a reply of the service, or the message for the user.
pub fn read_balance(reply: &HttpReply) -> (r: Result<BalanceInfo, String>)
    ensures
        match r {
            Ok(b) => reply_outcome(Service::Api, *reply) matches Ok(doc) && b@
                == balance_of(doc),
            Err(m) => reply_outcome(Service::Api, *reply) == Err::<
                JsonModel,
                _,
            >(m@),
        },
{
    match read_reply(Service::Api, reply) {
        Ok(doc) => Ok(parse_balance(&doc)),
        Err(m) => Err(m),
    }
}

/// The account counts as available exactly where the service says so: where the
/// member `is_available` is the value true, whatever the entries are. A document
/// that says false, or says nothing, gives false.
pub proof fn law_availability_is_what_the_service_says(doc: JsonModel, b: BalanceInfo)
    requires
        b@ == balance_of(doc),
    ensures
        b.is_available <==> doc.field("is_available"@) == JsonModel::Bool(true),
        doc.field("is_available"@) == JsonModel::Bool(false) ==> !b.is_available,
        doc.field("is_available"@) == JsonModel::Null ==> !b.is_available,
{
}

/// Two documents that say the same of availability give the same answer, whatever
/// else they hold.
pub proof fn law_availability_depends_on_nothing_else(
    doc: JsonModel,
    other: JsonModel,
    a: BalanceInfo,
    b: BalanceInfo,
)
    requires
        a@ == balance_of(doc),
        b@ == balance_of(other),
        doc.field("is_available"@) == other.field("is_available"@),
    ensures
        a.is_available == b.is_available,
{
}

/// The figures are those of the first entry, each under its own name; where the
/// entry has no text for one, it is empty, and the currency is CNY.
pub proof fn law_balance_shows_the_first_entry(
    doc: JsonModel,
    b: BalanceInfo,
    first: JsonModel,
    more: Seq<JsonModel>,
    s: Seq<char>,
)
    requires
        b@ == balance_of(doc),
        doc.field("balance_infos"@) == JsonModel::Array(seq![first] + more),
    ensures
        first.field("currency"@) == JsonModel::Text(s) ==> b.currency@ == s,
        first.field("total_balance"@) == JsonModel::Text(s) ==> b.total_balance@ == s,
        first.field("granted_balance"@) == JsonModel::Text(s) ==> b.granted_balance@ == s,
        first.field("topped_up_balance"@) == JsonModel::Text(s) ==> b.topped_up_balance@ == s,
        first.field("currency"@) !is Text ==> b.currency@ == "CNY"@,
        first.field("total_balance"@) !is Text ==> b.total_balance@ == ""@,
        first.field("granted_balance"@) !is Text ==> b.granted_balance@ == ""@,
        first.field("topped_up_balance"@) !is Text ==> b.topped_up_balance@ == ""@,
{
    assert((seq![first] + more)[0] == first);
}

/// Without an entry all figures are empty, and the currency is CNY.
pub proof fn law_balance_without_entries(doc: JsonModel, b: BalanceInfo)
    requires
        b@ == balance_of(doc),
        doc.field("balance_infos"@) !is Array || doc.field("balance_infos"@) == JsonModel::Array(
            Seq::empty(),
        ),
    ensures
        b.currency@ == "CNY"@,
        b.total_balance@ == ""@,
        b.granted_balance@ == ""@,
        b.topped_up_balance@ == ""@,
{
}

// ---------------------------------------------------------------------------
// With what was saved
// ---------------------------------------------------------------------------

/// The request for the balance with the saved key, or the message that there is
/// none.
pub fn api_balance_fetch(saved: &Option<String>) -> (r: Result<HttpRequest, String>)
    ensures
        match saved {
            Some(key) => r matches Ok(req) && req@ == balance_request(key@),
            None => r matches Err(m) && m@ == "尚未保存 API Key"@,
        },
{
    match saved {
        Some(key) => Ok(fetch_balance(key.as_str())),
        None => Err("尚未保存 API Key".to_owned()),
    }
}

/// The requests for the bill with the saved login, or the message that there is
/// none.
pub fn official_usage_fetch(saved: &Option<String>, clocks: &Clocks) -> (r: Result<
    UsagePlan,
    String,
>)
    ensures
        match saved {
            Some(token) => {
                let login = login_in(token@);
                let today = date_text(clocks.local);
                if login.len() == 0 {
                    r matches Err(m) && m@ == "userToken 为空"@
                } else {
                    r matches Ok(plan) && plan.amount@ == platform_request(
                        billing_url(PLATFORM_AMOUNT_URL@, today),
                        login,
                    ) && plan.cost@ == platform_request(
                        billing_url(PLATFORM_COST_URL@, today),
                        login,
                    )
                }
            },
            None => r matches Err(m) && m@ == "尚未填写官网 userToken"@,
        },
{
    match saved {
        Some(token) => fetch_official_usage(token.as_str(), clocks),
        None => Err("尚未填写官网 userToken".to_owned()),
    }
}

// ---------------------------------------------------------------------------
// What the operations do
// ---------------------------------------------------------------------------

/// `normalize_user_token` gives what was pasted without the white space and the
/// quotes around it, where that is no JSON document, and otherwise the text that
/// the document holds as its member `value` or is itself, without white space
/// around it.
pub proof fn law_normalize_user_token_finds_the_login(
    raw: &str,
    login: String,
    head: Seq<char>,
    opening: Seq<char>,
    rest: Seq<char>,
    closing: Seq<char>,
    tail: Seq<char>,
    doc: JsonModel,
    text: Seq<char>,
)
    requires
        call_ensures(normalize_user_token, (raw,), login),
        raw@ == head + (opening + rest + closing) + tail,
        forall|i: int| 0 <= i < head.len() ==> is_white_space(#[trigger] head[i]),
        forall|i: int| 0 <= i < tail.len() ==> is_white_space(#[trigger] tail[i]),
        forall|i: int| 0 <= i < opening.len() ==> #[trigger] opening[i] == '"',
        forall|i: int| 0 <= i < closing.len() ==> #[trigger] closing[i] == '"',
        rest.len() > 0,
        !is_white_space(rest.first()) && rest.first() != '"' && rest.first() != '\'',
        !is_white_space(rest.last()) && rest.last() != '"' && rest.last() != '\'',
    ensures
        parsed_text(rest) is Err ==> login@ == rest,
        parsed_text(rest) == Ok::<_, Seq<char>>(doc) && doc.field("value"@) == JsonModel::Text(text)
            ==> login@ == trimmed(text),
        parsed_text(rest) == Ok::<_, Seq<char>>(doc) && doc == JsonModel::Text(text) ==> login@
            == trimmed(text),
        parsed_text(rest) == Ok::<_, Seq<char>>(doc) && doc.field("value"@) !is Text && doc !is Text
            ==> login@ == rest,
{
    let none = Seq::<char>::empty();
    assert(none + rest + none == rest);
    let outer = opening + rest + closing;
    assert(outer.first() == if opening.len() > 0 {
        opening[0]
    } else {
        rest.first()
    });
    assert(outer.last() == if closing.len() > 0 {
        closing[closing.len() - 1]
    } else {
        rest.last()
    });
    law_pasted_text_loses_its_quotes(head, opening, none, rest, none, closing, tail);
}

/// `fetch_balance` asks the API with the key.
pub proof fn law_fetch_balance_asks_the_api(api_key: &str, req: HttpRequest)
    requires
        call_ensures(fetch_balance, (api_key,), req),
    ensures
        req.url@ == "https://api.deepseek.com/user/balance"@,
        req.timeout_s == 12,
        req.headers@.len() == 2,
        req.headers@[0].0@ == "Authorization"@,
        req.headers@[0].1@ == "Bearer "@ + api_key@,
        req.headers@[1].0@ == "Accept"@,
        req.headers@[1].1@ == "application/json"@,
{
    law_what_a_balance_request_says(req, api_key@);
}

/// `api_balance_fetch` asks as `fetch_balance` does with the saved key, and says
/// so where none is saved.
pub proof fn law_api_balance_fetch_uses_the_saved_key(
    key: String,
    with_key: &Option<String>,
    without: &Option<String>,
    asked: Result<HttpRequest, String>,
    refused: Result<HttpRequest, String>,
    api_key: &str,
    req: HttpRequest,
)
    requires
        *with_key == Some(key),
        api_key@ == key@,
        *without is None,
        call_ensures(api_balance_fetch, (with_key,), asked),
        call_ensures(api_balance_fetch, (without,), refused),
        call_ensures(fetch_balance, (api_key,), req),
    ensures
        asked matches Ok(r) && r@ == req@,
        refused matches Err(m) && m@ == "尚未保存 API Key"@,
{
}

/// `usage_plan` asks the platform for both pages of the bill of the local month
/// with the login, and refuses an empty login; the universal clock does not
/// matter.
pub proof fn law_usage_plan_asks_for_the_local_month(
    token: &str,
    clocks: &Clocks,
    r: Result<UsagePlan, String>,
)
    requires
        call_ensures(usage_plan, (token, clocks), r),
        clocks.local.year <= 9999,
        clocks.local.month <= 99,
    ensures
        token@.len() == 0 ==> r is Err && r->Err_0@ == "userToken 为空"@,
        token@.len() > 0 ==> ({
            let month = "?month="@ + decimal(clocks.local.month as nat) + "&year="@ + decimal(
                clocks.local.year as nat,
            );
            &&& r matches Ok(plan)
            &&& plan.amount.url@ == "https://platform.deepseek.com/api/v0/usage/amount"@ + month
            &&& plan.cost.url@ == "https://platform.deepseek.com/api/v0/usage/cost"@ + month
            &&& plan.amount.timeout_s == 15
            &&& plan.cost.timeout_s == 15
            &&& plan.amount.headers@.len() == 4
            &&& plan.cost.headers@.len() == 4
            &&& plan.amount.headers@[0].0@ == "Authorization"@
            &&& plan.amount.headers@[0].1@ == "Bearer "@ + token@
            &&& plan.cost.headers@[0].0@ == "Authorization"@
            &&& plan.cost.headers@[0].1@ == "Bearer "@ + token@
        }),
{
    if r is Ok {
        let plan = r->Ok_0;
        let month = "?month="@ + decimal(clocks.local.month as nat) + "&year="@ + decimal(
            clocks.local.year as nat,
        );
        law_addresses_of_the_bill(clocks.local);
        law_what_a_platform_request_says(
            plan.amount,
            billing_url(PLATFORM_AMOUNT_URL@, date_text(clocks.local)),
            token@,
        );
        law_what_a_platform_request_says(
            plan.cost,
            billing_url(PLATFORM_COST_URL@, date_text(clocks.local)),
            token@,
        );
        assert(plan.amount.url@ == "https://platform.deepseek.com/api/v0/usage/amount"@ + month);
        assert(plan.cost.url@ == "https://platform.deepseek.com/api/v0/usage/cost"@ + month);
    }
}

/// `fetch_official_usage` asks as `usage_plan` does with the login in what was
/// pasted, and `official_usage_fetch` as `fetch_official_usage` does with what was
/// saved; where nothing was, it says so.
pub proof fn law_usage_is_fetched_with_the_login(
    pasted: &str,
    clocks: &Clocks,
    login: String,
    token: &str,
    plan: Result<UsagePlan, String>,
    fetched: Result<UsagePlan, String>,
    saved: &Option<String>,
    with_saved: Result<UsagePlan, String>,
    without: &Option<String>,
    refused: Result<UsagePlan, String>,
)
    requires
        call_ensures(normalize_user_token, (pasted,), login),
        token@ == login@,
        call_ensures(usage_plan, (token, clocks), plan),
        call_ensures(fetch_official_usage, (pasted, clocks), fetched),
        *saved is Some,
        saved->0@ == pasted@,
        call_ensures(official_usage_fetch, (saved, clocks), with_saved),
        *without is None,
        call_ensures(official_usage_fetch, (without, clocks), refused),
    ensures
        plan is Ok ==> {
            &&& fetched is Ok
            &&& with_saved is Ok
            &&& fetched->Ok_0.amount@ == plan->Ok_0.amount@
            &&& fetched->Ok_0.cost@ == plan->Ok_0.cost@
            &&& with_saved->Ok_0.amount@ == plan->Ok_0.amount@
            &&& with_saved->Ok_0.cost@ == plan->Ok_0.cost@
        },
        plan is Err ==> {
            &&& fetched is Err
            &&& with_saved is Err
            &&& fetched->Err_0@ == plan->Err_0@
            &&& with_saved->Err_0@ == plan->Err_0@
        },
        refused matches Err(m) && m@ == "尚未填写官网 userToken"@,
{
}

/// `list_model_amounts` lists the amounts of all models: what it lists of `a` and
/// then `b` is what it lists of `a` and then what it lists of `b`. Of one model
/// with one entry it lists the amount of that entry, unless the entry is the
/// number of requests.
pub proof fn law_list_model_amounts_leaves_no_model_out(
    a: Option<&Json>,
    b: Option<&Json>,
    both: Option<&Json>,
    one: Option<&Json>,
    of_a: Vec<String>,
    of_b: Vec<String>,
    of_both: Vec<String>,
    of_one: Vec<String>,
    model: JsonModel,
    entry: JsonModel,
)
    requires
        place_model(both) == JsonModel::Array(place_model(a).items() + place_model(b).items()),
        place_model(one) == JsonModel::Array(seq![model]),
        model.field("usage"@) == JsonModel::Array(seq![entry]),
        call_ensures(list_model_amounts, (a,), of_a),
        call_ensures(list_model_amounts, (b,), of_b),
        call_ensures(list_model_amounts, (both,), of_both),
        call_ensures(list_model_amounts, (one,), of_one),
    ensures
        texts(of_both@) == texts(of_a@) + texts(of_b@),
        entry.field("type"@) != JsonModel::Text("REQUEST"@) ==> texts(of_one@) == seq![
            amount_of(entry.field("amount"@)),
        ],
        entry.field("type"@) == JsonModel::Text("REQUEST"@) ==> of_one@.len() == 0,
{
    law_models_add_up(place_model(a).items(), place_model(b).items());
    let none = Seq::<JsonModel>::empty();
    law_each_model_is_listed_once(none, model, none, seq![entry]);
    assert(none.push(model) + none == seq![model]);
    law_each_entry_is_listed_once(none, entry, none);
    assert(none.push(entry) + none == seq![entry]);
    let listed = entry_amounts(seq![entry]);
    assert(Seq::<Seq<char>>::empty() + listed + Seq::<Seq<char>>::empty() == listed);
    assert(texts(of_one@).len() == of_one@.len());
    if entry.field("type"@) != JsonModel::Text("REQUEST"@) {
        assert(listed == seq![amount_of(entry.field("amount"@))]);
    } else {
        assert(listed == Seq::<Seq<char>>::empty());
    }
}

/// `list_day_amounts` lists of a day what `list_model_amounts` lists of its
/// models: of a day with the models of `a` and then those of `b`, all that is
/// listed of `a` and then all that is listed of `b`, and of another day nothing.
pub proof fn law_list_day_amounts_counts_every_model(
    days: Option<&Json>,
    today: &str,
    lists: Vec<Vec<String>>,
    day: JsonModel,
    a: Option<&Json>,
    of_a: Vec<String>,
    b: Option<&Json>,
    of_b: Vec<String>,
)
    requires
        place_model(days) == JsonModel::Array(seq![day]),
        day.field("data"@) == JsonModel::Array(place_model(a).items() + place_model(b).items()),
        call_ensures(list_day_amounts, (days, today), lists),
        call_ensures(list_model_amounts, (a,), of_a),
        call_ensures(list_model_amounts, (b,), of_b),
    ensures
        day.field("date"@) == JsonModel::Text(today@) ==> {
            &&& lists@.len() == 1
            &&& texts(lists@[0]@) == texts(of_a@) + texts(of_b@)
        },
        day.field("date"@) != JsonModel::Text(today@) ==> lists@.len() == 0,
{
    let none = Seq::<JsonModel>::empty();
    law_day_lists_all_its_models(
        none,
        day,
        none,
        place_model(a).items(),
        place_model(b).items(),
        today@,
    );
    assert(none.push(day) + none == seq![day]);
    let listed = day_amounts(seq![day], today@);
    assert(text_lists(lists@).len() == lists@.len());
    if day.field("date"@) == JsonModel::Text(today@) {
        assert(listed == seq![texts(of_a@) + texts(of_b@)]);
        assert(text_lists(lists@)[0] == texts(lists@[0]@));
    } else {
        assert(listed == Seq::<Seq<Seq<char>>>::empty());
    }
}

/// `parse_official_usage` lists what the two documents have: the tokens of the
/// month from the total of the first, those of today from its days, and the costs
/// in the same way from the first part of the second, as `list_model_amounts` and
/// `list_day_amounts` list them.
pub proof fn law_parse_official_usage_lists_both_documents(
    amount: &Json,
    cost: &Json,
    today: &str,
    bill: OfficialAmounts,
    place: Option<&Json>,
    models: Vec<String>,
    days: Vec<Vec<String>>,
)
    requires
        call_ensures(parse_official_usage, (amount, cost, today), Ok(bill)),
        call_ensures(list_model_amounts, (place,), models),
        call_ensures(list_day_amounts, (place, today), days),
    ensures
        ({
            let tokens = amount@.field("data"@).field("biz_data"@);
            let costs = cost@.field("data"@).field("biz_data"@).head();
            &&& place_model(place) == tokens.field("total"@) ==> texts(bill.month_tokens@)
                == texts(models@)
            &&& place_model(place) == costs.field("total"@) ==> texts(bill.month_cost@) == texts(
                models@,
            )
            &&& place_model(place) == tokens.field("days"@) ==> text_lists(bill.today_tokens@)
                == text_lists(days@)
            &&& place_model(place) == costs.field("days"@) ==> text_lists(bill.today_cost@)
                == text_lists(days@)
            &&& bill.currency@ == costs.field("currency"@).text_or("CNY"@)
        }),
{
    law_bill_says_what_it_holds(bill);
    assert(bill@.today_tokens == text_lists(bill.today_tokens@));
    assert(bill@.today_cost == text_lists(bill.today_cost@));
}

/// `parse_official_usage` gives a bill exactly where the codes of both documents
/// are 0, and says that the login has expired where one of the first document is
/// 40002 or 40003, or where one of the second is and the first has none but 0.
pub proof fn law_parse_official_usage_needs_clean_documents(
    amount: &Json,
    cost: &Json,
    today: &str,
    r: Result<OfficialAmounts, String>,
)
    requires
        call_ensures(parse_official_usage, (amount, cost, today), r),
    ensures
        ({
            let a = amount@.field("code"@).int_or_zero();
            let a_biz = amount@.field("data"@).field("biz_code"@).int_or_zero();
            let c = cost@.field("code"@).int_or_zero();
            let c_biz = cost@.field("data"@).field("biz_code"@).int_or_zero();
            let a_expired = a == 40002 || a == 40003 || a_biz == 40002 || a_biz == 40003;
            let c_expired = c == 40002 || c == 40003 || c_biz == 40002 || c_biz == 40003;
            &&& r is Ok <==> a == 0 && a_biz == 0 && c == 0 && c_biz == 0
            &&& a_expired || (a == 0 && a_biz == 0 && c_expired) ==> r is Err && r->Err_0@
                == "登录已过期，请重新复制 userToken"@
        }),
{
    law_codes_decide(amount@, cost@, today@);
}

/// `read_official_usage` takes the day of the universal clock as today: what it
/// gives is what `parse_official_usage` gives for the document in the reply and
/// that day, and the local clock does not matter.
pub proof fn law_read_official_usage_takes_the_universal_day(
    amount: &Json,
    reply: &HttpReply,
    clocks: &Clocks,
    r: Result<OfficialAmounts, String>,
    cost: &Json,
    today: &str,
    parsed: Result<OfficialAmounts, String>,
)
    requires
        call_ensures(read_official_usage, (amount, reply, clocks), r),
        *reply is Body,
        parsed_bytes(reply->Body_0@) == Ok::<_, Seq<char>>(cost@),
        today@ == date_text(clocks.utc),
        call_ensures(parse_official_usage, (amount, cost, today), parsed),
    ensures
        r is Ok <==> parsed is Ok,
        r is Ok ==> r->Ok_0@ == parsed->Ok_0@,
        r is Err ==> r->Err_0@ == parsed->Err_0@,
{
}

/// `parse_balance` reports the account as available exactly where the document
/// says true, and gives each figure of the first entry under its own name.
pub proof fn law_parse_balance_gives_what_the_document_says(
    doc: &Json,
    b: BalanceInfo,
    first: JsonModel,
)
    requires
        call_ensures(parse_balance, (doc,), b),
        first == doc@.field("balance_infos"@).head(),
    ensures
        b.is_available <==> doc@.field("is_available"@) == JsonModel::Bool(true),
        b.currency@ == first.field("currency"@).text_or("CNY"@),
        b.total_balance@ == first.field("total_balance"@).text_or(""@),
        b.granted_balance@ == first.field("granted_balance"@).text_or(""@),
        b.topped_up_balance@ == first.field("topped_up_balance"@).text_or(""@),
{
}

/// `read_balance` gives what `parse_balance` gives for the document in the reply,
/// and a message exactly where there is no such document; a key that is not
/// accepted has its own.
pub proof fn law_read_balance_reads_the_document(
    reply: &HttpReply,
    r: Result<BalanceInfo, String>,
    doc: &Json,
    b: BalanceInfo,
)
    requires
        call_ensures(read_balance, (reply,), r),
        call_ensures(parse_balance, (doc,), b),
    ensures
        r is Ok <==> *reply is Body && parsed_bytes(reply->Body_0@) is Ok,
        *reply is Body && parsed_bytes(reply->Body_0@) == Ok::<_, Seq<char>>(doc@) ==> {
            &&& r is Ok
            &&& r->Ok_0.is_available == b.is_available
            &&& r->Ok_0.currency@ == b.currency@
            &&& r->Ok_0.total_balance@ == b.total_balance@
            &&& r->Ok_0.granted_balance@ == b.granted_balance@
            &&& r->Ok_0.topped_up_balance@ == b.topped_up_balance@
        },
        *reply is Status && reply->code == 401 ==> r is Err && r->Err_0@
            == "API Key 无效（401）"@,
{
}

/// `code_value`, `biz_code_value` and `is_auth_code` read the codes where the
/// platform writes them, and know the two that say the login has expired.
pub proof fn law_codes_are_read_where_they_are_written(
    v: &Json,
    code: i64,
    biz_code: i64,
    auth: bool,
)
    requires
        call_ensures(code_value, (v,), code),
        call_ensures(biz_code_value, (v,), biz_code),
        call_ensures(is_auth_code, (code,), auth),
    ensures
        code == v@.field("code"@).int_or_zero(),
        biz_code == v@.field("data"@).field("biz_code"@).int_or_zero(),
        auth <==> code == 40002 || code == 40003,
{
}

/// `login_from` takes the login from the member `value`, else from a document that
/// is a text, and else gives what was pasted.
pub proof fn law_login_from_a_document(
    pasted: &str,
    parsed: &Result<Json, String>,
    login: String,
    s: Seq<char>,
)
    requires
        call_ensures(login_from, (pasted, parsed), login),
    ensures
        *parsed is Err ==> login@ == pasted@,
        *parsed is Ok && parsed->Ok_0@.field("value"@) == JsonModel::Text(s) ==> login@
            == trimmed(s),
        *parsed is Ok && parsed->Ok_0@ == JsonModel::Text(s) ==> login@ == trimmed(s),
        *parsed is Ok && parsed->Ok_0@.field("value"@) !is Text && parsed->Ok_0@ !is Text ==> login@
            == pasted@,
{
}

} // verus!
