use deepseek_status_widget::deepseek::{
    api_balance_fetch, biz_code_value, code_value, fetch_balance, fetch_official_usage,
    is_auth_code, login_from, normalize_user_token, official_usage_fetch, parse_balance,
    parse_official_usage, read_balance, read_official_usage, usage_plan,
};
use deepseek_status_widget::http::{
    document_of, is_rejection, platform_get, status_error, HttpReply, Service,
};
use deepseek_status_widget::json::{json_from_bytes, json_from_str, Json};
use deepseek_status_widget::usage::{Clocks, SystemTimeRaw};

const AMOUNT: &str = r#"{
  "code": 0,
  "data": {
    "biz_code": 0,
    "biz_data": {
      "total": [{
        "model": "deepseek-chat",
        "usage": [
          {"type": "PROMPT_CACHE_HIT_TOKEN", "amount": "100686720"},
          {"type": "PROMPT_CACHE_MISS_TOKEN", "amount": "1305432"},
          {"type": "RESPONSE_TOKEN", "amount": "656338"},
          {"type": "REQUEST", "amount": "1212"}
        ]
      }],
      "days": [{
        "date": "2026-05-26",
        "data": [{
          "model": "deepseek-chat",
          "usage": [
            {"type": "PROMPT_CACHE_HIT_TOKEN", "amount": "100686720"},
            {"type": "PROMPT_CACHE_MISS_TOKEN", "amount": "1305432"},
            {"type": "RESPONSE_TOKEN", "amount": "656338"},
            {"type": "REQUEST", "amount": "1212"}
          ]
        }]
      }]
    }
  }
}"#;

const COST: &str = r#"{
  "code": 0,
  "data": {
    "biz_code": 0,
    "biz_data": [{
      "total": [{
        "model": "deepseek-chat",
        "usage": [
          {"type": "PROMPT_CACHE_HIT_TOKEN", "amount": "2.0137344000000000"},
          {"type": "PROMPT_CACHE_MISS_TOKEN", "amount": "1.3054320000000000"},
          {"type": "RESPONSE_TOKEN", "amount": "1.3126760000000000"},
          {"type": "REQUEST", "amount": "0"}
        ]
      }],
      "days": [{
        "date": "2026-05-26",
        "data": [{
          "model": "deepseek-chat",
          "usage": [
            {"type": "PROMPT_CACHE_HIT_TOKEN", "amount": "2.0137344000000000"},
            {"type": "PROMPT_CACHE_MISS_TOKEN", "amount": "1.3054320000000000"},
            {"type": "RESPONSE_TOKEN", "amount": "1.3126760000000000"},
            {"type": "REQUEST", "amount": "0"}
          ]
        }]
      }],
      "currency": "CNY"
    }]
  }
}"#;

fn total(amounts: &[String]) -> f64 {
    let mut sum = 0.0;
    for text in amounts {
        sum += text.parse::<f64>().unwrap_or(0.0);
    }
    sum
}

fn day_total(days: &[Vec<String>]) -> f64 {
    let mut sum = 0.0;
    for amounts in days {
        sum += total(amounts);
    }
    sum
}

fn set_code(doc: Json, code: i64) -> Json {
    match doc {
        Json::Object(members) => Json::Object(
            members
                .into_iter()
                .map(|(key, value)| {
                    if key == "code" {
                        (key, Json::Number { value: Some(code), text: code.to_string() })
                    } else {
                        (key, value)
                    }
                })
                .collect(),
        ),
        other => other,
    }
}

fn time(year: u16, month: u16, day: u16) -> SystemTimeRaw {
    SystemTimeRaw {
        year,
        month,
        day_of_week: 0,
        day,
        hour: 0,
        minute: 0,
        second: 0,
        millis: 0,
    }
}

fn clocks() -> Clocks {
    Clocks { local: time(2026, 5, 27), utc: time(2026, 5, 26) }
}

#[test]
fn parses_month_and_today_usage() {
    let amount = json_from_str(AMOUNT).unwrap();
    let cost = json_from_str(COST).unwrap();
    let out = parse_official_usage(&amount, &cost, "2026-05-26").unwrap();
    assert_eq!(total(&out.month_tokens).round() as u64, 102_648_490);
    assert_eq!(day_total(&out.today_tokens).round() as u64, 102_648_490);
    assert!((total(&out.month_cost) - 4.6318424).abs() < 1e-9);
    assert!((day_total(&out.today_cost) - 4.6318424).abs() < 1e-9);
    assert_eq!(out.currency, "CNY");
}

#[test]
fn wrong_today_bucket_is_zero() {
    let amount = json_from_str(AMOUNT).unwrap();
    let cost = json_from_str(COST).unwrap();
    let out = parse_official_usage(&amount, &cost, "2026-05-27").unwrap();
    assert_eq!(day_total(&out.today_tokens).round() as u64, 0);
    assert_eq!(day_total(&out.today_cost), 0.0);
    assert!(out.today_tokens.is_empty());
    assert!(out.today_cost.is_empty());
    let other = parse_official_usage(&amount, &cost, "2026-05-26").unwrap();
    assert_eq!(out.month_tokens, other.month_tokens);
    assert_eq!(out.month_cost, other.month_cost);
}

#[test]
fn expired_token_error() {
    let amount = set_code(json_from_str(AMOUNT).unwrap(), 40002);
    let cost = json_from_str(COST).unwrap();
    let err = parse_official_usage(&amount, &cost, "2026-05-26").unwrap_err();
    assert!(err.contains("已过期"));
}

#[test]
fn unwraps_wrapped_token() {
    assert_eq!(
        normalize_user_token(r#"{"value":"sess-test-token-1234567890abcdef","__version":"0"}"#),
        "sess-test-token-1234567890abcdef"
    );
    assert_eq!(normalize_user_token("abc-123"), "abc-123");
}

#[test]
fn today_is_the_day_of_universal_time() {
    let amount = json_from_str(AMOUNT).unwrap();
    let cost = HttpReply::Body(COST.as_bytes().to_vec());
    let out = read_official_usage(&amount, &cost, &clocks()).unwrap();
    assert_eq!(out.today_tokens.len(), 1);
    assert_eq!(out.today_cost[0][0], "2.0137344000000000");
    let swapped = Clocks { local: time(2026, 5, 26), utc: time(2026, 5, 27) };
    assert!(read_official_usage(&amount, &cost, &swapped).unwrap().today_tokens.is_empty());
    assert_eq!(
        read_official_usage(&amount, &HttpReply::Transport("x".to_string()), &clocks())
            .unwrap_err(),
        "网络错误: x"
    );
}

#[test]
fn amounts_are_listed_in_order_without_requests() {
    let amount = json_from_str(AMOUNT).unwrap();
    let cost = json_from_str(COST).unwrap();
    let out = parse_official_usage(&amount, &cost, "2026-05-26").unwrap();
    assert_eq!(out.month_tokens, vec!["100686720", "1305432", "656338"]);
    assert_eq!(out.today_tokens.len(), 1);
    assert_eq!(out.today_tokens[0], vec!["100686720", "1305432", "656338"]);
}

#[test]
fn amounts_may_be_numbers_or_missing() {
    let amount = json_from_str(
        r#"{"data":{"biz_data":{"total":[
            {"usage":[{"amount":7},{"type":1,"amount":" 2.5 "},{"type":"X"},{"amount":true}]},
            {"usage":3},
            {"usage":[{"type":"REQUEST","amount":9},{"type":"Y","amount":-1.5}]}
        ],"days":[
            {"date":"d","data":[{"usage":[{"amount":1}]}]},
            {"date":"e","data":[{"usage":[{"amount":2}]}]},
            {"date":"d","data":[{"usage":[{"amount":3}]}]},
            {"date":5}
        ]}}}"#,
    )
    .unwrap();
    let cost = json_from_str("{}").unwrap();
    let out = parse_official_usage(&amount, &cost, "d").unwrap();
    assert_eq!(out.month_tokens, vec!["7", "2.5", "", "", "-1.5"]);
    assert_eq!(out.today_tokens, vec![vec!["1"], vec!["3"]]);
    assert!(out.month_cost.is_empty());
    assert_eq!(out.currency, "CNY");
}

#[test]
fn currency_is_taken_from_the_first_entry() {
    let amount = json_from_str("{}").unwrap();
    let cost = json_from_str(
        r#"{"data":{"biz_data":[{"currency":"USD"},{"currency":"EUR"}]}}"#,
    )
    .unwrap();
    assert_eq!(parse_official_usage(&amount, &cost, "x").unwrap().currency, "USD");
}

#[test]
fn other_failures_are_spelled_out() {
    let clean = json_from_str("{}").unwrap();
    let bad = json_from_str(
        r#"{"code":-7,"msg":"oops","data":{"biz_code":12,"biz_msg":"later"}}"#,
    )
    .unwrap();
    assert_eq!(code_value(&bad), -7);
    assert_eq!(biz_code_value(&bad), 12);
    assert_eq!(
        parse_official_usage(&bad, &clean, "x").unwrap_err(),
        "用量接口返回异常（code=-7, biz_code=12, oops later）"
    );
    assert_eq!(
        parse_official_usage(&clean, &bad, "x").unwrap_err(),
        "花费接口返回异常（code=-7, biz_code=12, oops later）"
    );
    let silent = json_from_str(r#"{"code":9223372036854775807}"#).unwrap();
    assert_eq!(
        parse_official_usage(&silent, &clean, "x").unwrap_err(),
        "用量接口返回异常（code=9223372036854775807, biz_code=0,  ）"
    );
}

#[test]
fn codes_that_are_no_integers_count_as_none() {
    let odd = json_from_str(
        r#"{"code":40002.0,"data":{"biz_code":"40003"}}"#,
    )
    .unwrap();
    assert_eq!(code_value(&odd), 0);
    assert_eq!(biz_code_value(&odd), 0);
    assert!(parse_official_usage(&odd, &odd, "x").is_ok());
}

#[test]
fn login_codes_win_in_both_documents() {
    let clean = json_from_str("{}").unwrap();
    let late = json_from_str(r#"{"data":{"biz_code":40003}}"#).unwrap();
    let bad = json_from_str(r#"{"code":1}"#).unwrap();
    assert!(is_auth_code(40002) && is_auth_code(40003));
    assert!(!is_auth_code(40001) && !is_auth_code(0));
    assert_eq!(
        parse_official_usage(&clean, &late, "x").unwrap_err(),
        "登录已过期，请重新复制 userToken"
    );
    assert_eq!(
        parse_official_usage(&late, &bad, "x").unwrap_err(),
        "登录已过期，请重新复制 userToken"
    );
    assert!(parse_official_usage(&bad, &late, "x").unwrap_err().contains("code=1"));
}

#[test]
fn logins_are_unwrapped_and_trimmed() {
    assert_eq!(normalize_user_token("  \"abc\"  "), "abc");
    assert_eq!(normalize_user_token("'abc'"), "abc");
    assert_eq!(normalize_user_token("\"'abc'\""), "abc");
    assert_eq!(normalize_user_token("'\"abc\"'"), "abc");
    assert_eq!(normalize_user_token("\u{3000}abc\u{a0}"), "abc");
    assert_eq!(normalize_user_token(r#"{"value":"  t  "}"#), "t");
    assert_eq!(normalize_user_token(r#"{"value":5}"#), r#"{"value":5}"#);
    assert_eq!(normalize_user_token("123"), "123");
    assert_eq!(normalize_user_token("   "), "");
}

#[test]
fn login_from_each_kind_of_document() {
    let text = Ok(Json::Text(" t ".to_string()));
    assert_eq!(login_from("raw", &text), "t");
    let none = Err("bad".to_string());
    assert_eq!(login_from("raw", &none), "raw");
    let other = Ok(Json::Array(vec![]));
    assert_eq!(login_from("raw", &other), "raw");
}

#[test]
fn usage_requests_name_month_year_and_login() {
    let plan = fetch_official_usage(r#"{"value":"tok"}"#, &clocks()).unwrap();
    assert_eq!(
        plan.amount.url,
        "https://platform.deepseek.com/api/v0/usage/amount?month=5&year=2026"
    );
    assert_eq!(
        plan.cost.url,
        "https://platform.deepseek.com/api/v0/usage/cost?month=5&year=2026"
    );
    assert_eq!(plan.amount.timeout_s, 15);
    let expected = [
        ("Authorization", "Bearer tok"),
        ("Accept", "application/json"),
        ("Referer", "https://platform.deepseek.com/usage"),
        (
            "User-Agent",
            "Mozilla/5.0 (Windows NT 10.0; Win64; x64) AppleWebKit/537.36 Chrome/120.0 Safari/537.36",
        ),
    ];
    assert_eq!(plan.amount.headers.len(), expected.len());
    for (have, want) in plan.amount.headers.iter().zip(expected.iter()) {
        assert_eq!((have.0.as_str(), have.1.as_str()), *want);
    }
    assert_eq!(plan.cost.headers, plan.amount.headers);
}

#[test]
fn usage_needs_a_login() {
    assert_eq!(fetch_official_usage(" \"\" ", &clocks()).unwrap_err(), "userToken 为空");
    assert_eq!(usage_plan("", &clocks()).unwrap_err(), "userToken 为空");
    assert_eq!(
        official_usage_fetch(&None, &clocks()).unwrap_err(),
        "尚未填写官网 userToken"
    );
    assert!(official_usage_fetch(&Some("t".to_string()), &clocks()).is_ok());
}

#[test]
fn billing_period_of_a_far_year() {
    let far = Clocks { local: time(10000, 3, 1), utc: time(10000, 3, 1) };
    let plan = usage_plan("t", &far).unwrap();
    assert_eq!(
        plan.amount.url,
        "https://platform.deepseek.com/api/v0/usage/amount?month=0&year=1000"
    );
}

#[test]
fn balance_request_and_reply() {
    let req = fetch_balance("sk-1");
    assert_eq!(req.url, "https://api.deepseek.com/user/balance");
    assert_eq!(req.timeout_s, 12);
    assert_eq!(req.headers.len(), 2);
    assert_eq!(req.headers[0].1, "Bearer sk-1");
    assert_eq!(req.headers[1].1, "application/json");
    assert_eq!(api_balance_fetch(&None).unwrap_err(), "尚未保存 API Key");
    assert_eq!(api_balance_fetch(&Some("k".to_string())).unwrap().headers[0].1, "Bearer k");

    let body = br#"{"is_available":true,"balance_infos":[{"currency":"USD",
        "total_balance":"1.50","granted_balance":"0.50","topped_up_balance":"1.00"},{}]}"#;
    let info = read_balance(&HttpReply::Body(body.to_vec())).unwrap();
    assert!(info.is_available);
    assert_eq!(info.currency, "USD");
    assert_eq!(info.total_balance, "1.50");
    assert_eq!(info.granted_balance, "0.50");
    assert_eq!(info.topped_up_balance, "1.00");
}

#[test]
fn balance_of_an_empty_document() {
    let info = parse_balance(&json_from_str("[]").unwrap());
    assert!(!info.is_available);
    assert_eq!(info.currency, "CNY");
    assert_eq!(info.total_balance, "");
    assert_eq!(info.granted_balance, "");
    assert_eq!(info.topped_up_balance, "");
}

#[test]
fn rejections_of_the_two_services() {
    assert!(is_rejection(Service::Platform, 401) && is_rejection(Service::Platform, 403));
    assert!(is_rejection(Service::Api, 401) && !is_rejection(Service::Api, 403));
    assert_eq!(
        status_error(Service::Platform, 403, "x"),
        "登录已过期，请重新复制 userToken"
    );
    assert_eq!(status_error(Service::Api, 401, "x"), "API Key 无效（401）");
    assert_eq!(status_error(Service::Api, 403, "  no \n"), "HTTP 403: no");
    assert_eq!(status_error(Service::Platform, 500, ""), "HTTP 500: ");
}

#[test]
fn replies_without_a_document() {
    assert_eq!(
        platform_get(&HttpReply::Transport("dns".to_string())).unwrap_err(),
        "网络错误: dns"
    );
    assert_eq!(
        platform_get(&HttpReply::BodyUnread("cut".to_string())).unwrap_err(),
        "返回数据解析失败: cut"
    );
    assert_eq!(
        platform_get(&HttpReply::Status { code: 502, body: " bad ".to_string() }).unwrap_err(),
        "HTTP 502: bad"
    );
    assert_eq!(
        platform_get(&HttpReply::Body(b"{".to_vec())).unwrap_err(),
        "返回数据解析失败: Failed to read JSON: EOF while parsing an object at line 1 column 1"
    );
    assert_eq!(
        document_of(Err("e".to_string())).unwrap_err(),
        "返回数据解析失败: Failed to read JSON: e"
    );
    assert!(platform_get(&HttpReply::Body(b" {\"code\": 0} ".to_vec())).is_ok());
}

#[test]
fn documents_keep_every_kind_of_value() {
    let doc = json_from_bytes(
        &br#"{"a":null,"b":[true,false],"c":-3,"d":2.50,"e":"x\u00e9","f":18446744073709551615}"#
            .to_vec(),
    )
    .unwrap();
    match doc {
        Json::Object(members) => {
            assert_eq!(members.len(), 6);
            for (key, value) in members {
                match key.as_str() {
                    "a" => assert!(matches!(value, Json::Null)),
                    "b" => match value {
                        Json::Array(items) => {
                            assert_eq!(items.len(), 2);
                            assert!(matches!(items[0], Json::Bool(true)));
                            assert!(matches!(items[1], Json::Bool(false)));
                        }
                        _ => panic!("no array"),
                    },
                    "c" => match value {
                        Json::Number { value, text } => {
                            assert_eq!(value, Some(-3));
                            assert_eq!(text, "-3");
                        }
                        _ => panic!("no number"),
                    },
                    "d" => match value {
                        Json::Number { value, text } => {
                            assert_eq!(value, None);
                            assert_eq!(text, "2.5");
                        }
                        _ => panic!("no number"),
                    },
                    "e" => match value {
                        Json::Text(s) => assert_eq!(s, "x\u{e9}"),
                        _ => panic!("no text"),
                    },
                    _ => match value {
                        Json::Number { value, text } => {
                            assert_eq!(value, None);
                            assert_eq!(text, "18446744073709551615");
                        }
                        _ => panic!("no number"),
                    },
                }
            }
        }
        _ => panic!("no object"),
    }
    assert!(json_from_str("{\"a\":}").is_err());
    assert!(json_from_bytes(&vec![0x22, 0xff, 0x22]).is_err());
}
