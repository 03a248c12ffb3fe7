use claudio::json::JsonValue;
use claudio::speech::{
    asr_error_message, asr_outcome, asr_result_text, asr_url, check_app_key, extract_token,
    percent_encode, sanitize_voice, sign_params, signed_token_query, token_from_reply,
    token_params, token_query_at, token_query_now, token_string_to_sign, tts_audio,
    tts_error_detail, tts_error_message, tts_request_body, tts_url,
};

fn obj(members: Vec<(&str, JsonValue)>) -> JsonValue {
    JsonValue::Object(members.into_iter().map(|(k, v)| (k.to_string(), v)).collect())
}

#[test]
fn percent_encoding_per_pop_spec() {
    assert_eq!(percent_encode("a b/é~"), "a%20b%2F%C3%A9~");
    assert_eq!(percent_encode("AZaz09-_.~"), "AZaz09-_.~");
    assert_eq!(percent_encode("2019-04-18T08:32:31Z"), "2019-04-18T08%3A32%3A31Z");
    assert_eq!(percent_encode(""), "");
}

#[test]
fn voices_are_sanitized() {
    assert_eq!(sanitize_voice("longxiaoxia"), "zhixiaoxia");
    assert_eq!(sanitize_voice("cosyvoice-x"), "zhixiaoxia");
    assert_eq!(sanitize_voice("xiaoyun"), "xiaoyun");
    assert_eq!(sanitize_voice("lon"), "lon");
    assert_eq!(sanitize_voice(sanitize_voice("longx")), "zhixiaoxia");
}

fn b64(bytes: &[u8]) -> String {
    tts_audio(true, "audio/wav", bytes).unwrap()
}

#[test]
fn base64_standard_with_padding() {
    assert_eq!(b64(b""), "");
    assert_eq!(b64(b"M"), "TQ==");
    assert_eq!(b64(b"Ma"), "TWE=");
    assert_eq!(b64(b"hello"), "aGVsbG8=");
    assert_eq!(b64(&[0xfb, 0xff, 0xfe]), "+//+");
    let signed = sign_params(vec![("a".to_string(), "b".to_string())], b"hello");
    assert_eq!(signed[1].0, "Signature");
    assert_eq!(signed[1].1, "aGVsbG8=");
}

#[test]
fn string_to_sign_of_token_request() {
    let params = token_params("testid", "2019-04-18T08:32:31Z", "claudio-42");
    assert_eq!(params.len(), 9);
    assert_eq!(
        token_string_to_sign(&params),
        "GET&%2F&AccessKeyId%3Dtestid%26Action%3DCreateToken%26Format%3DJSON%26RegionId%3Dcn-shanghai%26SignatureMethod%3DHMAC-SHA1%26SignatureNonce%3Dclaudio-42%26SignatureVersion%3D1.0%26Timestamp%3D2019-04-18T08%253A32%253A31Z%26Version%3D2019-02-28"
    );
}

#[test]
fn token_request_is_signed() {
    let q = signed_token_query("testid", "testsecret", "2019-04-18T08:32:31Z", "claudio-42");
    let keys: Vec<&str> = q.iter().map(|p| p.0.as_str()).collect();
    assert_eq!(
        keys,
        vec![
            "AccessKeyId",
            "Action",
            "Format",
            "RegionId",
            "SignatureMethod",
            "SignatureNonce",
            "SignatureVersion",
            "Timestamp",
            "Version",
            "Signature"
        ]
    );
    assert_eq!(q[0].1, "testid");
    assert_eq!(q[5].1, "claudio-42");
    assert_eq!(q[9].1, "bf2o6P11epqrcjiIpIo5ez1vPWk=");
}

#[test]
fn token_request_now_has_a_nonce() {
    let q = token_query_now("id", "secret").unwrap();
    assert_eq!(q.len(), 10);
    assert!(q[5].1.starts_with("claudio-"));
    assert!(q[5].1["claudio-".len()..].chars().all(|c| c.is_ascii_digit()));
    assert_eq!(q[7].1.len(), "2019-04-18T08:32:31Z".len());
    let ts: Vec<char> = q[7].1.chars().collect();
    for (i, c) in ts.iter().enumerate() {
        match i {
            4 | 7 => assert_eq!(*c, '-'),
            10 => assert_eq!(*c, 'T'),
            13 | 16 => assert_eq!(*c, ':'),
            19 => assert_eq!(*c, 'Z'),
            _ => assert!(c.is_ascii_digit()),
        }
    }
}

#[test]
fn token_is_found_in_either_place() {
    let a = obj(vec![("Token", obj(vec![("Id", JsonValue::string("t1"))]))]);
    assert_eq!(extract_token(&a), Some("t1".to_string()));
    let b = obj(vec![("Data", obj(vec![("Token", JsonValue::string("t2"))]))]);
    assert_eq!(extract_token(&b), Some("t2".to_string()));
    let c = obj(vec![("Token", obj(vec![("Id", JsonValue::Number("1".to_string()))]))]);
    assert_eq!(extract_token(&c), None);
}

#[test]
fn speech_requests() {
    assert_eq!(check_app_key("").err(), Some("请先设置 ISI AccessKey 和 AppKey".to_string()));
    assert!(check_app_key("k").is_ok());
    assert_eq!(tts_url(), "https://nls-gateway-cn-shanghai.aliyuncs.com/stream/v1/tts");
    assert_eq!(
        asr_url("app1"),
        "https://nls-gateway-cn-shanghai.aliyuncs.com/stream/v1/asr?appkey=app1&format=wav"
    );
    let body = tts_request_body("app", "tok", "你好", "longxiaoxia");
    assert_eq!(body.get("voice").and_then(|v| v.as_str()).map(|s| s.as_str()), Some("zhixiaoxia"));
    assert_eq!(body.get("sample_rate").and_then(|v| v.as_u64()), Some(16000));
    assert_eq!(body.get("speech_rate").and_then(|v| v.as_u64()), Some(100));
    assert_eq!(body.get("format").and_then(|v| v.as_str()).map(|s| s.as_str()), Some("wav"));
    assert_eq!(body.get("text").and_then(|v| v.as_str()).map(|s| s.as_str()), Some("你好"));
}

#[test]
fn synthesis_replies() {
    assert_eq!(tts_audio(true, "audio/mpeg", b"hi"), Some("aGk=".to_string()));
    assert_eq!(tts_audio(true, "application/json", b"hi"), None);
    assert_eq!(tts_audio(false, "audio/wav", b"hi"), None);
    let err = obj(vec![("message", JsonValue::string("bad token"))]);
    assert_eq!(tts_error_detail("raw", Some(&err)), "bad token");
    assert_eq!(tts_error_detail("raw", None), "raw");
}

#[test]
fn recognition_replies() {
    let a = obj(vec![("error_message", JsonValue::string("e1")), ("message", JsonValue::string("m"))]);
    assert_eq!(asr_error_message(&a), "e1");
    let b = obj(vec![("message", JsonValue::string("m"))]);
    assert_eq!(asr_error_message(&b), "m");
    assert_eq!(asr_error_message(&obj(vec![])), "未知错误");
    let c = obj(vec![("result", JsonValue::string("你好"))]);
    assert_eq!(asr_result_text(&c), Some("你好".to_string()));
    let d = obj(vec![
        ("result", JsonValue::string("")),
        ("payload", obj(vec![("result", JsonValue::string("nested"))])),
    ]);
    assert_eq!(asr_result_text(&d), Some("nested".to_string()));
    assert_eq!(asr_result_text(&obj(vec![])), None);
}

#[test]
fn token_request_from_clock_values() {
    let q = token_query_at("testid", "testsecret", "2019-04-18T08:32:31Z", Ok(42)).unwrap();
    assert_eq!(q[5].1, "claudio-42");
    assert_eq!(q[7].1, "2019-04-18T08:32:31Z");
    assert_eq!(q[9].1, "bf2o6P11epqrcjiIpIo5ez1vPWk=");
    let e = token_query_at("id", "s", "", Err("second time provided was later than self".to_string()));
    assert_eq!(e.err(), Some("系统时间错误: second time provided was later than self".to_string()));
}

#[test]
fn token_replies() {
    let r = token_from_reply(false, "403 Forbidden", "denied", Err(String::new()), "");
    assert_eq!(r, Err("获取 Token 失败 (403 Forbidden): denied".to_string()));
    let r = token_from_reply(true, "200 OK", "<html>", Err("expected value at line 1 column 1".to_string()), "");
    assert_eq!(
        r,
        Err("JSON 解析失败: expected value at line 1 column 1 | 原始响应: <html>".to_string())
    );
    let body = obj(vec![("Token", obj(vec![("Id", JsonValue::string("tok-1"))]))]);
    assert_eq!(token_from_reply(true, "200 OK", "", Ok(body), ""), Ok("tok-1".to_string()));
    let body = obj(vec![("Data", obj(vec![("Token", JsonValue::string("tok-2"))]))]);
    assert_eq!(token_from_reply(true, "200 OK", "", Ok(body), ""), Ok("tok-2".to_string()));
    let r = token_from_reply(true, "200 OK", "{}", Ok(obj(vec![])), "{}");
    assert_eq!(r, Err("Token 响应格式异常: {}".to_string()));
}

#[test]
fn synthesis_error_messages() {
    let err = obj(vec![("message", JsonValue::string("bad token"))]);
    assert_eq!(
        tts_error_message("400 Bad Request", "raw", Some(&err)),
        "TTS API 错误 (400 Bad Request): bad token"
    );
    assert_eq!(tts_error_message("500 Internal Server Error", "oops", None), "TTS API 错误 (500 Internal Server Error): oops");
}

#[test]
fn recognition_outcomes() {
    let e = obj(vec![("message", JsonValue::string("quota"))]);
    assert_eq!(asr_outcome(false, &e, "{}"), Err("ASR API 错误: quota".to_string()));
    let ok = obj(vec![("result", JsonValue::string("下一首"))]);
    assert_eq!(asr_outcome(true, &ok, ""), Ok("下一首".to_string()));
    let empty = obj(vec![("result", JsonValue::string(""))]);
    assert_eq!(
        asr_outcome(true, &empty, "{\"result\":\"\"}"),
        Err("ASR 响应为空或未找到识别结果: {\"result\":\"\"}".to_string())
    );
}
