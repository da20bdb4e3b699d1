use tc_logsave::api::{DownloadL7Logs, EdgeOne};
use tc_logsave::calendar::MAX_TIMESTAMP;
use tc_logsave::signer::{
    authorization, build_request, canonical_headers, canonical_request, credential_scope,
    derive_signing_key, hash_text, sign, string_to_sign, Access, ActionRequest,
};
use tc_logsave::text::decimal;

const PAYLOAD: &str = "{\"StartTime\":\"2024-07-17T00:00:00+08:00\",\"EndTime\":\"2024-07-17T23:59:00+08:00\",\"ZoneIds\":[\"zone-1\"],\"Limit\":300,\"Offset\":0}";
const PAYLOAD_HASH: &str = "59ea25f72511af1decdc384acb71043735b9316bf304ddc8188ca78f8b52e6d4";
const CANONICAL: &str = "POST\n/\n\ncontent-type:application/json; charset=utf-8\nhost:teo.tencentcloudapi.com\nx-tc-action:downloadl7logs\n\ncontent-type;host;x-tc-action\n59ea25f72511af1decdc384acb71043735b9316bf304ddc8188ca78f8b52e6d4";
const CANONICAL_HASH: &str = "1a2a7535ead9f90c78e3416285f01c2755b0f2ad6ef1bb25442f71a547bf01d5";
const TO_SIGN: &str = "TC3-HMAC-SHA256\n1721174400\n20240717/teo/tc3_request\n1a2a7535ead9f90c78e3416285f01c2755b0f2ad6ef1bb25442f71a547bf01d5";
const SIGNATURE: &str = "94f7965b8100920fe591ef6eb0c7d6ea9c95e5182d503d92d9a1811a7bd43496";
const TIMESTAMP: u64 = 1_721_174_400;

fn sample_query() -> DownloadL7Logs {
    DownloadL7Logs {
        start_time: "2024-07-17T00:00:00+08:00".to_string(),
        end_time: "2024-07-17T23:59:00+08:00".to_string(),
        zone_ids: vec!["zone-1".to_string()],
        domains: None,
        limit: 300,
        offset: 0,
    }
}

fn sample_access() -> Access {
    Access { secret_id: "AKIDEXAMPLE".to_string(), secret_key: "examplekey".to_string() }
}

#[test]
fn payload_is_compact_pascal_case_json() {
    assert_eq!(sample_query().to_json(), PAYLOAD);
}

#[test]
fn payload_with_domains_lists_them_after_the_zones() {
    let mut query = sample_query();
    query.zone_ids = vec!["zone-1".to_string(), "zone-2".to_string()];
    query.domains = Some(vec!["a.example.com".to_string(), "b.example.com".to_string()]);
    query.limit = 10;
    query.offset = 20;
    assert_eq!(
        query.to_json(),
        "{\"StartTime\":\"2024-07-17T00:00:00+08:00\",\"EndTime\":\"2024-07-17T23:59:00+08:00\",\"ZoneIds\":[\"zone-1\",\"zone-2\"],\"Domains\":[\"a.example.com\",\"b.example.com\"],\"Limit\":10,\"Offset\":20}"
    );
}

#[test]
fn payload_with_empty_lists() {
    let mut query = sample_query();
    query.zone_ids = Vec::new();
    query.domains = Some(Vec::new());
    assert_eq!(
        query.to_json(),
        "{\"StartTime\":\"2024-07-17T00:00:00+08:00\",\"EndTime\":\"2024-07-17T23:59:00+08:00\",\"ZoneIds\":[],\"Domains\":[],\"Limit\":300,\"Offset\":0}"
    );
}

#[test]
fn payload_strings_are_escaped() {
    let mut query = sample_query();
    query.zone_ids = vec!["a\"b\\c\n".to_string()];
    let json = query.to_json();
    assert!(json.contains("\"ZoneIds\":[\"a\\\"b\\\\c\\n\"]"));
    let parsed: serde_json::Value = serde_json::from_str(&json).unwrap();
    assert_eq!(parsed["ZoneIds"][0].as_str(), Some("a\"b\\c\n"));
}

#[test]
fn payload_parses_back_to_the_query() {
    let parsed: serde_json::Value = serde_json::from_str(&sample_query().to_json()).unwrap();
    assert_eq!(parsed["StartTime"].as_str(), Some("2024-07-17T00:00:00+08:00"));
    assert_eq!(parsed["EndTime"].as_str(), Some("2024-07-17T23:59:00+08:00"));
    assert_eq!(parsed["Limit"].as_u64(), Some(300));
    assert_eq!(parsed["Offset"].as_u64(), Some(0));
    assert!(parsed.get("Domains").is_none());
}

#[test]
fn request_names_the_edge_service() {
    let request = sample_query().to_request();
    assert_eq!(request.action, "DownloadL7Logs");
    assert_eq!(request.service, "teo");
    assert_eq!(request.host, "teo.tencentcloudapi.com");
    assert_eq!(request.version, "2022-09-01");
    assert_eq!(request.payload, PAYLOAD);
    assert_eq!(EdgeOne::service(), "teo");
    assert_eq!(EdgeOne::host(), "teo.tencentcloudapi.com");
    assert_eq!(EdgeOne::version(), "2022-09-01");
    assert_eq!(DownloadL7Logs::action(), "DownloadL7Logs");
}

#[test]
fn hash_of_the_empty_text() {
    assert_eq!(
        hash_text(""),
        "e3b0c44298fc1c149afbf4c8996fb92427ae41e4649b934ca495991b7852b855"
    );
}

#[test]
fn hash_of_the_sample_payload() {
    assert_eq!(hash_text(PAYLOAD), PAYLOAD_HASH);
}

#[test]
fn canonical_headers_keep_their_order() {
    let block = canonical_headers("teo.tencentcloudapi.com", "DownloadL7Logs");
    assert_eq!(
        block,
        "content-type:application/json; charset=utf-8\nhost:teo.tencentcloudapi.com\nx-tc-action:downloadl7logs\n"
    );
    let content_type = block.find("content-type:").unwrap();
    let host = block.find("\nhost:").unwrap();
    let action = block.find("\nx-tc-action:").unwrap();
    assert!(content_type < host && host < action);
}

#[test]
fn canonical_headers_lower_only_ascii_capitals() {
    let block = canonical_headers("h", "AbC-Z\u{c9}9");
    assert_eq!(
        block,
        "content-type:application/json; charset=utf-8\nhost:h\nx-tc-action:abc-z\u{c9}9\n"
    );
}

#[test]
fn known_vector_canonical_request() {
    assert_eq!(
        canonical_request("teo.tencentcloudapi.com", "DownloadL7Logs", PAYLOAD_HASH),
        CANONICAL
    );
    assert_eq!(hash_text(CANONICAL), CANONICAL_HASH);
}

#[test]
fn known_vector_string_to_sign() {
    let scope = credential_scope("20240717", "teo");
    assert_eq!(scope, "20240717/teo/tc3_request");
    assert_eq!(string_to_sign(TIMESTAMP, &scope, CANONICAL_HASH), TO_SIGN);
}

#[test]
fn known_vector_signature() {
    let key = derive_signing_key("examplekey", "20240717", "teo");
    assert_eq!(
        hex::encode(&key),
        "03dd1e76ba0a7bd9bdd36a96d52d7890eb284ad9b9669a536bba9a3bf813c527"
    );
    assert_eq!(sign(&key, TO_SIGN), SIGNATURE);
}

#[test]
fn known_vector_authorization() {
    assert_eq!(
        authorization("AKIDEXAMPLE", "20240717/teo/tc3_request", SIGNATURE),
        "TC3-HMAC-SHA256 Credential=AKIDEXAMPLE/20240717/teo/tc3_request, SignedHeaders=content-type;host;x-tc-action, Signature=94f7965b8100920fe591ef6eb0c7d6ea9c95e5182d503d92d9a1811a7bd43496"
    );
}

#[test]
fn known_vector_signed_request() {
    let signed = build_request(&sample_query().to_request(), TIMESTAMP, &sample_access());
    assert_eq!(signed.method, "POST");
    assert_eq!(signed.uri, "/");
    assert_eq!(
        signed.authorization,
        "TC3-HMAC-SHA256 Credential=AKIDEXAMPLE/20240717/teo/tc3_request, SignedHeaders=content-type;host;x-tc-action, Signature=94f7965b8100920fe591ef6eb0c7d6ea9c95e5182d503d92d9a1811a7bd43496"
    );
    assert_eq!(signed.content_type, "application/json; charset=utf-8");
    assert_eq!(signed.host, "teo.tencentcloudapi.com");
    assert_eq!(signed.action, "DownloadL7Logs");
    assert_eq!(signed.timestamp, "1721174400");
    assert_eq!(signed.version, "2022-09-01");
    assert_eq!(signed.body, PAYLOAD);
}

#[test]
fn signing_is_deterministic() {
    let request = sample_query().to_request();
    let first = build_request(&request, TIMESTAMP, &sample_access());
    let second = build_request(&request, TIMESTAMP, &sample_access());
    assert_eq!(first.authorization, second.authorization);
    assert_eq!(first, second);
}

#[test]
fn signature_depends_on_each_input() {
    let request = sample_query().to_request();
    let base = build_request(&request, TIMESTAMP, &sample_access());
    let later = build_request(&request, TIMESTAMP + 1, &sample_access());
    assert_ne!(base.authorization, later.authorization);
    let mut other_key = sample_access();
    other_key.secret_key = "examplekez".to_string();
    assert_ne!(base.authorization, build_request(&request, TIMESTAMP, &other_key).authorization);
    let mut other_payload = request.clone();
    other_payload.payload.push(' ');
    assert_ne!(
        base.authorization,
        build_request(&other_payload, TIMESTAMP, &sample_access()).authorization
    );
}

#[test]
fn scope_uses_the_utc_date_of_the_timestamp() {
    let request = sample_query().to_request();
    let last_second = build_request(&request, 1_721_260_799, &sample_access());
    assert!(last_second.authorization.contains("Credential=AKIDEXAMPLE/20240717/teo/tc3_request"));
    let next_day = build_request(&request, 1_721_260_800, &sample_access());
    assert!(next_day.authorization.contains("Credential=AKIDEXAMPLE/20240718/teo/tc3_request"));
    let epoch = build_request(&request, 0, &sample_access());
    assert!(epoch.authorization.contains("Credential=AKIDEXAMPLE/19700101/teo/tc3_request"));
    assert_eq!(epoch.timestamp, "0");
}

#[test]
fn the_last_timestamp_can_be_signed() {
    let request = ActionRequest {
        action: "A".to_string(),
        service: "s".to_string(),
        host: "h".to_string(),
        version: "v".to_string(),
        payload: "{}".to_string(),
    };
    let signed = build_request(&request, MAX_TIMESTAMP, &sample_access());
    assert_eq!(signed.timestamp, "8210266876799");
    assert!(signed.authorization.contains("/+2621421231/s/tc3_request"));
}

#[test]
fn decimal_numerals() {
    assert_eq!(decimal(0), "0");
    assert_eq!(decimal(7), "7");
    assert_eq!(decimal(10), "10");
    assert_eq!(decimal(1_721_174_400), "1721174400");
    assert_eq!(decimal(u64::MAX), "18446744073709551615");
}

#[test]
fn endpoint_is_the_host_over_https() {
    let signed = build_request(&sample_query().to_request(), TIMESTAMP, &sample_access());
    assert_eq!(signed.endpoint(), "https://teo.tencentcloudapi.com/");
}

#[test]
fn headers_are_exactly_six() {
    let signed = build_request(&sample_query().to_request(), TIMESTAMP, &sample_access());
    let headers = signed.headers();
    let names: Vec<&str> = headers.iter().map(|h| h.0.as_str()).collect();
    assert_eq!(
        names,
        vec![
            "Authorization",
            "Content-Type",
            "Host",
            "X-TC-Action",
            "X-TC-Timestamp",
            "X-TC-Version"
        ]
    );
    assert_eq!(headers[0].1, signed.authorization);
    assert_eq!(headers[1].1, "application/json; charset=utf-8");
    assert_eq!(headers[2].1, "teo.tencentcloudapi.com");
    assert_eq!(headers[3].1, "DownloadL7Logs");
    assert_eq!(headers[4].1, "1721174400");
    assert_eq!(headers[5].1, "2022-09-01");
}

#[test]
fn hashes_and_signatures_have_64_digits() {
    assert_eq!(hash_text("").len(), 64);
    assert_eq!(hash_text(PAYLOAD).len(), 64);
    let key = derive_signing_key("", "", "");
    assert_eq!(key.len(), 32);
    assert_eq!(sign(&key, "").len(), 64);
    let long_key = vec![7u8; 200];
    assert_eq!(sign(&long_key, TO_SIGN).len(), 64);
    let signed = build_request(&sample_query().to_request(), TIMESTAMP, &sample_access());
    let signature = signed.authorization.rsplit("Signature=").next().unwrap();
    assert_eq!(signature.len(), 64);
    assert!(signature.chars().all(|c| c.is_ascii_digit() || ('a'..='f').contains(&c)));
}
