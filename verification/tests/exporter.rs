use awair_exporter::registry::Registry;
use awair_exporter::scrape::handle_scrape;

/// The exposition body for the given fourteen value texts, in the
/// measurement order.
fn expected_body(vals: [&str; 14]) -> String {
    let names_helps = [
        ("awair_score", "Air quality score"),
        ("awair_dew_point", "Dew point"),
        ("awair_temp", "Temperature"),
        ("awair_humid", "Humidity"),
        ("awair_abs_humid", "Absolute humidity"),
        ("awair_co2", "CO2"),
        ("awair_co2_est", "Estimated CO2"),
        ("awair_co2_est_baseline", "Estimated CO2 baseline"),
        ("awair_voc", "VOC"),
        ("awair_voc_baseline", "VOC baseline"),
        ("awair_voc_h2_raw", "VOC H2 raw"),
        ("awair_voc_ethanol_raw", "VOC ethanol raw"),
        ("awair_pm25", "PM25"),
        ("awair_pm10_est", "Estimated PM10"),
    ];
    let mut out = String::new();
    for (i, (name, help)) in names_helps.iter().enumerate() {
        out.push_str(&format!(
            "# HELP {} {}\n# TYPE {} gauge\n{} {}\n",
            name, help, name, name, vals[i]
        ));
    }
    out
}

fn sample_payload() -> String {
    r#"{
        "timestamp": "2023-01-01T00:00:00.000Z",
        "score": 87,
        "dew_point": 13.62,
        "temp": 23.5,
        "humid": 54.36,
        "abs_humid": 11.38,
        "co2": 618,
        "co2_est": 650,
        "co2_est_baseline": 36539,
        "voc": 120,
        "voc_baseline": 37375,
        "voc_h2_raw": 25112,
        "voc_ethanol_raw": 36663,
        "pm25": 7,
        "pm10_est": 8
    }"#
    .to_string()
}

fn poll_ok(reg: &mut Registry, json: &str) -> (u16, String) {
    let r = handle_scrape(reg, Some((200, json.as_bytes().to_vec())));
    (r.status, r.body)
}

#[test]
fn successful_poll_reports_every_value() {
    let mut reg = Registry::new();
    let (status, body) = poll_ok(&mut reg, &sample_payload());
    assert_eq!(status, 200);
    let expected = expected_body([
        "87", "13.62", "23.5", "54.36", "11.38", "618", "650", "36539", "120", "37375", "25112",
        "36663", "7", "8",
    ]);
    assert_eq!(body, expected);
}

#[test]
fn upstream_server_error_yields_unavailable() {
    let mut reg = Registry::new();
    let (status, _) = poll_ok(&mut reg, &sample_payload());
    assert_eq!(status, 200);
    let before = reg.render();
    let r = handle_scrape(&mut reg, Some((500, sample_payload().into_bytes())));
    assert_eq!(r.status, 503);
    assert_eq!(r.body, "");
    assert_eq!(reg.render(), before);
}

#[test]
fn network_failure_yields_unavailable() {
    let mut reg = Registry::new();
    let before = reg.render();
    let r = handle_scrape(&mut reg, None);
    assert_eq!(r.status, 503);
    assert_eq!(r.body, "");
    assert_eq!(reg.render(), before);
}

#[test]
fn missing_member_updates_nothing() {
    let mut reg = Registry::new();
    let (status, _) = poll_ok(&mut reg, &sample_payload());
    assert_eq!(status, 200);
    let before = reg.render();
    // The same payload but without `co2`: the whole update must be skipped,
    // leaving every previously set gauge at its old value.
    let json = r#"{
        "timestamp": "2023-01-02T00:00:00.000Z",
        "score": 12,
        "dew_point": 1.0,
        "temp": 2.0,
        "humid": 3.0,
        "abs_humid": 4.0,
        "co2_est": 5,
        "co2_est_baseline": 6,
        "voc": 7,
        "voc_baseline": 8,
        "voc_h2_raw": 9,
        "voc_ethanol_raw": 10,
        "pm25": 11,
        "pm10_est": 12
    }"#;
    let r = handle_scrape(&mut reg, Some((200, json.as_bytes().to_vec())));
    assert_eq!(r.status, 503);
    assert_eq!(r.body, "");
    assert_eq!(reg.render(), before);
    assert!(reg.render().contains("awair_score 87\n"));
}

#[test]
fn second_poll_supersedes_first() {
    let mut reg = Registry::new();
    let (status, _) = poll_ok(&mut reg, &sample_payload());
    assert_eq!(status, 200);
    let json = r#"{"timestamp":"2023-01-02T00:00:00.000Z","score":55,"dew_point":9.99,"temp":20.1,"humid":40.0,"abs_humid":9.01,"co2":700,"co2_est":710,"co2_est_baseline":36000,"voc":200,"voc_baseline":37000,"voc_h2_raw":25000,"voc_ethanol_raw":36000,"pm25":3,"pm10_est":4}"#;
    let (status2, body2) = poll_ok(&mut reg, json);
    assert_eq!(status2, 200);
    let expected = expected_body([
        "55", "9.99", "20.1", "40.0", "9.01", "700", "710", "36000", "200", "37000", "25000",
        "36000", "3", "4",
    ]);
    assert_eq!(body2, expected);
    assert!(!body2.contains("87"));
    assert!(!body2.contains("13.62"));
}

#[test]
fn fresh_registry_exposes_all_gauges_at_zero() {
    let reg = Registry::new();
    let body = reg.render();
    let expected = expected_body([
        "0", "0", "0", "0", "0", "0", "0", "0", "0", "0", "0", "0", "0", "0",
    ]);
    assert_eq!(body, expected);
}

#[test]
fn exposition_format_is_well_formed() {
    let mut reg = Registry::new();
    let (_, body) = poll_ok(&mut reg, &sample_payload());
    let lines: Vec<&str> = body.lines().collect();
    assert_eq!(lines.len(), 14 * 3);
    for chunk in lines.chunks(3) {
        let help = chunk[0];
        let ty = chunk[1];
        let value = chunk[2];
        assert!(help.starts_with("# HELP awair_"));
        let name = help.split_whitespace().nth(2).unwrap();
        assert_eq!(ty, format!("# TYPE {} gauge", name));
        let mut parts = value.split(' ');
        assert_eq!(parts.next().unwrap(), name);
        let v = parts.next().unwrap();
        assert!(parts.next().is_none());
        assert!(v.parse::<f64>().is_ok());
    }
    assert!(body.ends_with('\n'));
}

#[test]
fn unknown_member_is_rejected() {
    let mut reg = Registry::new();
    let json = sample_payload().replace("\"pm25\"", "\"pm99\"");
    let r = handle_scrape(&mut reg, Some((200, json.into_bytes())));
    assert_eq!(r.status, 503);
}

#[test]
fn repeated_member_is_rejected() {
    let mut reg = Registry::new();
    let json = sample_payload().replace("\"co2\": 618", "\"score\": 618");
    let r = handle_scrape(&mut reg, Some((200, json.into_bytes())));
    assert_eq!(r.status, 503);
}

#[test]
fn decimal_for_integer_member_is_rejected() {
    let mut reg = Registry::new();
    let json = sample_payload().replace("\"score\": 87", "\"score\": 87.5");
    let r = handle_scrape(&mut reg, Some((200, json.into_bytes())));
    assert_eq!(r.status, 503);
}

#[test]
fn integer_overflow_is_rejected() {
    let mut reg = Registry::new();
    let json = sample_payload().replace("\"score\": 87", "\"score\": 9223372036854775808");
    let r = handle_scrape(&mut reg, Some((200, json.into_bytes())));
    assert_eq!(r.status, 503);
}

#[test]
fn leading_zero_is_rejected() {
    let mut reg = Registry::new();
    let json = sample_payload().replace("\"score\": 87", "\"score\": 087");
    let r = handle_scrape(&mut reg, Some((200, json.into_bytes())));
    assert_eq!(r.status, 503);
}

#[test]
fn trailing_garbage_is_rejected() {
    let mut reg = Registry::new();
    let mut json = sample_payload();
    json.push_str("x");
    let r = handle_scrape(&mut reg, Some((200, json.into_bytes())));
    assert_eq!(r.status, 503);
}

#[test]
fn non_object_body_is_rejected() {
    let mut reg = Registry::new();
    let r = handle_scrape(&mut reg, Some((200, b"[1,2,3]".to_vec())));
    assert_eq!(r.status, 503);
}

#[test]
fn invalid_utf8_body_is_rejected() {
    let mut reg = Registry::new();
    let r = handle_scrape(&mut reg, Some((200, vec![0xff, 0xfe, 0x7b])));
    assert_eq!(r.status, 503);
}

#[test]
fn escaped_string_content_is_rejected() {
    let mut reg = Registry::new();
    let json = sample_payload().replace(
        "2023-01-01T00:00:00.000Z",
        "2023-01-01\\\"T00:00:00.000Z",
    );
    let r = handle_scrape(&mut reg, Some((200, json.into_bytes())));
    assert_eq!(r.status, 503);
}

#[test]
fn extreme_integers_are_rendered_exactly() {
    let mut reg = Registry::new();
    let json = sample_payload()
        .replace("\"score\": 87", "\"score\": -9223372036854775808")
        .replace("\"co2\": 618", "\"co2\": 9223372036854775807");
    let (status, body) = poll_ok(&mut reg, &json);
    assert_eq!(status, 200);
    assert!(body.contains("awair_score -9223372036854775808\n"));
    assert!(body.contains("awair_co2 9223372036854775807\n"));
}

#[test]
fn decimal_source_text_is_preserved() {
    let mut reg = Registry::new();
    let json = sample_payload()
        .replace("13.62", "13.620")
        .replace("23.5", "2.35e1")
        .replace("54.36", "54")
        .replace("11.38", "-0.5");
    let (status, body) = poll_ok(&mut reg, &json);
    assert_eq!(status, 200);
    assert!(body.contains("awair_dew_point 13.620\n"));
    assert!(body.contains("awair_temp 2.35e1\n"));
    assert!(body.contains("awair_humid 54\n"));
    assert!(body.contains("awair_abs_humid -0.5\n"));
}

#[test]
fn member_order_does_not_matter() {
    let mut reg = Registry::new();
    let json = r#"{"pm10_est":8,"pm25":7,"voc_ethanol_raw":36663,"voc_h2_raw":25112,"voc_baseline":37375,"voc":120,"co2_est_baseline":36539,"co2_est":650,"co2":618,"abs_humid":11.38,"humid":54.36,"temp":23.5,"dew_point":13.62,"score":87,"timestamp":"2023-01-01T00:00:00.000Z"}"#;
    let (status, body) = poll_ok(&mut reg, json);
    assert_eq!(status, 200);
    assert!(body.contains("awair_score 87\n"));
    assert!(body.contains("awair_pm10_est 8\n"));
}
