use wkhtmltopdf_cluster::error::error;
use wkhtmltopdf_cluster::error::error_without_parent;
use wkhtmltopdf_cluster::error::AnyError;
use wkhtmltopdf_cluster::json::JsonData;
use wkhtmltopdf_cluster::json::JsonValue;
use wkhtmltopdf_cluster::pdf::build_err_msg;
use wkhtmltopdf_cluster::pdf::fits;
use wkhtmltopdf_cluster::pdf::get_pdf_setting_value;
use wkhtmltopdf_cluster::pdf::pdf_global_setting;
use wkhtmltopdf_cluster::pdf::pdf_object_setting;
use wkhtmltopdf_cluster::pdf::PdfSetting;
use wkhtmltopdf_cluster::pdf::PdfSettingType;
use wkhtmltopdf_cluster::protocol::client_reply;
use wkhtmltopdf_cluster::protocol::read_client_request;
use wkhtmltopdf_cluster::protocol::read_frames;
use wkhtmltopdf_cluster::request::check_settings;
use wkhtmltopdf_cluster::request::plan_request;
use wkhtmltopdf_cluster::request::RequestPlan;
use wkhtmltopdf_cluster::request::SettingScope;
use wkhtmltopdf_cluster::json::JsonMember;

fn text(s: &str) -> JsonValue {
    JsonValue { text: format!("\"{}\"", s), data: JsonData::Text(s.to_string()) }
}

fn number(s: &str) -> JsonValue {
    JsonValue { text: s.to_string(), data: JsonData::Number(s.to_string()) }
}

fn boolean(b: bool) -> JsonValue {
    JsonValue { text: b.to_string(), data: JsonData::Bool(b) }
}

fn setting(value_type: PdfSettingType) -> PdfSetting {
    PdfSetting { scope: "Global", key: "k", value_type }
}

#[test]
fn error_values() {
    let plain = AnyError::without_parent("boom");
    assert_eq!(plain.details, "boom");
    assert_eq!(plain.parent, None);
    assert_eq!(plain.to_text(), "boom");
    let caused = AnyError::new("boom", Some("fuse".to_string()));
    assert_eq!(caused.to_text(), "boom: fuse");
    let failed: Result<u8, AnyError> = error("outer", "inner".to_string());
    assert_eq!(failed.unwrap_err().to_text(), "outer: inner");
    let failed: Result<u8, AnyError> = error_without_parent("alone");
    let e = failed.unwrap_err();
    assert_eq!(e.details, "alone");
    assert!(e.parent.is_none());
}

#[test]
fn catalogs_hold_their_keys() {
    let dpi = pdf_global_setting("dpi").expect("dpi");
    assert_eq!(dpi.scope, "Global");
    assert_eq!(dpi.key, "dpi");
    assert_eq!(dpi.value_type, PdfSettingType::ValueUint);
    assert_eq!(pdf_global_setting("pageOffset").unwrap().value_type, PdfSettingType::ValueInt);
    assert_eq!(pdf_global_setting("load.cookieJar").unwrap().value_type, PdfSettingType::ValueString);
    assert!(pdf_global_setting("page").is_none());
    assert!(pdf_global_setting("").is_none());
    let scale = pdf_object_setting("toc.fontScale").expect("toc.fontScale");
    assert_eq!(scale.scope, "Object");
    assert_eq!(scale.value_type, PdfSettingType::ValueFloat);
    assert_eq!(pdf_object_setting("header.fontName").unwrap().value_type, PdfSettingType::ValueString);
    assert_eq!(pdf_object_setting("web.enablePlugins").unwrap().value_type, PdfSettingType::ValueBool);
    assert!(pdf_object_setting("dpi").is_none());
}

#[test]
fn values_are_coerced_by_declared_type() {
    assert_eq!(get_pdf_setting_value(&setting(PdfSettingType::ValueString), &text("A4")).unwrap(), "A4");
    assert_eq!(get_pdf_setting_value(&setting(PdfSettingType::ValueBool), &boolean(true)).unwrap(), "true");
    assert_eq!(get_pdf_setting_value(&setting(PdfSettingType::ValueBool), &boolean(false)).unwrap(), "false");
    assert_eq!(get_pdf_setting_value(&setting(PdfSettingType::ValueInt), &number("-3")).unwrap(), "-3");
    assert_eq!(get_pdf_setting_value(&setting(PdfSettingType::ValueUint), &number("3")).unwrap(), "3");
    assert_eq!(get_pdf_setting_value(&setting(PdfSettingType::ValueFloat), &number("1.5")).unwrap(), "1.5");
}

#[test]
fn mismatches_are_reported() {
    let e = get_pdf_setting_value(&setting(PdfSettingType::ValueUint), &text("high")).unwrap_err();
    assert_eq!(e.details, "Global setting 'k' must be of type 'ValueUint': \"high\"");
    assert!(e.parent.is_none());
    assert!(get_pdf_setting_value(&setting(PdfSettingType::ValueString), &number("1")).is_err());
    assert!(get_pdf_setting_value(&setting(PdfSettingType::ValueString), &boolean(true)).is_err());
    assert!(get_pdf_setting_value(&setting(PdfSettingType::ValueBool), &text("true")).is_err());
    assert!(get_pdf_setting_value(&setting(PdfSettingType::ValueInt), &boolean(true)).is_err());
    let null = JsonValue { text: "null".to_string(), data: JsonData::Null };
    assert!(get_pdf_setting_value(&setting(PdfSettingType::ValueString), &null).is_err());
    let array = JsonValue { text: "[]".to_string(), data: JsonData::Array };
    let object = PdfSetting { scope: "Object", key: "page", value_type: PdfSettingType::ValueString };
    assert_eq!(build_err_msg(&object, &array), "Object setting 'page' must be of type 'ValueString': []");
}

#[test]
fn settings_check_stops_at_the_first_mismatch() {
    let members = vec![
        JsonMember { key: "dpi".to_string(), value: number("96") },
        JsonMember { key: "unknown".to_string(), value: text("x") },
        JsonMember { key: "copies".to_string(), value: text("two") },
        JsonMember { key: "collate".to_string(), value: number("1") },
    ];
    assert_eq!(
        check_settings(SettingScope::Global, &members),
        Err("Global setting 'copies' must be of type 'ValueUint': \"two\"".to_string())
    );
    assert_eq!(check_settings(SettingScope::Object, &members), Ok(vec![]));
    assert_eq!(
        check_settings(SettingScope::Global, &members[..2].iter().map(|m| JsonMember { key: m.key.clone(), value: number("96") }).collect()),
        Ok(vec![("dpi".to_string(), "96".to_string())])
    );
}

#[test]
fn plan_follows_the_parsed_values() {
    let payload = JsonValue {
        text: "{\"url\":\"u\"}".to_string(),
        data: JsonData::Object(vec![JsonMember { key: "url".to_string(), value: text("u") }]),
    };
    match plan_request(5, "c", &Some(payload), &Some("scheme://u/".to_string()), 8) {
        RequestPlan::Render(job) => {
            assert_eq!(job.url, "scheme://u/");
            assert_eq!(job.filename, "req-5-8.pdf");
        }
        RequestPlan::Reply(envelope) => panic!("turned down: {:?}", envelope),
    }
    match plan_request(5, "c", &None, &None, 8) {
        RequestPlan::Reply(envelope) => {
            assert_eq!(envelope, vec!["c", "", "400", "", "Cannot parse request as JSON"]);
        }
        RequestPlan::Render(job) => panic!("accepted: {:?}", job),
    }
}

#[test]
fn envelopes_are_framed_with_empty_delimiters() {
    assert_eq!(client_reply("c", "200", "ok"), vec!["c", "", "200", "", "ok"]);
    let frames: Vec<String> = vec!["c".to_string(), "".to_string(), "body".to_string()];
    assert_eq!(read_client_request(&frames), Some(("c".to_string(), "body".to_string())));
    let short: Vec<String> = vec!["c".to_string(), "".to_string()];
    assert_eq!(read_client_request(&short), None);
}

#[test]
fn numbers_are_told_apart_by_declared_type() {
    let uint = setting(PdfSettingType::ValueUint);
    let int = setting(PdfSettingType::ValueInt);
    let float = setting(PdfSettingType::ValueFloat);
    for numeral in ["0", "7", "300", "18446744073709551615"] {
        assert_eq!(get_pdf_setting_value(&uint, &number(numeral)).unwrap(), numeral);
        assert_eq!(get_pdf_setting_value(&int, &number(numeral)).unwrap(), numeral);
        assert_eq!(get_pdf_setting_value(&float, &number(numeral)).unwrap(), numeral);
    }
    for numeral in ["-1", "-9223372036854775808"] {
        assert!(get_pdf_setting_value(&uint, &number(numeral)).is_err());
        assert_eq!(get_pdf_setting_value(&int, &number(numeral)).unwrap(), numeral);
        assert_eq!(get_pdf_setting_value(&float, &number(numeral)).unwrap(), numeral);
    }
    for numeral in ["1.5", "-0.0", "1e100", "2.5e-3", "1.0"] {
        assert!(get_pdf_setting_value(&uint, &number(numeral)).is_err());
        assert!(get_pdf_setting_value(&int, &number(numeral)).is_err());
        assert_eq!(get_pdf_setting_value(&float, &number(numeral)).unwrap(), numeral);
    }
    assert!(!fits(PdfSettingType::ValueInt, "-"));
    assert!(!fits(PdfSettingType::ValueInt, ""));
    assert!(!fits(PdfSettingType::ValueUint, ""));
    assert!(!fits(PdfSettingType::ValueInt, "--1"));
    assert!(!fits(PdfSettingType::ValueInt, "1-"));
    assert!(!fits(PdfSettingType::ValueUint, "٣"));
    assert!(!fits(PdfSettingType::ValueString, "1"));
    assert!(!fits(PdfSettingType::ValueBool, "1"));
    assert!(fits(PdfSettingType::ValueFloat, "1"));
}

#[test]
fn negative_number_for_an_unsigned_setting_is_a_mismatch() {
    let dpi = pdf_global_setting("dpi").expect("dpi");
    let e = get_pdf_setting_value(&dpi, &number("-1")).unwrap_err();
    assert_eq!(e.details, "Global setting 'dpi' must be of type 'ValueUint': -1");
    assert!(e.details.contains("Global"));
    assert!(e.details.contains("dpi"));
    assert!(e.details.contains("Uint"));
    assert!(e.details.contains("-1"));
}

#[test]
fn envelope_with_a_frame_that_is_no_text_has_no_frames() {
    let whole = vec![Some("c".to_string()), Some("".to_string()), Some("body".to_string())];
    assert_eq!(read_frames(&whole), vec!["c", "", "body"]);
    let broken = vec![Some("c".to_string()), None, Some("body".to_string())];
    assert_eq!(read_frames(&broken), Vec::<String>::new());
    assert_eq!(read_frames(&vec![]), Vec::<String>::new());
}
