use orion_error::UnifiedReason;
use wparse_plugin::DataErrKind;
use wparse_plugin::RawData;
use wparse_plugin::WparseError;
use wparse_plugin::WparseReason;
use wparse_plugin::WparseResult;
use wparse_plugin::WplParseError;

#[test]
fn data_err_kind_messages_are_exact() {
    assert_eq!(DataErrKind::NotComplete.message(), "not complete");
    assert_eq!(DataErrKind::LessData.message(), "less data");
    assert_eq!(DataErrKind::EmptyData.message(), "empty data");
    assert_eq!(
        DataErrKind::UnParse(String::from("bad record")).message(),
        "no parse data: bad record"
    );
    assert_eq!(
        DataErrKind::LessStc(String::from("header")).message(),
        "struct less : header"
    );
    assert_eq!(
        DataErrKind::LessDef(String::from("field")).message(),
        "define less : field"
    );
}

#[test]
fn format_error_message_shows_optional_detail() {
    let bare = DataErrKind::FormatError(String::from("msg"), None);
    assert_eq!(bare.message(), "format error : msg\nNone ");

    let detailed = DataErrKind::FormatError(String::from("msg"), Some(String::from("det")));
    assert_eq!(detailed.message(), "format error : msg\nSome(\"det\") ");
}

#[test]
fn string_lifts_to_format_error() {
    let kind = DataErrKind::from(String::from("oops"));
    assert_eq!(kind, DataErrKind::FormatError(String::from("oops"), None));
}

#[test]
fn reason_messages_are_exact() {
    assert_eq!(
        WparseReason::Plugin(String::from("dec")).message(),
        "plugin >dec"
    );
    assert_eq!(WparseReason::NotMatch.message(), "not match");
    assert_eq!(
        WparseReason::LineProc(String::from("l1")).message(),
        "line proc > l1"
    );
    assert_eq!(WparseReason::Uvs(UnifiedReason::DataError).message(), "data error");
}

#[test]
fn uvs_message_matches_the_lower_layer() {
    // The library's rendering of the wrapped reason must agree with what the
    // lower-level error crate itself prints.
    let cases = vec![
        UnifiedReason::ValidationError,
        UnifiedReason::DataError,
        UnifiedReason::SystemError,
        UnifiedReason::ExternalError,
        UnifiedReason::LogicError,
        UnifiedReason::core_conf(),
    ];
    for reason in cases {
        let ours = WparseReason::Uvs(reason.clone()).message();
        assert_eq!(ours, format!("{}", reason));
    }
}

#[test]
fn error_code_is_fixed_at_500() {
    assert_eq!(WparseReason::NotMatch.error_code(), 500);
    assert_eq!(WparseReason::Plugin(String::from("p")).error_code(), 500);
    assert_eq!(WparseError::new(WparseReason::NotMatch).error_code(), 500);
    assert_eq!(
        WparseError::from_data(DataErrKind::EmptyData).error_code(),
        500
    );
}

#[test]
fn wrapping_a_data_fault_keeps_its_message() {
    let kind = DataErrKind::UnParse(String::from("xyz"));
    let message = kind.message();
    let wrapped = WparseError::from(kind);

    assert_eq!(wrapped.reason, WparseReason::Uvs(UnifiedReason::DataError));
    assert_eq!(wrapped.detail, Some(String::from("no parse data: xyz")));
    assert!(wrapped.render().contains(&message));
}

#[test]
fn wrapped_render_is_exact() {
    let wrapped = WparseError::from_data(DataErrKind::LessData);
    assert_eq!(wrapped.render(), "data error\n  -> Info: less data");
}

#[test]
fn render_without_detail_is_the_reason_alone() {
    let e = WparseError::new(WparseReason::NotMatch);
    assert_eq!(e.render(), "not match");
}

#[test]
fn render_shows_cause_when_attached() {
    let e = WparseError::new(WparseReason::LineProc(String::from("l7")))
        .with_detail(String::from("short read"))
        .with_cause(String::from("disk offline"));
    assert_eq!(
        e.render(),
        "line proc > l7\n  -> Info: short read\n  -> Caused by:\n      1. disk offline"
    );
}

#[test]
fn reason_conversions_pick_the_right_branch() {
    assert_eq!(
        WparseReason::from(String::from("line fault")),
        WparseReason::LineProc(String::from("line fault"))
    );
    assert_eq!(
        WparseReason::from(UnifiedReason::TimeoutError),
        WparseReason::Uvs(UnifiedReason::TimeoutError)
    );
}

#[test]
fn older_alias_names_still_work() {
    let e: WplParseError = WparseError::new(WparseReason::NotMatch);
    let r: WparseResult<RawData> = Err(e);
    assert!(r.is_err());
}
