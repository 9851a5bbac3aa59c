use error_code::deriver::{
    process_error_info, variant_pattern, Data, DeriveError, EnumVariant, ErrorData, MatchArm, Style,
};
use error_code::digest::content_hash;
use error_code::ErrorInfo;

fn variant(ident: &str, style: Style, code: &str, app_code: &str, client_msg: &str) -> EnumVariant {
    EnumVariant {
        ident: ident.to_string(),
        style,
        code: Some(code.to_string()),
        app_code: app_code.to_string(),
        client_msg: client_msg.to_string(),
    }
}

/// The declaration
///
/// ```text
/// #[error_info(app_type = "StatusCode", prefix = "01")]
/// pub enum MyError {
///     #[error_info(code = "IC", app_code = "400")]
///     InvalidCommand(String),
///     #[error_info(code = "IA", app_code = "400", client_msg = "friendly msg")]
///     InvalidArgument(String),
///     #[error_info(code = "RE", app_code = "500")]
///     RespError(std::io::Error),
/// }
/// ```
fn my_error() -> ErrorData {
    ErrorData {
        ident: "MyError".to_string(),
        prefix: "01".to_string(),
        data: Data::Enum(vec![
            variant("InvalidCommand", Style::Tuple, "IC", "400", ""),
            variant("InvalidArgument", Style::Tuple, "IA", "400", "friendly msg"),
            variant("RespError", Style::Tuple, "RE", "500", ""),
        ]),
    }
}

fn arm(pattern: &str, app_code: &str, code: &str, client_msg: &str) -> MatchArm {
    MatchArm {
        pattern: pattern.to_string(),
        app_code: app_code.to_string(),
        code: code.to_string(),
        client_msg: client_msg.to_string(),
    }
}

#[test]
fn test_data_struct() {
    let info = my_error();

    println!("{:#?}", info);

    let code = process_error_info(&info).unwrap();
    println!("{:#?}", code);

    assert_eq!(
        code.arms,
        vec![
            arm("MyError::InvalidCommand(_)", "400", "01IC", ""),
            arm("MyError::InvalidArgument(_)", "400", "01IA", "friendly msg"),
            arm("MyError::RespError(_)", "500", "01RE", ""),
        ]
    );
}

#[test]
fn one_arm_per_variant_in_declaration_order() {
    let input = ErrorData {
        ident: "E".to_string(),
        prefix: "P-".to_string(),
        data: Data::Enum(vec![
            variant("Zed", Style::Unit, "3", "500", ""),
            variant("Alpha", Style::Struct, "1", "", "sorry"),
            variant("Mid", Style::Tuple, "2", "404", ""),
        ]),
    };
    let dispatch = process_error_info(&input).unwrap();
    assert_eq!(
        dispatch.arms,
        vec![
            arm("E::Zed", "500", "P-3", ""),
            arm("E::Alpha{..}", "", "P-1", "sorry"),
            arm("E::Mid(_)", "404", "P-2", ""),
        ]
    );
}

#[test]
fn an_enum_without_variants_has_no_arms() {
    let input = ErrorData {
        ident: "Never".to_string(),
        prefix: "01".to_string(),
        data: Data::Enum(vec![]),
    };
    assert!(process_error_info(&input).unwrap().arms.is_empty());
}

#[test]
fn a_struct_is_refused() {
    let input =
        ErrorData { ident: "Plain".to_string(), prefix: "01".to_string(), data: Data::Struct };
    assert_eq!(process_error_info(&input), Err(DeriveError::NotAnEnum));
}

#[test]
fn a_variant_without_code_is_refused() {
    let mut input = my_error();
    if let Data::Enum(variants) = &mut input.data {
        variants[1].code = None;
    }
    assert_eq!(process_error_info(&input), Err(DeriveError::MissingCode { variant: 1 }));
}

#[test]
fn the_first_variant_without_code_is_named() {
    let mut input = my_error();
    if let Data::Enum(variants) = &mut input.data {
        variants[2].code = None;
        variants[0].code = None;
    }
    assert_eq!(process_error_info(&input), Err(DeriveError::MissingCode { variant: 0 }));
}

#[test]
fn an_empty_code_is_a_code() {
    let input = ErrorData {
        ident: "E".to_string(),
        prefix: "01".to_string(),
        data: Data::Enum(vec![variant("A", Style::Unit, "", "400", "")]),
    };
    assert_eq!(process_error_info(&input).unwrap().arms, vec![arm("E::A", "400", "01", "")]);
}

#[test]
fn equal_codes_are_not_refused() {
    let input = ErrorData {
        ident: "E".to_string(),
        prefix: "01".to_string(),
        data: Data::Enum(vec![
            variant("A", Style::Unit, "XX", "400", ""),
            variant("B", Style::Unit, "XX", "500", ""),
        ]),
    };
    let dispatch = process_error_info(&input).unwrap();
    assert_eq!(dispatch.arms[0].code, "01XX");
    assert_eq!(dispatch.arms[1].code, "01XX");
}

#[test]
fn a_status_is_never_inherited() {
    let input = ErrorData {
        ident: "E".to_string(),
        prefix: "01".to_string(),
        data: Data::Enum(vec![
            variant("A", Style::Unit, "A", "400", "careful"),
            variant("B", Style::Unit, "B", "", ""),
        ]),
    };
    let dispatch = process_error_info(&input).unwrap();
    assert_eq!(dispatch.arms[1].app_code, "");
    assert_eq!(dispatch.arms[1].client_msg, "");
    assert!(dispatch.classify::<u16, str>(1, "boom").is_none());
}

#[test]
fn code_is_prefix_then_variant_code() {
    for prefix in ["", "01", "billing/", "E-"] {
        let mut input = my_error();
        input.prefix = prefix.to_string();
        let dispatch = process_error_info(&input).unwrap();
        for (at, short) in ["IC", "IA", "RE"].iter().enumerate() {
            let info: ErrorInfo<u16> = dispatch.classify(at, "boom").unwrap();
            assert_eq!(info.code, format!("{prefix}{short}"));
        }
    }
}

#[test]
fn patterns_follow_the_payload() {
    assert_eq!(variant_pattern("MyError", "Timeout", Style::Unit), "MyError::Timeout");
    assert_eq!(variant_pattern("MyError", "Io", Style::Tuple), "MyError::Io(_)");
    assert_eq!(variant_pattern("MyError", "Parse", Style::Struct), "MyError::Parse{..}");
    assert_eq!(variant_pattern("", "", Style::Unit), "::");
}

#[test]
fn every_variant_classifies() {
    let dispatch = process_error_info(&my_error()).unwrap();
    assert_eq!(dispatch.arms.len(), 3);
    for at in 0..3 {
        let info: Option<ErrorInfo<u16>> = dispatch.classify(at, "boom");
        assert!(info.is_some());
    }
}

#[test]
fn invalid_command_scenario() {
    let input = ErrorData {
        ident: "MyError".to_string(),
        prefix: "01".to_string(),
        data: Data::Enum(vec![variant("InvalidCommand", Style::Tuple, "IC", "400", "")]),
    };
    let dispatch = process_error_info(&input).unwrap();
    let record: ErrorInfo<u16> = dispatch.classify(0, "Invalid Command: test").unwrap();
    assert_eq!(record.code, "01IC");
    assert_eq!(record.app_code, 400);
    assert_eq!(record.client_msg(), "Invalid Command: test");
    assert_eq!(record.server_msg, "Invalid Command: test");
    let token = format!("[01IC-{}]: ", content_hash("Invalid Command: test"));
    assert_eq!(record.to_string(), format!("{token}Invalid Command: test"));
    assert_eq!(record.to_debug_string(), format!("{token}Invalid Command: test"));
}

#[test]
fn friendly_message_scenario() {
    let dispatch = process_error_info(&my_error()).unwrap();
    for text in ["Invalid_argument: 1", "Invalid_argument: 2", ""] {
        let record: ErrorInfo<u16> = dispatch.classify(1, text).unwrap();
        assert_eq!(record.client_msg(), "friendly msg");
        assert!(record.to_string().ends_with("]: friendly msg"));
        assert_eq!(record.server_msg, text);
    }
}

#[test]
fn classify_parsed_takes_the_status_as_given() {
    let dispatch = process_error_info(&my_error()).unwrap();
    let record = dispatch.classify_parsed(2, Some(503u16), String::from("upstream gone")).unwrap();
    assert_eq!(record.app_code, 503);
    assert_eq!(record.code, "01RE");
    assert_eq!(record.client_msg(), "upstream gone");
    assert_eq!(record.hash, content_hash("upstream gone"));
    assert!(dispatch.classify_parsed::<u16>(2, None, String::from("upstream gone")).is_none());
}

#[test]
fn classify_fails_on_a_status_that_does_not_parse() {
    let input = ErrorData {
        ident: "E".to_string(),
        prefix: "01".to_string(),
        data: Data::Enum(vec![variant("A", Style::Unit, "A", "four hundred", "")]),
    };
    let dispatch = process_error_info(&input).unwrap();
    assert!(dispatch.classify::<u16, str>(0, "boom").is_none());
    assert!(dispatch.classify::<String, str>(0, "boom").is_some());
}
