use klafs_api::config::DebugConfig;
use klafs_api::debug::HttpDebugger;
use klafs_api::error::KlafsError;
use klafs_api::html::{extract_guid, extract_saunas_from_html, extract_verification_token};
use klafs_api::validate::{
    is_guid, validate_hour, validate_humidity_level, validate_minute, validate_pin,
    validate_sanarium_temperature, validate_sauna_id, validate_temperature,
};

#[test]
fn test_extract_verification_token() {
    let html = r#"
            <html>
                <body>
                    <form>
                        <input name="__RequestVerificationToken" type="hidden" value="test-token-123" />
                    </form>
                </body>
            </html>
        "#;

    let token = extract_verification_token(html).unwrap();
    assert_eq!(token, "test-token-123");
}

#[test]
fn test_extract_verification_token_not_found() {
    let html = "<html><body>No token here</body></html>";

    let result = extract_verification_token(html);
    assert!(matches!(result, Err(KlafsError::VerificationTokenNotFound)));
}

#[test]
fn test_extract_verification_token_from_script() {
    let html = r#"
            <html>
                <head>
                    <script>
                        window.config = {"__RequestVerificationToken":"script-token-456"};
                    </script>
                </head>
            </html>
        "#;

    let token = extract_verification_token(html).unwrap();
    assert_eq!(token, "script-token-456");
}

#[test]
fn test_extract_verification_token_from_id() {
    let html = r#"
            <html>
                <body>
                    <input id="__RequestVerificationToken" type="hidden" value="id-token-789" />
                </body>
            </html>
        "#;

    let token = extract_verification_token(html).unwrap();
    assert_eq!(token, "id-token-789");
}

#[test]
fn test_is_guid() {
    assert!(is_guid("364cc9db-86f1-49d1-86cd-f6ef9b20a490"));
    assert!(is_guid("00000000-0000-0000-0000-000000000000"));
    assert!(is_guid("AAAAAAAA-BBBB-CCCC-DDDD-EEEEEEEEEEEE"));

    assert!(!is_guid("not-a-guid"));
    assert!(!is_guid("364cc9db-86f1-49d1-86cd"));
    assert!(!is_guid("364cc9db-86f1-49d1-86cd-f6ef9b20a490-extra"));
    assert!(!is_guid("364cc9db_86f1_49d1_86cd_f6ef9b20a490"));
}

#[test]
fn test_extract_guid() {
    assert_eq!(
        extract_guid("Sauna ID: 364cc9db-86f1-49d1-86cd-f6ef9b20a490"),
        Some("364cc9db-86f1-49d1-86cd-f6ef9b20a490".to_string())
    );

    assert_eq!(extract_guid("No GUID here"), None);

    let text = "First: 11111111-1111-1111-1111-111111111111, Second: 22222222-2222-2222-2222-222222222222";
    assert_eq!(
        extract_guid(text),
        Some("11111111-1111-1111-1111-111111111111".to_string())
    );
}

#[test]
fn test_extract_saunas_from_html() {
    let html = r#"
            <html>
                <body>
                    <table>
                        <tr class="iw-sauna-webgrid-row-style" data-sauna-id="364cc9db-86f1-49d1-86cd-f6ef9b20a490">
                            <td class="sauna-name">My Sauna</td>
                        </tr>
                    </table>
                </body>
            </html>
        "#;

    let saunas = extract_saunas_from_html(html).unwrap();
    assert_eq!(saunas.len(), 1);
    assert_eq!(saunas[0].id, "364cc9db-86f1-49d1-86cd-f6ef9b20a490");
    assert_eq!(saunas[0].name, "My Sauna");
}

#[test]
fn test_validate_sauna_id_valid() {
    assert!(validate_sauna_id("364cc9db-86f1-49d1-86cd-f6ef9b20a490").is_ok());
    assert!(validate_sauna_id("00000000-0000-0000-0000-000000000000").is_ok());
    assert!(validate_sauna_id("AAAAAAAA-BBBB-CCCC-DDDD-EEEEEEEEEEEE").is_ok());
}

#[test]
fn test_validate_sauna_id_invalid() {
    assert!(validate_sauna_id("").is_err());
    assert!(validate_sauna_id("not-a-uuid").is_err());
    assert!(validate_sauna_id("364cc9db-86f1-49d1").is_err());
    assert!(validate_sauna_id("364cc9db-86f1-49d1-86cd-f6ef9b20a490-extra").is_err());
}

#[test]
fn test_validate_pin_valid() {
    assert!(validate_pin("1234").is_ok());
    assert!(validate_pin("0000").is_ok());
    assert!(validate_pin("9999").is_ok());
}

#[test]
fn test_validate_pin_invalid() {
    // Too short
    assert!(validate_pin("123").is_err());
    // Too long
    assert!(validate_pin("12345").is_err());
    // Non-numeric
    assert!(validate_pin("abcd").is_err());
    assert!(validate_pin("12a4").is_err());
    // Empty
    assert!(validate_pin("").is_err());
    // Special characters
    assert!(validate_pin("12-4").is_err());
}

#[test]
fn test_validate_temperature_valid() {
    assert!(validate_temperature(10).is_ok());
    assert!(validate_temperature(50).is_ok());
    assert!(validate_temperature(100).is_ok());
}

#[test]
fn test_validate_temperature_invalid() {
    assert!(validate_temperature(9).is_err());
    assert!(validate_temperature(101).is_err());
    assert!(validate_temperature(0).is_err());
    assert!(validate_temperature(-10).is_err());
    assert!(validate_temperature(150).is_err());
}

#[test]
fn test_validate_sanarium_temperature_valid() {
    assert!(validate_sanarium_temperature(40).is_ok());
    assert!(validate_sanarium_temperature(60).is_ok());
    assert!(validate_sanarium_temperature(75).is_ok());
}

#[test]
fn test_validate_sanarium_temperature_invalid() {
    assert!(validate_sanarium_temperature(39).is_err());
    assert!(validate_sanarium_temperature(76).is_err());
    assert!(validate_sanarium_temperature(10).is_err());
    assert!(validate_sanarium_temperature(100).is_err());
}

#[test]
fn test_validate_humidity_level_valid() {
    assert!(validate_humidity_level(1).is_ok());
    assert!(validate_humidity_level(5).is_ok());
    assert!(validate_humidity_level(10).is_ok());
}

#[test]
fn test_validate_humidity_level_invalid() {
    assert!(validate_humidity_level(0).is_err());
    assert!(validate_humidity_level(11).is_err());
    assert!(validate_humidity_level(-1).is_err());
    assert!(validate_humidity_level(100).is_err());
}

#[test]
fn test_validate_hour_valid() {
    assert!(validate_hour(0).is_ok());
    assert!(validate_hour(12).is_ok());
    assert!(validate_hour(23).is_ok());
}

#[test]
fn test_validate_hour_invalid() {
    assert!(validate_hour(-1).is_err());
    assert!(validate_hour(24).is_err());
    assert!(validate_hour(100).is_err());
}

#[test]
fn test_validate_minute_valid() {
    assert!(validate_minute(0).is_ok());
    assert!(validate_minute(30).is_ok());
    assert!(validate_minute(59).is_ok());
}

#[test]
fn test_validate_minute_invalid() {
    assert!(validate_minute(-1).is_err());
    assert!(validate_minute(60).is_err());
    assert!(validate_minute(100).is_err());
}

#[test]
fn test_redact_body_form() {
    let debugger = HttpDebugger::new(DebugConfig::enabled());
    let body = "UserName=test@example.com&Password=secret123&Remember=true";
    let redacted = debugger.redact_body(body);
    assert!(redacted.contains("Password=REDACTED"));
    assert!(redacted.contains("UserName=test@example.com"));
}

#[test]
fn test_redact_body_json() {
    let debugger = HttpDebugger::new(DebugConfig::enabled());
    let body = r#"{"username":"test","password":"secret","pin":"1234"}"#;
    let redacted = debugger.redact_body(body);
    assert!(redacted.contains("REDACTED"));
    assert!(!redacted.contains("secret"));
    assert!(!redacted.contains("1234"));
}

#[test]
fn test_redact_header() {
    let debugger = HttpDebugger::new(DebugConfig::enabled());

    let cookie = debugger.redact_header("Cookie", ".ASPXAUTH=verylongtokenvalue");
    assert!(cookie.contains("REDACTED"));

    let content_type = debugger.redact_header("Content-Type", "application/json");
    assert_eq!(content_type, "application/json");
}
