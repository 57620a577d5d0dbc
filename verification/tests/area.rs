use cutie::area::colors::validate_color;
use cutie::area::suggest_color::{parse_color_from_response, validate_area_name, SuggestColorRequest};

#[test]
fn test_parse_color_from_response() {
    assert_eq!(parse_color_from_response("#4A90E2").unwrap(), "#4A90E2");
    assert_eq!(
        parse_color_from_response("推荐颜色是 #56C568").unwrap(),
        "#56C568"
    );
    assert_eq!(
        parse_color_from_response("这是一个无效的响应").unwrap(),
        "#4A90E2"
    );
}

#[test]
fn parse_color_takes_first_of_several() {
    assert_eq!(parse_color_from_response("#12 #abcdef then #ABCDEF").unwrap(), "#abcdef");
}

#[test]
fn validate_color_accepts_only_rrggbb() {
    assert!(validate_color("#4A90E2"));
    assert!(validate_color("#abcdef"));
    assert!(!validate_color("4A90E2"));
    assert!(!validate_color("#4A90E"));
    assert!(!validate_color("#4A90E2F"));
    assert!(!validate_color("#4G90E2"));
}

#[test]
fn area_name_is_trimmed_and_required() {
    let ok = validate_area_name(&SuggestColorRequest { area_name: "  工作  ".to_string() }).unwrap();
    assert_eq!(ok, "工作");
    assert!(validate_area_name(&SuggestColorRequest { area_name: "   ".to_string() }).is_err());
}
