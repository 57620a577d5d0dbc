use vstd::prelude::*;

use crate::area::colors::{first_hex_color, hex_color_pattern, regex_find};
use crate::errors::{result_is, single_field_error, validation_error, AppError, AppErrorView};
use crate::text::{is_blank, trim, trimmed};

verus! {

/// The body of `POST /api/areas/suggest-color`.
#[derive(Debug)]
pub struct SuggestColorRequest {
    pub area_name: String,
}

/// The answer: a `#RRGGBB` color.
#[derive(Debug)]
pub struct SuggestColorResponse {
    pub suggested_color: String,
}

/// The color used when the model's reply holds none.
pub open spec fn default_color() -> Seq<char> {
    "#4A90E2"@
}

/// The color in a model's reply: the first `#RRGGBB` in it, else the default blue.
pub open spec fn color_from_response(response: Seq<char>) -> Seq<char> {
    match first_hex_color(response) {
        Some(c) => c,
        None => default_color(),
    }
}

/// Reads the color out of the model's reply; never fails.
pub fn parse_color_from_response(response: &str) -> (r: Result<String, AppError>)
    ensures
        r matches Ok(c) && c@ == color_from_response(response@),
{
    proof {
        reveal_strlit("#[0-9A-Fa-f]{6}");
    }
    match regex_find("#[0-9A-Fa-f]{6}", response) {
        Some(m) => Ok(m),
        None => Ok("#4A90E2".to_owned()),
    }
}

/// The area name to ask about: trimmed, and not blank.
pub open spec fn area_name_check(name: Seq<char>) -> Result<Seq<char>, AppErrorView> {
    if is_blank(name) {
        Err(single_field_error("area_name"@, "Area 名称不能为空"@, "EMPTY_AREA_NAME"@))
    } else {
        Ok(trimmed(name))
    }
}

/// Checks the request and gives the trimmed area name.
pub fn validate_area_name(request: &SuggestColorRequest) -> (r: Result<String, AppError>)
    ensures
        result_is(r, area_name_check(request.area_name@)),
{
    let name = trim(request.area_name.as_str());
    if name.unicode_len() == 0 {
        return Err(validation_error("area_name", "Area 名称不能为空", "EMPTY_AREA_NAME"));
    }
    Ok(name.to_owned())
}

/// The user message sent to the model: `Area 名称: <name>`.
pub fn color_prompt_message(area_name: &str) -> (r: String)
    ensures
        r@ == "Area 名称: "@ + area_name@,
{
    let mut text = "Area 名称: ".to_owned();
    text.append(area_name);
    text
}

} // verus!
