use vstd::prelude::*;

use crate::errors::{result_is, single_field_error, validation_error, AppError, AppErrorView};
use crate::text::{is_blank, trim, trimmed};

verus! {

/// The body of `PATCH /api/shutdown-ritual/settings`: a new ritual title, or `None` to clear
/// it and fall back to the default.
#[derive(Debug)]
pub struct UpdateShutdownRitualSettingsRequest {
    pub title: Option<String>,
}

/// The settings after the update, as answered and as carried by the event.
#[derive(Debug)]
pub struct UpdateShutdownRitualSettingsResponse<Settings> {
    pub settings: Settings,
}

/// Longest ritual title, in characters after trimming.
pub const MAX_RITUAL_TITLE_CHARS: usize = 64;

/// A given title must not be blank and must have at most 64 characters once trimmed.
pub open spec fn settings_check(title: Option<Seq<char>>) -> Result<(), AppErrorView> {
    match title {
        Some(t) => if is_blank(t) {
            Err(single_field_error("title"@, "标题不能为空"@, "TITLE_EMPTY"@))
        } else if trimmed(t).len() > MAX_RITUAL_TITLE_CHARS {
            Err(single_field_error("title"@, "标题过长（最多 64 个字符）"@, "TITLE_TOO_LONG"@))
        } else {
            Ok(())
        },
        None => Ok(()),
    }
}

pub open spec fn opt_view(o: Option<String>) -> Option<Seq<char>> {
    match o {
        Some(s) => Some(s@),
        None => None,
    }
}

/// Checks a settings update.
pub fn validate_request(request: &UpdateShutdownRitualSettingsRequest) -> (r: Result<(), AppError>)
    ensures
        result_is(r, settings_check(opt_view(request.title))),
{
    if let Some(title) = &request.title {
        let t = trim(title.as_str());
        if t.unicode_len() == 0 {
            return Err(validation_error("title", "标题不能为空", "TITLE_EMPTY"));
        }
        if t.unicode_len() > MAX_RITUAL_TITLE_CHARS {
            return Err(validation_error("title", "标题过长（最多 64 个字符）", "TITLE_TOO_LONG"));
        }
    }
    Ok(())
}

/// The title stored: the given one trimmed, or none.
pub fn normalized_title(title: &Option<String>) -> (r: Option<String>)
    ensures
        opt_view(r) == match *title {
            Some(t) => Some(trimmed(t@)),
            None => None,
        },
{
    match title {
        Some(t) => Some(trim(t.as_str()).to_owned()),
        None => None,
    }
}

/// A new ritual title is accepted exactly when, once trimmed, it has between 1 and 64
/// characters; leaving the title out is always accepted.
pub proof fn ritual_title_accepted_exactly_within_limits(title: Option<Seq<char>>)
    ensures
        settings_check(title) is Ok <==> (title matches Some(t) ==> (!is_blank(t) && trimmed(t).len() <= 64)),
{
}

} // verus!
