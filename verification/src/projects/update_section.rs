use vstd::prelude::*;

use crate::errors::{result_is, AppError, AppErrorView};
use crate::projects::create_project::opt_view;
use crate::projects::create_section::{
    section_description_check, section_title_check, validate_section_description, validate_section_title,
};

verus! {

/// The body of `PATCH /api/projects/:id/sections/:id`. A field left out is not changed;
/// `description: Some(None)` clears the description.
#[derive(Debug)]
pub struct UpdateProjectSectionRequest {
    pub title: Option<String>,
    pub description: Option<Option<String>>,
    pub sort_order: Option<String>,
}

/// The first rule an update breaks: a new title, then a new description.
pub open spec fn update_section_check(
    title: Option<Seq<char>>,
    description: Option<Option<Seq<char>>>,
) -> Result<(), AppErrorView> {
    match title {
        Some(t) => match section_title_check(t) {
            Err(e) => Err(e),
            Ok(()) => match description {
                Some(d) => section_description_check(d),
                None => Ok(()),
            },
        },
        None => match description {
            Some(d) => section_description_check(d),
            None => Ok(()),
        },
    }
}

pub open spec fn nullable_view(o: Option<Option<String>>) -> Option<Option<Seq<char>>> {
    match o {
        Some(v) => Some(opt_view(v)),
        None => None,
    }
}

/// Checks an update of a section.
pub fn validate_update_request(request: &UpdateProjectSectionRequest) -> (r: Result<(), AppError>)
    ensures
        result_is(r, update_section_check(opt_view(request.title), nullable_view(request.description))),
{
    if let Some(t) = &request.title {
        validate_section_title(t.as_str())?;
    }
    if let Some(d) = &request.description {
        validate_section_description(d)?;
    }
    Ok(())
}

/// The fields of a section that an update can change.
#[derive(Debug)]
pub struct SectionFields {
    pub title: String,
    pub description: Option<String>,
    pub sort_order: Option<String>,
}

/// Writes the fields that the request sets into the section, leaving the others.
pub fn apply_section_update(section: &mut SectionFields, request: UpdateProjectSectionRequest)
    ensures
        final(section).title@ == match request.title {
            Some(t) => t@,
            None => old(section).title@,
        },
        opt_view(final(section).description) == match request.description {
            Some(d) => opt_view(d),
            None => opt_view(old(section).description),
        },
        opt_view(final(section).sort_order) == match request.sort_order {
            Some(s) => Some(s@),
            None => opt_view(old(section).sort_order),
        },
{
    if let Some(t) = request.title {
        section.title = t;
    }
    if let Some(d) = request.description {
        section.description = d;
    }
    if let Some(s) = request.sort_order {
        section.sort_order = Some(s);
    }
}

} // verus!
