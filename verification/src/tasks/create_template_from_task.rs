use vstd::prelude::*;

use crate::entities::{copy_subtasks, subtasks_view, Subtask, TemplateCategory};
use crate::text::str_eq;

verus! {

/// The body of `POST /api/tasks/:id/create-template`: an optional title (the task's by
/// default) and category (`RECURRENCE`, else general).
#[derive(Debug)]
pub struct CreateTemplateFromTaskRequest {
    pub title: Option<String>,
    pub category: Option<String>,
}

/// The content of the task a template is made from.
#[derive(Debug)]
pub struct TaskContent {
    pub title: String,
    pub glance_note: Option<String>,
    pub detail_note: Option<String>,
    pub estimated_duration: Option<i32>,
    pub subtasks: Option<Vec<Subtask>>,
    pub area_id: Option<u128>,
}

/// The content of a new template.
#[derive(Debug)]
pub struct TemplateDraft {
    pub title: String,
    pub glance_note_template: Option<String>,
    pub detail_note_template: Option<String>,
    pub estimated_duration_template: Option<i32>,
    pub subtasks_template: Option<Vec<Subtask>>,
    pub area_id: Option<u128>,
    pub category: TemplateCategory,
}

/// `RECURRENCE` makes a recurrence template; anything else, or nothing, a general one.
pub open spec fn category_named(c: Option<Seq<char>>) -> TemplateCategory {
    if c == Some("RECURRENCE"@) { TemplateCategory::Recurrence } else { TemplateCategory::General }
}

pub open spec fn opt_view(o: Option<String>) -> Option<Seq<char>> {
    match o {
        Some(s) => Some(s@),
        None => None,
    }
}

/// Reads the requested category.
pub fn template_category(category: &Option<String>) -> (r: TemplateCategory)
    ensures
        r == category_named(opt_view(*category)),
{
    match category {
        Some(c) => {
            if str_eq(c.as_str(), "RECURRENCE") {
                TemplateCategory::Recurrence
            } else {
                TemplateCategory::General
            }
        },
        None => TemplateCategory::General,
    }
}

fn copy_opt(o: &Option<String>) -> (r: Option<String>)
    ensures
        opt_view(r) == opt_view(*o),
{
    match o {
        Some(s) => Some(s.clone()),
        None => None,
    }
}

/// The new template: the requested title or the task's, the task's notes, estimate,
/// subtasks and area, and the requested category.
pub fn template_from_task(task: &TaskContent, request: &CreateTemplateFromTaskRequest) -> (r: TemplateDraft)
    ensures
        r.title@ == match request.title {
            Some(t) => t@,
            None => task.title@,
        },
        opt_view(r.glance_note_template) == opt_view(task.glance_note),
        opt_view(r.detail_note_template) == opt_view(task.detail_note),
        r.estimated_duration_template == task.estimated_duration,
        match (r.subtasks_template, task.subtasks) {
            (Some(a), Some(b)) => subtasks_view(a@) == subtasks_view(b@),
            (None, None) => true,
            _ => false,
        },
        r.area_id == task.area_id,
        r.category == category_named(opt_view(request.category)),
{
    let title = match &request.title {
        Some(t) => t.clone(),
        None => task.title.clone(),
    };
    let subtasks = match &task.subtasks {
        Some(v) => Some(copy_subtasks(v)),
        None => None,
    };
    TemplateDraft {
        title,
        glance_note_template: copy_opt(&task.glance_note),
        detail_note_template: copy_opt(&task.detail_note),
        estimated_duration_template: task.estimated_duration,
        subtasks_template: subtasks,
        area_id: task.area_id,
        category: template_category(&request.category),
    }
}

} // verus!
