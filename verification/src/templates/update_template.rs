use vstd::prelude::*;

use crate::entities::{copy_subtasks, subtasks_view, Subtask, SubtaskView, TemplateCategory};
use crate::errors::{AppError, FieldError, FieldErrorView};
use crate::recurrences::batch_update_instances::{
    column_if, copy_nullable_text, nullable_int_param, nullable_subtasks_field_view, nullable_text_field_view,
    nullable_text_param, nullable_uuid_param, opt_text_view, text_param,
};
use crate::recurrences::batch_update_template_and_instances::nullable_subtasks_param;
use crate::sql::{
    assignments, assignments_text, texts_of_strs, values_view, writes_column, SqlValue, SqlValueView, UpdatePlan,
};
use crate::templates::create_template::{duration_errors, push_duration_errors};
use crate::validation::{check_result, errors_result, field_errors_view, push_title_errors, result_of_errors, title_errors};

verus! {

/// The body of `PATCH /api/templates/:id`. A field left out is not changed; for the
/// nullable fields `Some(None)` clears the value.
#[derive(Debug)]
pub struct UpdateTemplateRequest {
    pub title: Option<String>,
    pub glance_note_template: Option<Option<String>>,
    pub detail_note_template: Option<Option<String>>,
    pub estimated_duration_template: Option<Option<i32>>,
    pub subtasks_template: Option<Option<Vec<Subtask>>>,
    pub area_id: Option<Option<u128>>,
    pub category: Option<TemplateCategory>,
}

/// Every rule an update breaks, in order: a new title's, then a new estimate's.
pub open spec fn update_template_errors(r: UpdateTemplateRequest) -> Seq<FieldErrorView> {
    (match r.title {
        Some(t) => title_errors(t@),
        None => seq![],
    }) + duration_errors(
        match r.estimated_duration_template {
            Some(d) => d,
            None => None,
        },
    )
}

/// Checks a template update, reporting every broken rule at once.
pub fn validate_request(request: &UpdateTemplateRequest) -> (r: Result<(), AppError>)
    ensures
        check_result(r, errors_result(update_template_errors(*request))),
{
    let mut errors: Vec<FieldError> = Vec::new();
    assert(field_errors_view(errors@) =~= Seq::<FieldErrorView>::empty());
    if let Some(t) = &request.title {
        push_title_errors(&mut errors, t.as_str());
    }
    let duration = match request.estimated_duration_template {
        Some(d) => d,
        None => None,
    };
    push_duration_errors(&mut errors, duration);
    assert(field_errors_view(errors@) =~= update_template_errors(*request));
    result_of_errors(errors)
}

/// The template columns the update writes, `updated_at` last when any is.
pub open spec fn template_update_columns(r: UpdateTemplateRequest) -> Seq<Seq<char>> {
    first_columns(r) + last_columns(r) + seq!["updated_at"@]
}

pub open spec fn category_param(c: Option<TemplateCategory>) -> Seq<SqlValueView> {
    match c {
        Some(k) => seq![SqlValueView::Category(k)],
        None => seq![],
    }
}

/// The values bound to those columns before `updated_at`, in order.
pub open spec fn template_update_params(r: UpdateTemplateRequest) -> Seq<SqlValueView> {
    first_params(r) + last_params(r)
}

pub open spec fn has_updates(r: UpdateTemplateRequest) -> bool {
    r.title is Some || r.glance_note_template is Some || r.detail_note_template is Some
        || r.estimated_duration_template is Some || r.subtasks_template is Some || r.area_id is Some
        || r.category is Some
}

fn copy_nullable_subtasks(o: &Option<Vec<Subtask>>) -> (r: Option<Vec<Subtask>>)
    ensures
        nullable_subtasks_field_view(Some(r)) == nullable_subtasks_field_view(Some(*o)),
{
    match o {
        Some(v) => Some(copy_subtasks(v)),
        None => None,
    }
}

pub open spec fn first_columns(r: UpdateTemplateRequest) -> Seq<Seq<char>> {
    column_if(r.title is Some, "title"@) + column_if(r.glance_note_template is Some, "glance_note_template"@)
        + column_if(r.detail_note_template is Some, "detail_note_template"@) + column_if(
        r.estimated_duration_template is Some,
        "estimated_duration_template"@,
    )
}

pub open spec fn first_params(r: UpdateTemplateRequest) -> Seq<SqlValueView> {
    text_param(opt_text_view(r.title)) + nullable_text_param(nullable_text_field_view(r.glance_note_template))
        + nullable_text_param(nullable_text_field_view(r.detail_note_template)) + nullable_int_param(
        r.estimated_duration_template,
    )
}

pub open spec fn last_columns(r: UpdateTemplateRequest) -> Seq<Seq<char>> {
    column_if(r.subtasks_template is Some, "subtasks_template"@) + column_if(r.area_id is Some, "area_id"@)
        + column_if(r.category is Some, "category"@)
}

pub open spec fn last_params(r: UpdateTemplateRequest) -> Seq<SqlValueView> {
    nullable_subtasks_param(nullable_subtasks_field_view(r.subtasks_template)) + nullable_uuid_param(r.area_id)
        + category_param(r.category)
}

fn push_first_fields(request: &UpdateTemplateRequest, columns: &mut Vec<&str>, params: &mut Vec<SqlValue>)
    requires
        old(columns)@.len() == 0,
        old(params)@.len() == 0,
    ensures
        texts_of_strs(final(columns)@) == first_columns(*request),
        values_view(final(params)@) == first_params(*request),
{
    proof {
        assert(texts_of_strs(columns@) =~= Seq::<Seq<char>>::empty());
        assert(values_view(params@) =~= Seq::<SqlValueView>::empty());
    }
    if let Some(t) = &request.title {
        columns.push("title");
        params.push(SqlValue::Text(t.clone()));
    }
    let ghost c1 = column_if(request.title is Some, "title"@);
    let ghost p1 = text_param(opt_text_view(request.title));
    assert(texts_of_strs(columns@) =~= c1);
    assert(values_view(params@) =~= p1);
    if let Some(o) = &request.glance_note_template {
        columns.push("glance_note_template");
        params.push(SqlValue::NullableText(copy_nullable_text(o)));
    }
    let ghost c2 = column_if(request.glance_note_template is Some, "glance_note_template"@);
    let ghost p2 = nullable_text_param(nullable_text_field_view(request.glance_note_template));
    assert(texts_of_strs(columns@) =~= c1 + c2);
    assert(values_view(params@) =~= p1 + p2);
    if let Some(o) = &request.detail_note_template {
        columns.push("detail_note_template");
        params.push(SqlValue::NullableText(copy_nullable_text(o)));
    }
    let ghost c3 = column_if(request.detail_note_template is Some, "detail_note_template"@);
    let ghost p3 = nullable_text_param(nullable_text_field_view(request.detail_note_template));
    assert(texts_of_strs(columns@) =~= c1 + c2 + c3);
    assert(values_view(params@) =~= p1 + p2 + p3);
    if let Some(o) = &request.estimated_duration_template {
        columns.push("estimated_duration_template");
        params.push(SqlValue::NullableInt(*o));
    }
    assert(texts_of_strs(columns@) =~= first_columns(*request));
    assert(values_view(params@) =~= first_params(*request));
}

fn push_last_fields(request: &UpdateTemplateRequest, columns: &mut Vec<&str>, params: &mut Vec<SqlValue>)
    ensures
        texts_of_strs(final(columns)@) == texts_of_strs(old(columns)@) + last_columns(*request),
        values_view(final(params)@) == values_view(old(params)@) + last_params(*request),
{
    let ghost c0 = texts_of_strs(columns@);
    let ghost p0 = values_view(params@);
    if let Some(o) = &request.subtasks_template {
        columns.push("subtasks_template");
        params.push(SqlValue::NullableSubtasks(copy_nullable_subtasks(o)));
    }
    let ghost c1 = column_if(request.subtasks_template is Some, "subtasks_template"@);
    let ghost p1 = nullable_subtasks_param(nullable_subtasks_field_view(request.subtasks_template));
    assert(texts_of_strs(columns@) =~= c0 + c1);
    assert(values_view(params@) =~= p0 + p1);
    if let Some(o) = &request.area_id {
        columns.push("area_id");
        params.push(SqlValue::NullableUuid(*o));
    }
    let ghost c2 = column_if(request.area_id is Some, "area_id"@);
    let ghost p2 = nullable_uuid_param(request.area_id);
    assert(texts_of_strs(columns@) =~= c0 + c1 + c2);
    assert(values_view(params@) =~= p0 + p1 + p2);
    if let Some(c) = request.category {
        columns.push("category");
        params.push(SqlValue::Category(c));
    }
    assert(texts_of_strs(columns@) =~= c0 + last_columns(*request));
    assert(values_view(params@) =~= p0 + last_params(*request));
}

proof fn lemma_update_columns_len(r: UpdateTemplateRequest)
    ensures
        has_updates(r) <==> (first_columns(r) + last_columns(r)).len() > 0,
{
    assert(first_columns(r).len() == (if r.title is Some { 1int } else { 0 }) + (if r.glance_note_template is Some { 1int } else { 0 })
        + (if r.detail_note_template is Some { 1int } else { 0 }) + (if r.estimated_duration_template is Some { 1int } else { 0 }));
    assert(last_columns(r).len() == (if r.subtasks_template is Some { 1int } else { 0 }) + (if r.area_id is Some { 1int } else { 0 })
        + (if r.category is Some { 1int } else { 0 }));
}

/// The SET clause and values of the template UPDATE; `None` when the request sets no
/// field, in which case nothing is written.
pub fn update_plan(request: &UpdateTemplateRequest) -> (r: Option<UpdatePlan>)
    ensures
        has_updates(*request) ==> (r matches Some(p) && p.set_clause@ == assignments_text(
            template_update_columns(*request),
        ) && values_view(p.params@) == template_update_params(*request)),
        !has_updates(*request) ==> r is None,
{
    let mut columns: Vec<&str> = Vec::new();
    let mut params: Vec<SqlValue> = Vec::new();
    push_first_fields(request, &mut columns, &mut params);
    push_last_fields(request, &mut columns, &mut params);
    assert(texts_of_strs(columns@) =~= first_columns(*request) + last_columns(*request));
    assert(values_view(params@) =~= template_update_params(*request));
    proof {
        lemma_update_columns_len(*request);
    }
    if columns.len() == 0 {
        return None;
    }
    let ghost before = columns@;
    columns.push("updated_at");
    assert(texts_of_strs(columns@) =~= texts_of_strs(before).push("updated_at"@));
    assert(texts_of_strs(columns@) =~= template_update_columns(*request));
    Some(UpdatePlan { set_clause: assignments(&columns), params })
}


proof fn lemma_template_lengths(r: UpdateTemplateRequest)
    ensures
        template_update_columns(r).len() == template_update_params(r).len() + 1,
        template_update_columns(r).last() == "updated_at"@,
        column_if(r.title is Some, "title"@).len() == text_param(opt_text_view(r.title)).len(),
        column_if(r.glance_note_template is Some, "glance_note_template"@).len() == nullable_text_param(nullable_text_field_view(r.glance_note_template)).len(),
        column_if(r.detail_note_template is Some, "detail_note_template"@).len() == nullable_text_param(nullable_text_field_view(r.detail_note_template)).len(),
        column_if(r.estimated_duration_template is Some, "estimated_duration_template"@).len() == nullable_int_param(r.estimated_duration_template).len(),
        column_if(r.subtasks_template is Some, "subtasks_template"@).len() == nullable_subtasks_param(nullable_subtasks_field_view(r.subtasks_template)).len(),
        column_if(r.area_id is Some, "area_id"@).len() == nullable_uuid_param(r.area_id).len(),
        column_if(r.category is Some, "category"@).len() == category_param(r.category).len(),
{
}

#[verifier::spinoff_prover]
proof fn lemma_template_writes_title(r: UpdateTemplateRequest)
    ensures
        r.title matches Some(t) ==> writes_column(template_update_columns(r), template_update_params(r), "title"@, SqlValueView::Text(t@)),
{
    if let Some(t) = r.title {
        lemma_template_lengths(r);
        let i: int = 0;
        assert(template_update_columns(r)[i] == "title"@);
        assert(template_update_params(r)[i] == SqlValueView::Text(t@));
    }
}

#[verifier::spinoff_prover]
proof fn lemma_template_writes_glance_note(r: UpdateTemplateRequest)
    ensures
        r.glance_note_template matches Some(g) ==> writes_column(template_update_columns(r), template_update_params(r), "glance_note_template"@, SqlValueView::NullableText(opt_text_view(g))),
{
    if let Some(g) = r.glance_note_template {
        lemma_template_lengths(r);
        let i: int = (
            column_if(r.title is Some, "title"@).len()
        ) as int;
        assert(template_update_columns(r)[i] == "glance_note_template"@);
        assert(template_update_params(r)[i] == SqlValueView::NullableText(opt_text_view(g)));
    }
}

#[verifier::spinoff_prover]
proof fn lemma_template_writes_detail_note(r: UpdateTemplateRequest)
    ensures
        r.detail_note_template matches Some(d) ==> writes_column(template_update_columns(r), template_update_params(r), "detail_note_template"@, SqlValueView::NullableText(opt_text_view(d))),
{
    if let Some(d) = r.detail_note_template {
        lemma_template_lengths(r);
        let i: int = (
            column_if(r.title is Some, "title"@).len()
            + column_if(r.glance_note_template is Some, "glance_note_template"@).len()
        ) as int;
        assert(template_update_columns(r)[i] == "detail_note_template"@);
        assert(template_update_params(r)[i] == SqlValueView::NullableText(opt_text_view(d)));
    }
}

#[verifier::spinoff_prover]
proof fn lemma_template_writes_estimated_duration(r: UpdateTemplateRequest)
    ensures
        r.estimated_duration_template matches Some(e) ==> writes_column(template_update_columns(r), template_update_params(r), "estimated_duration_template"@, SqlValueView::NullableInt(e)),
{
    if let Some(e) = r.estimated_duration_template {
        lemma_template_lengths(r);
        let i: int = (
            column_if(r.title is Some, "title"@).len()
            + column_if(r.glance_note_template is Some, "glance_note_template"@).len()
            + column_if(r.detail_note_template is Some, "detail_note_template"@).len()
        ) as int;
        assert(template_update_columns(r)[i] == "estimated_duration_template"@);
        assert(template_update_params(r)[i] == SqlValueView::NullableInt(e));
    }
}

#[verifier::spinoff_prover]
proof fn lemma_template_writes_subtasks(r: UpdateTemplateRequest)
    ensures
        r.subtasks_template matches Some(s) ==> writes_column(template_update_columns(r), template_update_params(r), "subtasks_template"@, SqlValueView::NullableSubtasks(match s { Some(v) => Some(subtasks_view(v@)), None => None })),
{
    if let Some(s) = r.subtasks_template {
        lemma_template_lengths(r);
        let i: int = (
            column_if(r.title is Some, "title"@).len()
            + column_if(r.glance_note_template is Some, "glance_note_template"@).len()
            + column_if(r.detail_note_template is Some, "detail_note_template"@).len()
            + column_if(r.estimated_duration_template is Some, "estimated_duration_template"@).len()
        ) as int;
        assert(template_update_columns(r)[i] == "subtasks_template"@);
        assert(template_update_params(r)[i] == SqlValueView::NullableSubtasks(match s { Some(v) => Some(subtasks_view(v@)), None => None }));
    }
}

#[verifier::spinoff_prover]
proof fn lemma_template_writes_area_id(r: UpdateTemplateRequest)
    ensures
        r.area_id matches Some(a) ==> writes_column(template_update_columns(r), template_update_params(r), "area_id"@, SqlValueView::NullableUuid(a)),
{
    if let Some(a) = r.area_id {
        lemma_template_lengths(r);
        let i: int = (
            column_if(r.title is Some, "title"@).len()
            + column_if(r.glance_note_template is Some, "glance_note_template"@).len()
            + column_if(r.detail_note_template is Some, "detail_note_template"@).len()
            + column_if(r.estimated_duration_template is Some, "estimated_duration_template"@).len()
            + column_if(r.subtasks_template is Some, "subtasks_template"@).len()
        ) as int;
        assert(template_update_columns(r)[i] == "area_id"@);
        assert(template_update_params(r)[i] == SqlValueView::NullableUuid(a));
    }
}

#[verifier::spinoff_prover]
proof fn lemma_template_writes_category(r: UpdateTemplateRequest)
    ensures
        r.category matches Some(c) ==> writes_column(template_update_columns(r), template_update_params(r), "category"@, SqlValueView::Category(c)),
{
    if let Some(c) = r.category {
        lemma_template_lengths(r);
        let i: int = (
            column_if(r.title is Some, "title"@).len()
            + column_if(r.glance_note_template is Some, "glance_note_template"@).len()
            + column_if(r.detail_note_template is Some, "detail_note_template"@).len()
            + column_if(r.estimated_duration_template is Some, "estimated_duration_template"@).len()
            + column_if(r.subtasks_template is Some, "subtasks_template"@).len()
            + column_if(r.area_id is Some, "area_id"@).len()
        ) as int;
        assert(template_update_columns(r)[i] == "category"@);
        assert(template_update_params(r)[i] == SqlValueView::Category(c));
    }
}

/// Every field a template update sets is written: its column stands where its value is
/// bound (the title as text, the notes as nullable text, the estimate as a nullable integer,
/// the subtasks as their list or NULL, the area as a nullable UUID, the category as its
/// name), every bound value has its column, and `updated_at` comes last.
pub proof fn template_update_writes_each_set_field(r: UpdateTemplateRequest)
    ensures
        template_update_columns(r).len() == template_update_params(r).len() + 1,
        template_update_columns(r).last() == "updated_at"@,
        r.title matches Some(t) ==> writes_column(template_update_columns(r), template_update_params(r), "title"@, SqlValueView::Text(t@)),
        r.glance_note_template matches Some(g) ==> writes_column(template_update_columns(r), template_update_params(r), "glance_note_template"@, SqlValueView::NullableText(opt_text_view(g))),
        r.detail_note_template matches Some(d) ==> writes_column(template_update_columns(r), template_update_params(r), "detail_note_template"@, SqlValueView::NullableText(opt_text_view(d))),
        r.estimated_duration_template matches Some(e) ==> writes_column(template_update_columns(r), template_update_params(r), "estimated_duration_template"@, SqlValueView::NullableInt(e)),
        r.subtasks_template matches Some(s) ==> writes_column(template_update_columns(r), template_update_params(r), "subtasks_template"@, SqlValueView::NullableSubtasks(match s { Some(v) => Some(subtasks_view(v@)), None => None })),
        r.area_id matches Some(a) ==> writes_column(template_update_columns(r), template_update_params(r), "area_id"@, SqlValueView::NullableUuid(a)),
        r.category matches Some(c) ==> writes_column(template_update_columns(r), template_update_params(r), "category"@, SqlValueView::Category(c)),
{
    lemma_template_lengths(r);
    lemma_template_writes_title(r);
    lemma_template_writes_glance_note(r);
    lemma_template_writes_detail_note(r);
    lemma_template_writes_estimated_duration(r);
    lemma_template_writes_subtasks(r);
    lemma_template_writes_area_id(r);
    lemma_template_writes_category(r);
}

/// The template is written when the request sets any one of its fields, whichever it is,
/// and left alone only when the request sets none.
pub proof fn template_written_when_any_field_is_set(r: UpdateTemplateRequest)
    ensures
        r.title is Some ==> has_updates(r),
        r.glance_note_template is Some ==> has_updates(r),
        r.detail_note_template is Some ==> has_updates(r),
        r.estimated_duration_template is Some ==> has_updates(r),
        r.subtasks_template is Some ==> has_updates(r),
        r.area_id is Some ==> has_updates(r),
        r.category is Some ==> has_updates(r),
        r.title is None && r.glance_note_template is None && r.detail_note_template is None
            && r.estimated_duration_template is None && r.subtasks_template is None && r.area_id is None
            && r.category is None ==> !has_updates(r),
{
}

} // verus!
