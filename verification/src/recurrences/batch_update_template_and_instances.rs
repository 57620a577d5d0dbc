use vstd::prelude::*;

use crate::entities::{copy_subtasks, subtasks_view, Subtask, SubtaskView};
use crate::recurrences::batch_update_instances::{
    column_if, copy_nullable_text, nullable_int_param, nullable_subtasks_field_view,
    nullable_text_field_view, nullable_text_param, nullable_uuid_param, opt_text_view, text_param,
    BatchUpdateFieldsView, BatchUpdateInstancesRequest,
};
use crate::errors::{single_field_error, validation_error, AppError, AppErrorView};
use crate::ids::{parse_uuid, uuid_parse_outcome};
use crate::sql::{
    assignments, assignments_text, texts_of_strs, values_view, writes_column, SqlValue, SqlValueView, UpdatePlan,
};

verus! {

/// The body of `PATCH /api/recurrences/:id/template-and-instances`: the fields to write
/// into the recurrence's template and, in the same transaction, into its uncompleted
/// instances. A field left out is not changed; for the nullable fields `Some(None)` clears
/// the value.
#[derive(Debug)]
pub struct BatchUpdateTemplateAndInstancesRequest {
    pub title: Option<String>,
    pub glance_note: Option<Option<String>>,
    pub detail_note: Option<Option<String>>,
    pub estimated_duration: Option<Option<i32>>,
    pub area_id: Option<Option<u128>>,
    pub subtasks: Option<Option<Vec<Subtask>>>,
    /// Only instances on or after this day (`YYYY-MM-DD`); all uncompleted ones when absent.
    pub update_from_date: Option<String>,
}

/// Whether the template was written, and how many instances were.
#[derive(Debug)]
pub struct BatchUpdateTemplateAndInstancesResponse {
    pub template_updated: bool,
    pub instances_updated_count: usize,
}

impl View for BatchUpdateTemplateAndInstancesRequest {
    type V = BatchUpdateFieldsView;

    open spec fn view(&self) -> BatchUpdateFieldsView {
        BatchUpdateFieldsView {
            title: opt_text_view(self.title),
            glance_note: nullable_text_field_view(self.glance_note),
            detail_note: nullable_text_field_view(self.detail_note),
            estimated_duration: self.estimated_duration,
            area_id: self.area_id,
            subtasks: nullable_subtasks_field_view(self.subtasks),
            update_from_date: opt_text_view(self.update_from_date),
        }
    }
}

/// The template is written when the request sets any field, the subtasks included.
pub open spec fn has_template_updates(r: BatchUpdateFieldsView) -> bool {
    r.title is Some || r.glance_note is Some || r.detail_note is Some || r.estimated_duration is Some
        || r.area_id is Some || r.subtasks is Some
}

/// The template columns written, in statement order; `updated_at` last.
pub open spec fn template_columns(r: BatchUpdateFieldsView) -> Seq<Seq<char>> {
    column_if(r.title is Some, "title"@) + column_if(r.glance_note is Some, "glance_note_template"@)
        + column_if(r.detail_note is Some, "detail_note_template"@) + column_if(
        r.estimated_duration is Some,
        "estimated_duration_template"@,
    ) + column_if(r.area_id is Some, "area_id"@) + column_if(
        r.subtasks is Some,
        "subtasks_template"@,
    ) + seq!["updated_at"@]
}

pub open spec fn nullable_subtasks_param(o: Option<Option<Seq<SubtaskView>>>) -> Seq<SqlValueView> {
    match o {
        Some(v) => seq![SqlValueView::NullableSubtasks(v)],
        None => seq![],
    }
}

/// The values bound to the columns of `template_columns` other than `updated_at`, in order.
pub open spec fn template_params(r: BatchUpdateFieldsView) -> Seq<SqlValueView> {
    text_param(r.title) + nullable_text_param(r.glance_note) + nullable_text_param(r.detail_note)
        + nullable_int_param(r.estimated_duration) + nullable_uuid_param(r.area_id)
        + nullable_subtasks_param(r.subtasks)
}

fn copy_nullable_subtasks(o: &Option<Vec<Subtask>>) -> (r: Option<Vec<Subtask>>)
    ensures
        nullable_subtasks_field_view(Some(r)) == nullable_subtasks_field_view(Some(*o)),
{
    match o {
        Some(v) => Some(copy_subtasks(v)),
        None => None,
    }
}

/// The SET clause and values of the template UPDATE; `None` when the request sets no field,
/// in which case the template is left as it is.
#[verifier::rlimit(40)]
pub fn template_update_plan(request: &BatchUpdateTemplateAndInstancesRequest) -> (r: Option<UpdatePlan>)
    ensures
        has_template_updates(request@) ==> (r matches Some(p) && p.set_clause@ == assignments_text(
            template_columns(request@),
        ) && values_view(p.params@) == template_params(request@)),
        !has_template_updates(request@) ==> r is None,
{
    let mut columns: Vec<&str> = Vec::new();
    let mut params: Vec<SqlValue> = Vec::new();
    proof {
        assert(texts_of_strs(columns@) =~= Seq::<Seq<char>>::empty());
        assert(values_view(params@) =~= Seq::<SqlValueView>::empty());
    }
    if let Some(t) = &request.title {
        columns.push("title");
        params.push(SqlValue::Text(t.clone()));
    }
    let ghost c1 = column_if(request@.title is Some, "title"@);
    let ghost p1 = text_param(request@.title);
    assert(texts_of_strs(columns@) =~= c1);
    assert(values_view(params@) =~= p1);
    if let Some(o) = &request.glance_note {
        columns.push("glance_note_template");
        params.push(SqlValue::NullableText(copy_nullable_text(o)));
    }
    let ghost c2 = column_if(request@.glance_note is Some, "glance_note_template"@);
    let ghost p2 = nullable_text_param(request@.glance_note);
    assert(texts_of_strs(columns@) =~= c1 + c2);
    assert(values_view(params@) =~= p1 + p2);
    if let Some(o) = &request.detail_note {
        columns.push("detail_note_template");
        params.push(SqlValue::NullableText(copy_nullable_text(o)));
    }
    let ghost c3 = column_if(request@.detail_note is Some, "detail_note_template"@);
    let ghost p3 = nullable_text_param(request@.detail_note);
    assert(texts_of_strs(columns@) =~= c1 + c2 + c3);
    assert(values_view(params@) =~= p1 + p2 + p3);
    if let Some(o) = &request.estimated_duration {
        columns.push("estimated_duration_template");
        params.push(SqlValue::NullableInt(*o));
    }
    let ghost c4 = column_if(request@.estimated_duration is Some, "estimated_duration_template"@);
    let ghost p4 = nullable_int_param(request@.estimated_duration);
    assert(texts_of_strs(columns@) =~= c1 + c2 + c3 + c4);
    assert(values_view(params@) =~= p1 + p2 + p3 + p4);
    if let Some(o) = &request.area_id {
        columns.push("area_id");
        params.push(SqlValue::NullableUuid(*o));
    }
    let ghost c5 = column_if(request@.area_id is Some, "area_id"@);
    let ghost p5 = nullable_uuid_param(request@.area_id);
    assert(texts_of_strs(columns@) =~= c1 + c2 + c3 + c4 + c5);
    assert(values_view(params@) =~= p1 + p2 + p3 + p4 + p5);
    if let Some(o) = &request.subtasks {
        columns.push("subtasks_template");
        params.push(SqlValue::NullableSubtasks(copy_nullable_subtasks(o)));
    }
    let ghost c6 = column_if(request@.subtasks is Some, "subtasks_template"@);
    let ghost p6 = nullable_subtasks_param(request@.subtasks);
    assert(texts_of_strs(columns@) =~= c1 + c2 + c3 + c4 + c5 + c6);
    assert(values_view(params@) =~= p1 + p2 + p3 + p4 + p5 + p6);
    if columns.len() == 0 {
        return None;
    }
    columns.push("updated_at");
    assert(texts_of_strs(columns@) =~= c1 + c2 + c3 + c4 + c5 + c6 + seq!["updated_at"@]);
    Some(UpdatePlan { set_clause: assignments(&columns), params })
}

/// `UPDATE templates SET <set clause> WHERE id = ?`.
pub open spec fn template_update_sql_text(set_clause: Seq<char>) -> Seq<char> {
    "UPDATE templates SET "@ + set_clause + " WHERE id = ?"@
}

/// The statement of the template UPDATE.
pub fn template_update_sql(plan: &UpdatePlan) -> (r: String)
    ensures
        r@ == template_update_sql_text(plan.set_clause@),
{
    let mut sql = "UPDATE templates SET ".to_owned();
    sql.append(plan.set_clause.as_str());
    sql.append(" WHERE id = ?");
    sql
}

impl BatchUpdateTemplateAndInstancesRequest {
    /// The same fields as a request of the instance batch update, which the instances of
    /// the recurrence receive.
    pub fn instances_request(&self) -> (r: BatchUpdateInstancesRequest)
        ensures
            r@ == self@,
    {
        let title = match &self.title {
            Some(t) => Some(t.clone()),
            None => None,
        };
        let glance_note = match &self.glance_note {
            Some(o) => Some(copy_nullable_text(o)),
            None => None,
        };
        let detail_note = match &self.detail_note {
            Some(o) => Some(copy_nullable_text(o)),
            None => None,
        };
        let subtasks = match &self.subtasks {
            Some(o) => Some(copy_nullable_subtasks(o)),
            None => None,
        };
        let update_from_date = match &self.update_from_date {
            Some(t) => Some(t.clone()),
            None => None,
        };
        let r = BatchUpdateInstancesRequest {
            title,
            glance_note,
            detail_note,
            estimated_duration: self.estimated_duration,
            area_id: self.area_id,
            subtasks,
            update_from_date,
        };
        assert(r@.subtasks == self@.subtasks);
        r
    }
}

/// The count this endpoint reports for the instances: the rows whose subtasks were
/// rewritten plus the rows of the field UPDATE, when one ran.
pub fn template_and_instances_updated_count(subtask_rows: usize, field_rows: Option<usize>) -> (r: usize)
    requires
        subtask_rows + match field_rows {
            Some(n) => n as int,
            None => 0,
        } <= usize::MAX,
    ensures
        r == subtask_rows + match field_rows {
            Some(n) => n as int,
            None => 0,
        },
{
    match field_rows {
        Some(n) => subtask_rows + n,
        None => subtask_rows,
    }
}


/// A stored id that must be a UUID: its value, or `INVALID_UUID` on `field` quoting the
/// parse error.
pub open spec fn stored_uuid_check(field: Seq<char>, text: Seq<char>) -> Result<u128, AppErrorView> {
    match uuid_parse_outcome(text) {
        Ok(id) => Ok(id),
        Err(m) => Err(single_field_error(field, "Invalid UUID: "@ + m, "INVALID_UUID"@)),
    }
}

/// Reads a stored id (the template of a recurrence, a task of an instance).
pub fn parse_stored_uuid(field: &str, text: &str) -> (r: Result<u128, AppError>)
    ensures
        match stored_uuid_check(field@, text@) {
            Ok(id) => r == Ok::<u128, AppError>(id),
            Err(e) => r matches Err(x) && x@ == e,
        },
{
    match parse_uuid(text) {
        Ok(id) => Ok(id),
        Err(m) => {
            let mut message = "Invalid UUID: ".to_owned();
            message.append(m.as_str());
            Err(validation_error(field, message.as_str(), "INVALID_UUID"))
        },
    }
}

pub open spec fn texts_view(v: Seq<String>) -> Seq<Seq<char>> {
    v.map_values(|s: String| s@)
}

/// The ids of the instances read back, all of which must be UUIDs; the first that is not
/// is an `INVALID_UUID` error on `task_id`.
pub open spec fn stored_task_ids(texts: Seq<Seq<char>>) -> Result<Seq<u128>, AppErrorView>
    decreases texts.len(),
{
    if texts.len() == 0 {
        Ok(seq![])
    } else {
        match stored_task_ids(texts.drop_last()) {
            Err(e) => Err(e),
            Ok(prev) => match stored_uuid_check("task_id"@, texts.last()) {
                Err(e) => Err(e),
                Ok(id) => Ok(prev.push(id)),
            },
        }
    }
}

proof fn lemma_stored_ids_error_persists(texts: Seq<Seq<char>>, k: int, e: AppErrorView)
    requires
        0 <= k <= texts.len(),
        stored_task_ids(texts.subrange(0, k)) == Err::<Seq<u128>, AppErrorView>(e),
    ensures
        stored_task_ids(texts) == Err::<Seq<u128>, AppErrorView>(e),
    decreases texts.len() - k,
{
    if k < texts.len() {
        assert(texts.subrange(0, k + 1).drop_last() =~= texts.subrange(0, k));
        lemma_stored_ids_error_persists(texts, k + 1, e);
    } else {
        assert(texts.subrange(0, k) =~= texts);
    }
}

/// Reads the ids of the uncompleted instances.
pub fn parse_task_ids(texts: &Vec<String>) -> (r: Result<Vec<u128>, AppError>)
    ensures
        match stored_task_ids(texts_view(texts@)) {
            Ok(ids) => r matches Ok(v) && v@ == ids,
            Err(e) => r matches Err(x) && x@ == e,
        },
{
    let ghost tv = texts_view(texts@);
    let mut out: Vec<u128> = Vec::new();
    let mut i: usize = 0;
    assert(tv.subrange(0, 0) =~= Seq::<Seq<char>>::empty());
    while i < texts.len()
        invariant
            i <= texts@.len(),
            tv == texts_view(texts@),
            stored_task_ids(tv.subrange(0, i as int)) == Ok::<Seq<u128>, AppErrorView>(out@),
        decreases texts@.len() - i,
    {
        let ghost prefix = tv.subrange(0, i + 1);
        assert(prefix.drop_last() =~= tv.subrange(0, i as int));
        assert(prefix.last() == texts@[i as int]@);
        match parse_stored_uuid("task_id", texts[i].as_str()) {
            Ok(id) => {
                out.push(id);
            },
            Err(e) => {
                proof {
                    lemma_stored_ids_error_persists(tv, i + 1, e@);
                }
                return Err(e);
            },
        }
        i = i + 1;
    }
    assert(tv.subrange(0, i as int) =~= tv);
    Ok(out)
}

} // verus!

verus! {

/// Every field the request sets is written to the template: its column stands where its
/// value is bound (the title as text, the notes as nullable text, the duration as a nullable
/// integer, the area as a nullable UUID, the subtasks as their list or NULL), every bound
/// value has its column, and `updated_at` comes last.
pub proof fn template_update_writes_each_set_field(r: BatchUpdateFieldsView)
    ensures
        template_columns(r).len() == template_params(r).len() + 1,
        template_columns(r).last() == "updated_at"@,
        r.title matches Some(t) ==> writes_column(template_columns(r), template_params(r), "title"@, SqlValueView::Text(t)),
        r.glance_note matches Some(g) ==> writes_column(
            template_columns(r),
            template_params(r),
            "glance_note_template"@,
            SqlValueView::NullableText(g),
        ),
        r.detail_note matches Some(d) ==> writes_column(
            template_columns(r),
            template_params(r),
            "detail_note_template"@,
            SqlValueView::NullableText(d),
        ),
        r.estimated_duration matches Some(e) ==> writes_column(
            template_columns(r),
            template_params(r),
            "estimated_duration_template"@,
            SqlValueView::NullableInt(e),
        ),
        r.area_id matches Some(a) ==> writes_column(
            template_columns(r),
            template_params(r),
            "area_id"@,
            SqlValueView::NullableUuid(a),
        ),
        r.subtasks matches Some(s) ==> writes_column(
            template_columns(r),
            template_params(r),
            "subtasks_template"@,
            SqlValueView::NullableSubtasks(s),
        ),
{
    lemma_template_lengths(r);
    lemma_template_writes_title(r);
    lemma_template_writes_glance_note(r);
    lemma_template_writes_detail_note(r);
    lemma_template_writes_estimated_duration(r);
    lemma_template_writes_area_id(r);
    lemma_template_writes_subtasks(r);
}

proof fn lemma_template_lengths(r: BatchUpdateFieldsView)
    ensures
        template_columns(r).len() == template_params(r).len() + 1,
        template_columns(r).last() == "updated_at"@,
        column_if(r.title is Some, "title"@).len() == text_param(r.title).len(),
        column_if(r.glance_note is Some, "glance_note_template"@).len() == nullable_text_param(r.glance_note).len(),
        column_if(r.detail_note is Some, "detail_note_template"@).len() == nullable_text_param(r.detail_note).len(),
        column_if(r.estimated_duration is Some, "estimated_duration_template"@).len() == nullable_int_param(
            r.estimated_duration,
        ).len(),
        column_if(r.area_id is Some, "area_id"@).len() == nullable_uuid_param(r.area_id).len(),
        column_if(r.subtasks is Some, "subtasks_template"@).len() == nullable_subtasks_param(r.subtasks).len(),
{
}

#[verifier::spinoff_prover]
proof fn lemma_template_writes_title(r: BatchUpdateFieldsView)
    ensures
        r.title matches Some(t) ==> writes_column(
            template_columns(r),
            template_params(r),
            "title"@,
            SqlValueView::Text(t),
        ),
{
    if let Some(t) = r.title {
        lemma_template_lengths(r);
        let i: int = 0;
        assert(template_columns(r)[i] == "title"@);
        assert(template_params(r)[i] == SqlValueView::Text(t));
    }
}

#[verifier::spinoff_prover]
proof fn lemma_template_writes_glance_note(r: BatchUpdateFieldsView)
    ensures
        r.glance_note matches Some(g) ==> writes_column(
            template_columns(r),
            template_params(r),
            "glance_note_template"@,
            SqlValueView::NullableText(g),
        ),
{
    if let Some(g) = r.glance_note {
        lemma_template_lengths(r);
        let i: int = (column_if(r.title is Some, "title"@).len()) as int;
        assert(template_columns(r)[i] == "glance_note_template"@);
        assert(template_params(r)[i] == SqlValueView::NullableText(g));
    }
}

#[verifier::spinoff_prover]
proof fn lemma_template_writes_detail_note(r: BatchUpdateFieldsView)
    ensures
        r.detail_note matches Some(d) ==> writes_column(
            template_columns(r),
            template_params(r),
            "detail_note_template"@,
            SqlValueView::NullableText(d),
        ),
{
    if let Some(d) = r.detail_note {
        lemma_template_lengths(r);
        let i: int = (
            column_if(r.title is Some, "title"@).len()
            + column_if(r.glance_note is Some, "glance_note_template"@).len()
        ) as int;
        assert(template_columns(r)[i] == "detail_note_template"@);
        assert(template_params(r)[i] == SqlValueView::NullableText(d));
    }
}

#[verifier::spinoff_prover]
proof fn lemma_template_writes_estimated_duration(r: BatchUpdateFieldsView)
    ensures
        r.estimated_duration matches Some(e) ==> writes_column(
            template_columns(r),
            template_params(r),
            "estimated_duration_template"@,
            SqlValueView::NullableInt(e),
        ),
{
    if let Some(e) = r.estimated_duration {
        lemma_template_lengths(r);
        let i: int = (
            column_if(r.title is Some, "title"@).len()
            + column_if(r.glance_note is Some, "glance_note_template"@).len()
            + column_if(r.detail_note is Some, "detail_note_template"@).len()
        ) as int;
        assert(template_columns(r)[i] == "estimated_duration_template"@);
        assert(template_params(r)[i] == SqlValueView::NullableInt(e));
    }
}

#[verifier::spinoff_prover]
proof fn lemma_template_writes_area_id(r: BatchUpdateFieldsView)
    ensures
        r.area_id matches Some(a) ==> writes_column(
            template_columns(r),
            template_params(r),
            "area_id"@,
            SqlValueView::NullableUuid(a),
        ),
{
    if let Some(a) = r.area_id {
        lemma_template_lengths(r);
        let i: int = (
            column_if(r.title is Some, "title"@).len()
            + column_if(r.glance_note is Some, "glance_note_template"@).len()
            + column_if(r.detail_note is Some, "detail_note_template"@).len()
            + column_if(r.estimated_duration is Some, "estimated_duration_template"@).len()
        ) as int;
        assert(template_columns(r)[i] == "area_id"@);
        assert(template_params(r)[i] == SqlValueView::NullableUuid(a));
    }
}

#[verifier::spinoff_prover]
proof fn lemma_template_writes_subtasks(r: BatchUpdateFieldsView)
    ensures
        r.subtasks matches Some(s) ==> writes_column(
            template_columns(r),
            template_params(r),
            "subtasks_template"@,
            SqlValueView::NullableSubtasks(s),
        ),
{
    if let Some(s) = r.subtasks {
        lemma_template_lengths(r);
        let i: int = (
            column_if(r.title is Some, "title"@).len()
            + column_if(r.glance_note is Some, "glance_note_template"@).len()
            + column_if(r.detail_note is Some, "detail_note_template"@).len()
            + column_if(r.estimated_duration is Some, "estimated_duration_template"@).len()
            + column_if(r.area_id is Some, "area_id"@).len()
        ) as int;
        assert(template_columns(r)[i] == "subtasks_template"@);
        assert(template_params(r)[i] == SqlValueView::NullableSubtasks(s));
    }
}

/// The template is written when the request sets any one of its fields, whichever it is,
/// and left alone only when the request sets none.
pub proof fn template_written_when_any_field_is_set(r: BatchUpdateFieldsView)
    ensures
        r.title is Some ==> has_template_updates(r),
        r.glance_note is Some ==> has_template_updates(r),
        r.detail_note is Some ==> has_template_updates(r),
        r.estimated_duration is Some ==> has_template_updates(r),
        r.area_id is Some ==> has_template_updates(r),
        r.subtasks is Some ==> has_template_updates(r),
        r.title is None && r.glance_note is None && r.detail_note is None && r.estimated_duration is None
            && r.area_id is None && r.subtasks is None ==> !has_template_updates(r),
{
}

} // verus!
