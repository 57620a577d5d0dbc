use vstd::prelude::*;

use crate::entities::{Subtask, SubtaskView, subtasks_view};
use crate::sql::{
    assignments, assignments_text, placeholders, placeholders_text, texts_of_strs, values_view, writes_column,
    SqlValue, SqlValueView, UpdatePlan,
};

verus! {

/// The completion state of the last subtask in `current` with the given id.
pub open spec fn completion_by_id(current: Seq<SubtaskView>, id: u128) -> Option<bool>
    decreases current.len(),
{
    if current.len() == 0 {
        None
    } else if current.last().id == id {
        Some(current.last().is_completed)
    } else {
        completion_by_id(current.drop_last(), id)
    }
}

/// The completion state of the last subtask in `current` with the given title.
pub open spec fn completion_by_title(current: Seq<SubtaskView>, title: Seq<char>) -> Option<bool>
    decreases current.len(),
{
    if current.len() == 0 {
        None
    } else if current.last().title == title {
        Some(current.last().is_completed)
    } else {
        completion_by_title(current.drop_last(), title)
    }
}

/// The state a subtask of the new list takes: the state of the old subtask with the same
/// id, else of the old subtask with the same title, else its own.
pub open spec fn merged_completion(current: Seq<SubtaskView>, s: SubtaskView) -> bool {
    match completion_by_id(current, s.id) {
        Some(b) => b,
        None => match completion_by_title(current, s.title) {
            Some(b) => b,
            None => s.is_completed,
        },
    }
}

/// The new list with each subtask's completion state carried over from the current list.
pub open spec fn merged_subtasks(current: Seq<SubtaskView>, new: Seq<SubtaskView>) -> Seq<SubtaskView> {
    new.map_values(|s: SubtaskView| SubtaskView { is_completed: merged_completion(current, s), ..s })
}

fn find_completion_by_id(current: &Vec<Subtask>, id: u128) -> (r: Option<bool>)
    ensures
        r == completion_by_id(subtasks_view(current@), id),
{
    let ghost cv = subtasks_view(current@);
    let mut j: usize = current.len();
    proof {
        assert(cv.subrange(0, j as int) =~= cv);
    }
    while j > 0
        invariant
            j <= current@.len(),
            cv == subtasks_view(current@),
            completion_by_id(cv, id) == completion_by_id(cv.subrange(0, j as int), id),
        decreases j,
    {
        let ghost prefix = cv.subrange(0, j as int);
        assert(prefix.last() == current@[j - 1]@);
        if current[j - 1].id == id {
            return Some(current[j - 1].is_completed);
        }
        assert(prefix.drop_last() =~= cv.subrange(0, j - 1));
        j = j - 1;
    }
    None
}

fn find_completion_by_title(current: &Vec<Subtask>, title: &String) -> (r: Option<bool>)
    ensures
        r == completion_by_title(subtasks_view(current@), title@),
{
    let ghost cv = subtasks_view(current@);
    let mut j: usize = current.len();
    proof {
        assert(cv.subrange(0, j as int) =~= cv);
    }
    while j > 0
        invariant
            j <= current@.len(),
            cv == subtasks_view(current@),
            completion_by_title(cv, title@) == completion_by_title(cv.subrange(0, j as int), title@),
        decreases j,
    {
        let ghost prefix = cv.subrange(0, j as int);
        assert(prefix.last() == current@[j - 1]@);
        if current[j - 1].title == *title {
            return Some(current[j - 1].is_completed);
        }
        assert(prefix.drop_last() =~= cv.subrange(0, j - 1));
        j = j - 1;
    }
    None
}

/// Merges a new subtask list into a task's current one, keeping the completion state that
/// the task already had: matched by id first, then by title; a subtask with no match keeps
/// the state the new list gives it. Id, title and order come from the new list.
pub fn merge_subtasks_preserving_completion(current: &Vec<Subtask>, new: &Vec<Subtask>) -> (r: Vec<Subtask>)
    ensures
        subtasks_view(r@) == merged_subtasks(subtasks_view(current@), subtasks_view(new@)),
{
    let ghost cv = subtasks_view(current@);
    let ghost nv = subtasks_view(new@);
    let mut result: Vec<Subtask> = Vec::new();
    let mut i: usize = 0;
    while i < new.len()
        invariant
            i <= new@.len(),
            cv == subtasks_view(current@),
            nv == subtasks_view(new@),
            subtasks_view(result@) == merged_subtasks(cv, nv).subrange(0, i as int),
        decreases new@.len() - i,
    {
        let s = &new[i];
        let is_completed = match find_completion_by_id(current, s.id) {
            Some(b) => b,
            None => match find_completion_by_title(current, &s.title) {
                Some(b) => b,
                None => s.is_completed,
            },
        };
        let merged = Subtask {
            id: s.id,
            title: s.title.clone(),
            is_completed,
            sort_order: s.sort_order.clone(),
        };
        assert(merged@ == merged_subtasks(cv, nv)[i as int]);
        let ghost before = result@;
        result.push(merged);
        assert(result@ == before.push(merged));
        assert(subtasks_view(result@) =~= subtasks_view(before).push(merged@));
        assert(subtasks_view(result@) =~= merged_subtasks(cv, nv).subrange(0, i + 1));
        i = i + 1;
    }
    assert(merged_subtasks(cv, nv).subrange(0, i as int) =~= merged_subtasks(cv, nv));
    result
}

/// The subtask list to store on one instance: the new list merged with the instance's
/// current one, or `None` (the column is cleared) when the new list is absent or empty.
pub open spec fn opt_subtasks_view(o: Option<Vec<Subtask>>) -> Option<Seq<SubtaskView>> {
    match o {
        Some(v) => Some(subtasks_view(v@)),
        None => None,
    }
}

pub open spec fn instance_subtasks(current: Seq<SubtaskView>, new_subtasks: Option<Seq<SubtaskView>>) -> Option<Seq<SubtaskView>> {
    match new_subtasks {
        Some(n) => if n.len() == 0 {
            None
        } else {
            Some(merged_subtasks(current, n))
        },
        None => None,
    }
}

pub fn instance_subtasks_value(current: &Vec<Subtask>, new_subtasks: &Option<Vec<Subtask>>) -> (r: Option<Vec<Subtask>>)
    ensures
        opt_subtasks_view(r) == instance_subtasks(subtasks_view(current@), opt_subtasks_view(*new_subtasks)),
{
    match new_subtasks {
        None => None,
        Some(n) => {
            let merged = merge_subtasks_preserving_completion(current, n);
            assert(subtasks_view(merged@).len() == merged@.len());
            assert(subtasks_view(n@).len() == n@.len());
            if merged.len() == 0 {
                None
            } else {
                Some(merged)
            }
        },
    }
}

/// The count the instance batch update reports: the rows of the field UPDATE when one ran,
/// else the rows whose subtasks were rewritten.
pub fn instances_updated_count(subtask_rows: usize, field_rows: Option<usize>) -> (r: usize)
    ensures
        r == match field_rows {
            Some(n) => n,
            None => subtask_rows,
        },
{
    match field_rows {
        Some(n) => n,
        None => subtask_rows,
    }
}

/// The body of `PATCH /api/recurrences/:id/instances`: the fields to write into every
/// uncompleted instance of a recurrence. A field left out is not changed; for the nullable
/// fields `Some(None)` clears the value.
#[derive(Debug)]
pub struct BatchUpdateInstancesRequest {
    pub title: Option<String>,
    pub glance_note: Option<Option<String>>,
    pub detail_note: Option<Option<String>>,
    pub estimated_duration: Option<Option<i32>>,
    pub area_id: Option<Option<u128>>,
    pub subtasks: Option<Option<Vec<Subtask>>>,
    /// Only instances on or after this day (`YYYY-MM-DD`); all uncompleted ones when absent.
    pub update_from_date: Option<String>,
}

/// How many task instances the batch update changed.
#[derive(Debug)]
pub struct BatchUpdateInstancesResponse {
    pub updated_count: usize,
}

/// What a batch update request asks for, as plain values.
pub struct BatchUpdateFieldsView {
    pub title: Option<Seq<char>>,
    pub glance_note: Option<Option<Seq<char>>>,
    pub detail_note: Option<Option<Seq<char>>>,
    pub estimated_duration: Option<Option<i32>>,
    pub area_id: Option<Option<u128>>,
    pub subtasks: Option<Option<Seq<SubtaskView>>>,
    pub update_from_date: Option<Seq<char>>,
}

pub open spec fn opt_text_view(o: Option<String>) -> Option<Seq<char>> {
    match o {
        Some(s) => Some(s@),
        None => None,
    }
}

pub open spec fn nullable_text_field_view(o: Option<Option<String>>) -> Option<Option<Seq<char>>> {
    match o {
        Some(v) => Some(opt_text_view(v)),
        None => None,
    }
}

pub open spec fn nullable_subtasks_field_view(o: Option<Option<Vec<Subtask>>>) -> Option<Option<Seq<SubtaskView>>> {
    match o {
        Some(Some(v)) => Some(Some(subtasks_view(v@))),
        Some(None) => Some(None),
        None => None,
    }
}

impl View for BatchUpdateInstancesRequest {
    type V = BatchUpdateFieldsView;

    open spec fn view(&self) -> BatchUpdateFieldsView {
        BatchUpdateFieldsView {
            title: opt_text_view(self.title),
            glance_note: nullable_text_field_view(self.glance_note),
            detail_note: nullable_text_field_view(self.detail_note),
            estimated_duration: self.estimated_duration,
            area_id: self.area_id,
            subtasks: nullable_subtasks_field_view(self.subtasks),
            update_from_date: opt_text_view(self.update_from_date),
        }
    }
}

pub open spec fn column_if(cond: bool, column: Seq<char>) -> Seq<Seq<char>> {
    if cond { seq![column] } else { seq![] }
}

/// The task columns that an instance update writes, in statement order; `updated_at` last.
pub open spec fn instance_columns(r: BatchUpdateFieldsView) -> Seq<Seq<char>> {
    column_if(r.title is Some, "title"@) + column_if(r.glance_note is Some, "glance_note"@)
        + column_if(r.detail_note is Some, "detail_note"@) + column_if(
        r.estimated_duration is Some,
        "estimated_duration"@,
    ) + column_if(r.area_id is Some, "area_id"@) + seq!["updated_at"@]
}

pub open spec fn text_param(o: Option<Seq<char>>) -> Seq<SqlValueView> {
    match o {
        Some(t) => seq![SqlValueView::Text(t)],
        None => seq![],
    }
}

pub open spec fn nullable_text_param(o: Option<Option<Seq<char>>>) -> Seq<SqlValueView> {
    match o {
        Some(v) => seq![SqlValueView::NullableText(v)],
        None => seq![],
    }
}

pub open spec fn nullable_int_param(o: Option<Option<i32>>) -> Seq<SqlValueView> {
    match o {
        Some(v) => seq![SqlValueView::NullableInt(v)],
        None => seq![],
    }
}

pub open spec fn nullable_uuid_param(o: Option<Option<u128>>) -> Seq<SqlValueView> {
    match o {
        Some(v) => seq![SqlValueView::NullableUuid(v)],
        None => seq![],
    }
}

/// The values bound to the columns of `instance_columns` other than `updated_at`, in order.
pub open spec fn instance_params(r: BatchUpdateFieldsView) -> Seq<SqlValueView> {
    text_param(r.title) + nullable_text_param(r.glance_note) + nullable_text_param(r.detail_note)
        + nullable_int_param(r.estimated_duration) + nullable_uuid_param(r.area_id)
}

/// Some field other than the subtasks is written by the batch update.
pub open spec fn has_field_updates(r: BatchUpdateFieldsView) -> bool {
    r.title is Some || r.glance_note is Some || r.detail_note is Some || r.estimated_duration is Some
        || r.area_id is Some
}

pub fn copy_nullable_text(o: &Option<String>) -> (r: Option<String>)
    ensures
        opt_text_view(r) == opt_text_view(*o),
{
    match o {
        Some(s) => Some(s.clone()),
        None => None,
    }
}

/// The SET clause and values of the batch UPDATE of task instances; `None` when the request
/// changes no field but the subtasks (which are merged task by task instead).
pub fn instance_update_plan(request: &BatchUpdateInstancesRequest) -> (r: Option<UpdatePlan>)
    ensures
        has_field_updates(request@) ==> (r matches Some(p) && p.set_clause@ == assignments_text(
            instance_columns(request@),
        ) && values_view(p.params@) == instance_params(request@)),
        !has_field_updates(request@) ==> r is None,
{
    let mut columns: Vec<&str> = Vec::new();
    let mut params: Vec<SqlValue> = Vec::new();
    proof {
        assert(texts_of_strs(columns@) =~= Seq::<Seq<char>>::empty());
        assert(values_view(params@) =~= Seq::<SqlValueView>::empty());
    }
    match &request.title {
        Some(t) => {
            columns.push("title");
            params.push(SqlValue::Text(t.clone()));
        },
        None => {},
    }
    let ghost c1 = column_if(request.title is Some, "title"@);
    let ghost p1 = text_param(request@.title);
    assert(texts_of_strs(columns@) =~= c1);
    assert(values_view(params@) =~= p1);
    match &request.glance_note {
        Some(o) => {
            columns.push("glance_note");
            params.push(SqlValue::NullableText(copy_nullable_text(o)));
        },
        None => {},
    }
    let ghost c2 = column_if(request.glance_note is Some, "glance_note"@);
    let ghost p2 = nullable_text_param(request@.glance_note);
    assert(texts_of_strs(columns@) =~= c1 + c2);
    assert(values_view(params@) =~= p1 + p2);
    match &request.detail_note {
        Some(o) => {
            columns.push("detail_note");
            params.push(SqlValue::NullableText(copy_nullable_text(o)));
        },
        None => {},
    }
    let ghost c3 = column_if(request.detail_note is Some, "detail_note"@);
    let ghost p3 = nullable_text_param(request@.detail_note);
    assert(texts_of_strs(columns@) =~= c1 + c2 + c3);
    assert(values_view(params@) =~= p1 + p2 + p3);
    match &request.estimated_duration {
        Some(o) => {
            columns.push("estimated_duration");
            params.push(SqlValue::NullableInt(*o));
        },
        None => {},
    }
    let ghost c4 = column_if(request.estimated_duration is Some, "estimated_duration"@);
    let ghost p4 = nullable_int_param(request@.estimated_duration);
    assert(texts_of_strs(columns@) =~= c1 + c2 + c3 + c4);
    assert(values_view(params@) =~= p1 + p2 + p3 + p4);
    match &request.area_id {
        Some(o) => {
            columns.push("area_id");
            params.push(SqlValue::NullableUuid(*o));
        },
        None => {},
    }
    let ghost c5 = column_if(request.area_id is Some, "area_id"@);
    let ghost p5 = nullable_uuid_param(request@.area_id);
    assert(texts_of_strs(columns@) =~= c1 + c2 + c3 + c4 + c5);
    assert(values_view(params@) =~= p1 + p2 + p3 + p4 + p5);
    if columns.len() == 0 {
        return None;
    }
    columns.push("updated_at");
    assert(texts_of_strs(columns@) =~= c1 + c2 + c3 + c4 + c5 + seq!["updated_at"@]);
    Some(UpdatePlan { set_clause: assignments(&columns), params })
}

/// `UPDATE tasks SET <set clause> WHERE id IN (?, ...)` for `task_count` tasks.
pub open spec fn instance_update_sql_text(set_clause: Seq<char>, task_count: nat) -> Seq<char> {
    "UPDATE tasks SET "@ + set_clause + " WHERE id IN ("@ + placeholders_text(task_count) + ")"@
}

/// The statement of the batch UPDATE of task instances.
pub fn instance_update_sql(plan: &UpdatePlan, task_count: usize) -> (r: String)
    ensures
        r@ == instance_update_sql_text(plan.set_clause@, task_count as nat),
{
    let mut sql = "UPDATE tasks SET ".to_owned();
    sql.append(plan.set_clause.as_str());
    sql.append(" WHERE id IN (");
    let marks = placeholders(task_count);
    sql.append(marks.as_str());
    sql.append(")");
    sql
}


/// No two subtasks share an id.
pub open spec fn distinct_ids(s: Seq<SubtaskView>) -> bool {
    forall|i: int, j: int| 0 <= i < j < s.len() ==> s[i].id != s[j].id
}

proof fn lemma_completion_by_id_finds(s: Seq<SubtaskView>, k: int)
    requires
        distinct_ids(s),
        0 <= k < s.len(),
    ensures
        completion_by_id(s, s[k].id) == Some(s[k].is_completed),
    decreases s.len(),
{
    if k < s.len() - 1 {
        assert(s.last().id != s[k].id);
        let d = s.drop_last();
        assert(d[k] == s[k]);
        assert(distinct_ids(d)) by {
            assert forall|i: int, j: int| 0 <= i < j < d.len() implies d[i].id != d[j].id by {
                assert(d[i] == s[i] && d[j] == s[j]);
            }
        }
        lemma_completion_by_id_finds(d, k);
    }
}

/// Merging takes id, title and order from the new list: the result has its length and,
/// position by position, its ids, titles and sort orders.
pub proof fn merge_keeps_new_structure(current: Seq<SubtaskView>, new: Seq<SubtaskView>)
    ensures
        merged_subtasks(current, new).len() == new.len(),
        forall|i: int|
            0 <= i < new.len() ==> (#[trigger] merged_subtasks(current, new)[i]).id == new[i].id
                && merged_subtasks(current, new)[i].title == new[i].title
                && merged_subtasks(current, new)[i].sort_order == new[i].sort_order,
{
}

/// A subtask whose id the task already had keeps the state it had there.
pub proof fn merge_keeps_completion_of_same_id(current: Seq<SubtaskView>, new: Seq<SubtaskView>, i: int, k: int)
    requires
        distinct_ids(current),
        0 <= i < new.len(),
        0 <= k < current.len(),
        new[i].id == current[k].id,
    ensures
        merged_subtasks(current, new)[i].is_completed == current[k].is_completed,
{
    lemma_completion_by_id_finds(current, k);
}

/// A subtask that matches nothing the task had, by id or by title, keeps the state the new
/// list gives it.
pub proof fn merge_unmatched_keeps_new_state(current: Seq<SubtaskView>, new: Seq<SubtaskView>, i: int)
    requires
        0 <= i < new.len(),
        completion_by_id(current, new[i].id) is None,
        completion_by_title(current, new[i].title) is None,
    ensures
        merged_subtasks(current, new)[i].is_completed == new[i].is_completed,
{
}

/// Merging a list with distinct ids into itself changes nothing.
pub proof fn merge_into_itself_is_identity(s: Seq<SubtaskView>)
    requires
        distinct_ids(s),
    ensures
        merged_subtasks(s, s) == s,
{
    assert forall|i: int| 0 <= i < s.len() implies #[trigger] merged_subtasks(s, s)[i] == s[i] by {
        lemma_completion_by_id_finds(s, i);
    }
    assert(merged_subtasks(s, s) =~= s);
}

/// A task with no subtasks before takes the new list as it is.
pub proof fn merge_into_empty_is_new(new: Seq<SubtaskView>)
    ensures
        merged_subtasks(seq![], new) == new,
{
    assert forall|i: int| 0 <= i < new.len() implies #[trigger] merged_subtasks(seq![], new)[i] == new[i] by {}
    assert(merged_subtasks(seq![], new) =~= new);
}

proof fn lemma_instance_lengths(r: BatchUpdateFieldsView)
    ensures
        instance_columns(r).len() == instance_params(r).len() + 1,
        instance_columns(r).last() == "updated_at"@,
        column_if(r.title is Some, "title"@).len() == text_param(r.title).len(),
        column_if(r.glance_note is Some, "glance_note"@).len() == nullable_text_param(r.glance_note).len(),
        column_if(r.detail_note is Some, "detail_note"@).len() == nullable_text_param(r.detail_note).len(),
        column_if(r.estimated_duration is Some, "estimated_duration"@).len() == nullable_int_param(r.estimated_duration).len(),
        column_if(r.area_id is Some, "area_id"@).len() == nullable_uuid_param(r.area_id).len(),
{
}

#[verifier::spinoff_prover]
proof fn lemma_instance_writes_title(r: BatchUpdateFieldsView)
    ensures
        r.title matches Some(t) ==> writes_column(instance_columns(r), instance_params(r), "title"@, SqlValueView::Text(t)),
{
    if let Some(t) = r.title {
        lemma_instance_lengths(r);
        let i: int = 0;
        assert(instance_columns(r)[i] == "title"@);
        assert(instance_params(r)[i] == SqlValueView::Text(t));
    }
}

#[verifier::spinoff_prover]
proof fn lemma_instance_writes_glance_note(r: BatchUpdateFieldsView)
    ensures
        r.glance_note matches Some(g) ==> writes_column(instance_columns(r), instance_params(r), "glance_note"@, SqlValueView::NullableText(g)),
{
    if let Some(g) = r.glance_note {
        lemma_instance_lengths(r);
        let i: int = (
            column_if(r.title is Some, "title"@).len()
        ) as int;
        assert(instance_columns(r)[i] == "glance_note"@);
        assert(instance_params(r)[i] == SqlValueView::NullableText(g));
    }
}

#[verifier::spinoff_prover]
proof fn lemma_instance_writes_detail_note(r: BatchUpdateFieldsView)
    ensures
        r.detail_note matches Some(d) ==> writes_column(instance_columns(r), instance_params(r), "detail_note"@, SqlValueView::NullableText(d)),
{
    if let Some(d) = r.detail_note {
        lemma_instance_lengths(r);
        let i: int = (
            column_if(r.title is Some, "title"@).len()
            + column_if(r.glance_note is Some, "glance_note"@).len()
        ) as int;
        assert(instance_columns(r)[i] == "detail_note"@);
        assert(instance_params(r)[i] == SqlValueView::NullableText(d));
    }
}

#[verifier::spinoff_prover]
proof fn lemma_instance_writes_estimated_duration(r: BatchUpdateFieldsView)
    ensures
        r.estimated_duration matches Some(e) ==> writes_column(instance_columns(r), instance_params(r), "estimated_duration"@, SqlValueView::NullableInt(e)),
{
    if let Some(e) = r.estimated_duration {
        lemma_instance_lengths(r);
        let i: int = (
            column_if(r.title is Some, "title"@).len()
            + column_if(r.glance_note is Some, "glance_note"@).len()
            + column_if(r.detail_note is Some, "detail_note"@).len()
        ) as int;
        assert(instance_columns(r)[i] == "estimated_duration"@);
        assert(instance_params(r)[i] == SqlValueView::NullableInt(e));
    }
}

#[verifier::spinoff_prover]
proof fn lemma_instance_writes_area_id(r: BatchUpdateFieldsView)
    ensures
        r.area_id matches Some(a) ==> writes_column(instance_columns(r), instance_params(r), "area_id"@, SqlValueView::NullableUuid(a)),
{
    if let Some(a) = r.area_id {
        lemma_instance_lengths(r);
        let i: int = (
            column_if(r.title is Some, "title"@).len()
            + column_if(r.glance_note is Some, "glance_note"@).len()
            + column_if(r.detail_note is Some, "detail_note"@).len()
            + column_if(r.estimated_duration is Some, "estimated_duration"@).len()
        ) as int;
        assert(instance_columns(r)[i] == "area_id"@);
        assert(instance_params(r)[i] == SqlValueView::NullableUuid(a));
    }
}

/// Every field a batch update sets is written to each instance: its column stands where
/// its value is bound (the title as text, the notes as nullable text, the duration as a
/// nullable integer, the area as a nullable UUID), every bound value has its column, and
/// `updated_at` comes last.
pub proof fn instance_update_writes_each_set_field(r: BatchUpdateFieldsView)
    ensures
        instance_columns(r).len() == instance_params(r).len() + 1,
        instance_columns(r).last() == "updated_at"@,
        r.title matches Some(t) ==> writes_column(instance_columns(r), instance_params(r), "title"@, SqlValueView::Text(t)),
        r.glance_note matches Some(g) ==> writes_column(instance_columns(r), instance_params(r), "glance_note"@, SqlValueView::NullableText(g)),
        r.detail_note matches Some(d) ==> writes_column(instance_columns(r), instance_params(r), "detail_note"@, SqlValueView::NullableText(d)),
        r.estimated_duration matches Some(e) ==> writes_column(instance_columns(r), instance_params(r), "estimated_duration"@, SqlValueView::NullableInt(e)),
        r.area_id matches Some(a) ==> writes_column(instance_columns(r), instance_params(r), "area_id"@, SqlValueView::NullableUuid(a)),
{
    lemma_instance_lengths(r);
    lemma_instance_writes_title(r);
    lemma_instance_writes_glance_note(r);
    lemma_instance_writes_detail_note(r);
    lemma_instance_writes_estimated_duration(r);
    lemma_instance_writes_area_id(r);
}

/// The instances' fields are written when the request sets any one of them, whichever it
/// is, and left alone only when it sets none (the subtasks are merged separately).
pub proof fn instances_written_when_any_field_is_set(r: BatchUpdateFieldsView)
    ensures
        r.title is Some ==> has_field_updates(r),
        r.glance_note is Some ==> has_field_updates(r),
        r.detail_note is Some ==> has_field_updates(r),
        r.estimated_duration is Some ==> has_field_updates(r),
        r.area_id is Some ==> has_field_updates(r),
        r.title is None && r.glance_note is None && r.detail_note is None && r.estimated_duration is None
            && r.area_id is None ==> !has_field_updates(r),
{
}

} // verus!
