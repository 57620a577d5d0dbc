use vstd::prelude::*;

use crate::area::colors::{is_hex_color, validate_color};
use crate::errors::{not_found, result_is, single_field_error, validation_error, AppError, AppErrorView};
use crate::ids::{uuid_text, uuid_to_string};
use crate::recurrences::batch_update_instances::column_if;
use crate::sql::{assignments, assignments_text, texts_of_strs, values_view, writes_column, SqlValue, SqlValueView, UpdatePlan};
use crate::text::{is_blank, is_blank_text};

verus! {

/// The body of `PUT /api/areas/:id`. A field left out is not changed;
/// `parent_area_id: Some(None)` makes the area a root.
#[derive(Debug)]
pub struct UpdateAreaRequest {
    pub name: Option<String>,
    pub color: Option<String>,
    pub parent_area_id: Option<Option<u128>>,
}

/// The outcome of the checks before an area is updated: it must exist, a new name must not
/// be blank and a new color must be `#RRGGBB`.
pub open spec fn update_area_check(
    exists: bool,
    area_id: u128,
    name: Option<Seq<char>>,
    color: Option<Seq<char>>,
) -> Result<(), AppErrorView> {
    if !exists {
        Err(AppErrorView::NotFound { entity_type: "Area"@, entity_id: uuid_text(area_id) })
    } else if name matches Some(n) && is_blank(n) {
        Err(single_field_error("name"@, "名称不能为空"@, "NAME_EMPTY"@))
    } else if color matches Some(c) && !is_hex_color(c) {
        Err(single_field_error("color"@, "颜色格式无效"@, "INVALID_COLOR"@))
    } else {
        Ok(())
    }
}

pub open spec fn opt_text(o: Option<String>) -> Option<Seq<char>> {
    match o {
        Some(s) => Some(s@),
        None => None,
    }
}

/// Runs the checks of `update_area_check`; `exists` says whether a live area has the id.
pub fn check_area_update(exists: bool, area_id: u128, request: &UpdateAreaRequest) -> (r: Result<(), AppError>)
    ensures
        result_is(r, update_area_check(exists, area_id, opt_text(request.name), opt_text(request.color))),
{
    if !exists {
        return Err(not_found("Area", uuid_to_string(area_id).as_str()));
    }
    if let Some(name) = &request.name {
        if is_blank_text(name.as_str()) {
            return Err(validation_error("name", "名称不能为空", "NAME_EMPTY"));
        }
    }
    if let Some(color) = &request.color {
        if !validate_color(color.as_str()) {
            return Err(validation_error("color", "颜色格式无效", "INVALID_COLOR"));
        }
    }
    Ok(())
}

/// The area columns the update writes: the fields that are set, then `updated_at`, which
/// is written even when no field is set.
pub open spec fn area_columns(r: UpdateAreaRequest) -> Seq<Seq<char>> {
    column_if(r.name is Some, "name"@) + column_if(r.color is Some, "color"@) + column_if(
        r.parent_area_id is Some,
        "parent_area_id"@,
    ) + seq!["updated_at"@]
}

/// The values bound to those columns before `updated_at`: the name and color as text, the
/// parent as a UUID, a cleared parent as NULL.
pub open spec fn area_params(r: UpdateAreaRequest) -> Seq<SqlValueView> {
    (match r.name {
        Some(n) => seq![SqlValueView::Text(n@)],
        None => seq![],
    }) + (match r.color {
        Some(c) => seq![SqlValueView::Text(c@)],
        None => seq![],
    }) + (match r.parent_area_id {
        Some(p) => seq![SqlValueView::NullableUuid(p)],
        None => seq![],
    })
}

/// The SET clause and values of the area UPDATE. A request with no field set still
/// refreshes `updated_at`.
pub fn area_update_plan(request: &UpdateAreaRequest) -> (r: UpdatePlan)
    ensures
        r.set_clause@ == assignments_text(area_columns(*request)),
        values_view(r.params@) == area_params(*request),
{
    let mut columns: Vec<&str> = Vec::new();
    let mut params: Vec<SqlValue> = Vec::new();
    let ghost c1 = column_if(request.name is Some, "name"@);
    let ghost c2 = column_if(request.color is Some, "color"@);
    let ghost c3 = column_if(request.parent_area_id is Some, "parent_area_id"@);
    if let Some(n) = &request.name {
        columns.push("name");
        params.push(SqlValue::Text(n.clone()));
    }
    assert(texts_of_strs(columns@) =~= c1);
    if let Some(c) = &request.color {
        columns.push("color");
        params.push(SqlValue::Text(c.clone()));
    }
    assert(texts_of_strs(columns@) =~= c1 + c2);
    if let Some(p) = &request.parent_area_id {
        columns.push("parent_area_id");
        params.push(SqlValue::NullableUuid(*p));
    }
    assert(texts_of_strs(columns@) =~= c1 + c2 + c3);
    assert(values_view(params@) =~= area_params(*request));
    columns.push("updated_at");
    assert(texts_of_strs(columns@) =~= c1 + c2 + c3 + seq!["updated_at"@]);
    UpdatePlan { set_clause: assignments(&columns), params }
}

/// `UPDATE areas SET <set clause> WHERE id = ?`.
pub fn area_update_sql(plan: &UpdatePlan) -> (r: String)
    ensures
        r@ == "UPDATE areas SET "@ + plan.set_clause@ + " WHERE id = ?"@,
{
    let mut sql = "UPDATE areas SET ".to_owned();
    sql.append(plan.set_clause.as_str());
    sql.append(" WHERE id = ?");
    sql
}


proof fn lemma_area_lengths(r: UpdateAreaRequest)
    ensures
        area_columns(r).len() == area_params(r).len() + 1,
        area_columns(r).last() == "updated_at"@,
        column_if(r.name is Some, "name"@).len() == (match r.name { Some(n) => seq![SqlValueView::Text(n@)], None => Seq::<SqlValueView>::empty() }).len(),
        column_if(r.color is Some, "color"@).len() == (match r.color { Some(c) => seq![SqlValueView::Text(c@)], None => Seq::<SqlValueView>::empty() }).len(),
        column_if(r.parent_area_id is Some, "parent_area_id"@).len() == (match r.parent_area_id { Some(p) => seq![SqlValueView::NullableUuid(p)], None => Seq::<SqlValueView>::empty() }).len(),
{
}

#[verifier::spinoff_prover]
proof fn lemma_area_writes_name(r: UpdateAreaRequest)
    ensures
        r.name matches Some(n) ==> writes_column(area_columns(r), area_params(r), "name"@, SqlValueView::Text(n@)),
{
    if let Some(n) = r.name {
        lemma_area_lengths(r);
        let i: int = 0;
        assert(area_columns(r)[i] == "name"@);
        assert(area_params(r)[i] == SqlValueView::Text(n@));
    }
}

#[verifier::spinoff_prover]
proof fn lemma_area_writes_color(r: UpdateAreaRequest)
    ensures
        r.color matches Some(c) ==> writes_column(area_columns(r), area_params(r), "color"@, SqlValueView::Text(c@)),
{
    if let Some(c) = r.color {
        lemma_area_lengths(r);
        let i: int = (
            column_if(r.name is Some, "name"@).len()
        ) as int;
        assert(area_columns(r)[i] == "color"@);
        assert(area_params(r)[i] == SqlValueView::Text(c@));
    }
}

#[verifier::spinoff_prover]
proof fn lemma_area_writes_parent(r: UpdateAreaRequest)
    ensures
        r.parent_area_id matches Some(p) ==> writes_column(area_columns(r), area_params(r), "parent_area_id"@, SqlValueView::NullableUuid(p)),
{
    if let Some(p) = r.parent_area_id {
        lemma_area_lengths(r);
        let i: int = (
            column_if(r.name is Some, "name"@).len()
            + column_if(r.color is Some, "color"@).len()
        ) as int;
        assert(area_columns(r)[i] == "parent_area_id"@);
        assert(area_params(r)[i] == SqlValueView::NullableUuid(p));
    }
}

/// Every field an area update sets is written: its column stands where its value is bound
/// (the name and color as text, the parent as a nullable UUID, so that a cleared parent is
/// NULL), every bound value has its column, and `updated_at` comes last, also when no
/// field is set.
pub proof fn area_update_writes_each_set_field(r: UpdateAreaRequest)
    ensures
        area_columns(r).len() == area_params(r).len() + 1,
        area_columns(r).last() == "updated_at"@,
        r.name matches Some(n) ==> writes_column(area_columns(r), area_params(r), "name"@, SqlValueView::Text(n@)),
        r.color matches Some(c) ==> writes_column(area_columns(r), area_params(r), "color"@, SqlValueView::Text(c@)),
        r.parent_area_id matches Some(p) ==> writes_column(area_columns(r), area_params(r), "parent_area_id"@, SqlValueView::NullableUuid(p)),
{
    lemma_area_lengths(r);
    lemma_area_writes_name(r);
    lemma_area_writes_color(r);
    lemma_area_writes_parent(r);
}

} // verus!
