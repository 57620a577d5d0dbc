use cutie::area::update_area::{area_update_plan, area_update_sql, check_area_update, UpdateAreaRequest};
use cutie::dates::CalendarDate;
use cutie::errors::{indexed_validation_result, AppError};
use cutie::projects::create_project::{validate_create_request, validate_create_request_on, CreateProjectRequest};
use cutie::projects::create_section::{validate_create_request as validate_section, CreateProjectSectionRequest};
use cutie::projects::delete_project::DeleteProjectSideEffects;
use cutie::projects::reorder_section::{check_neighbor_section, Neighbor};
use cutie::projects::sections::check_section_in_project;
use cutie::projects::update_section::{apply_section_update, validate_update_request, SectionFields, UpdateProjectSectionRequest};
use cutie::sql::SqlValue;

fn code(e: AppError) -> String {
    match e {
        AppError::ValidationFailed(v) => v[0].code.clone(),
        other => panic!("expected a validation failure, got {:?}", other),
    }
}

fn project(name: &str, due: Option<CalendarDate>) -> CreateProjectRequest {
    CreateProjectRequest { name: name.to_string(), description: None, due_date: due }
}

#[test]
fn project_rules() {
    let today = CalendarDate { year: 2025, month: 6, day: 1 };
    assert!(validate_create_request_on(&project("Home", None), &today).is_ok());
    assert_eq!(code(validate_create_request_on(&project(" ", None), &today).unwrap_err()), "NAME_EMPTY");
    assert_eq!(code(validate_create_request_on(&project(&"名".repeat(201), None), &today).unwrap_err()), "NAME_TOO_LONG");
    assert!(validate_create_request_on(&project(&"名".repeat(200), None), &today).is_ok());
    assert!(validate_create_request_on(&project(&format!("  {}  ", "名".repeat(100)), None), &today).is_ok());
    let mut p = project("Home", None);
    p.description = Some("描".repeat(2000));
    assert!(validate_create_request_on(&p, &today).is_ok());
    let mut p = project("Home", None);
    p.description = Some("d".repeat(2001));
    assert_eq!(code(validate_create_request_on(&p, &today).unwrap_err()), "DESCRIPTION_TOO_LONG");
    let yesterday = CalendarDate { year: 2025, month: 5, day: 31 };
    assert_eq!(code(validate_create_request_on(&project("Home", Some(yesterday)), &today).unwrap_err()), "DUE_DATE_IN_PAST");
    assert!(validate_create_request_on(&project("Home", Some(CalendarDate { year: 2025, month: 6, day: 1 })), &today).is_ok());
    assert!(validate_create_request(&project("Home", Some(CalendarDate { year: 9999, month: 1, day: 1 }))).is_ok());
}

#[test]
fn section_rules() {
    let ok = CreateProjectSectionRequest { title: "Doing".to_string(), description: None, sort_order: None };
    assert!(validate_section(&ok).is_ok());
    let blank = CreateProjectSectionRequest { title: "\t".to_string(), description: None, sort_order: None };
    assert_eq!(code(validate_section(&blank).unwrap_err()), "TITLE_EMPTY");
    let long = CreateProjectSectionRequest { title: "t".repeat(201), description: None, sort_order: None };
    assert_eq!(code(validate_section(&long).unwrap_err()), "TITLE_TOO_LONG");
    let cjk = CreateProjectSectionRequest { title: "项".repeat(100), description: None, sort_order: None };
    assert!(validate_section(&cjk).is_ok());
    let cjk = CreateProjectSectionRequest { title: "项".repeat(200), description: Some("描".repeat(2000)), sort_order: None };
    assert!(validate_section(&cjk).is_ok());
    let cjk = CreateProjectSectionRequest { title: "项".repeat(201), description: None, sort_order: None };
    assert_eq!(code(validate_section(&cjk).unwrap_err()), "TITLE_TOO_LONG");
    let cjk = UpdateProjectSectionRequest { title: Some("项".repeat(100)), description: None, sort_order: None };
    assert!(validate_update_request(&cjk).is_ok());
    let desc = CreateProjectSectionRequest { title: "ok".to_string(), description: Some("d".repeat(2001)), sort_order: None };
    assert_eq!(code(validate_section(&desc).unwrap_err()), "DESCRIPTION_TOO_LONG");
    let nothing = UpdateProjectSectionRequest { title: None, description: None, sort_order: None };
    assert!(validate_update_request(&nothing).is_ok());
    let clear = UpdateProjectSectionRequest { title: None, description: Some(None), sort_order: None };
    assert!(validate_update_request(&clear).is_ok());
    let bad = UpdateProjectSectionRequest { title: Some(" ".to_string()), description: None, sort_order: None };
    assert_eq!(code(validate_update_request(&bad).unwrap_err()), "TITLE_EMPTY");
}

#[test]
fn section_update_writes_only_given_fields() {
    let mut s = SectionFields { title: "Old".to_string(), description: Some("d".to_string()), sort_order: Some("a".to_string()) };
    apply_section_update(&mut s, UpdateProjectSectionRequest { title: None, description: Some(None), sort_order: Some("b".to_string()) });
    assert_eq!(s.title, "Old");
    assert!(s.description.is_none());
    assert_eq!(s.sort_order.as_deref(), Some("b"));
}

#[test]
fn sections_must_belong_to_the_project() {
    assert!(check_section_in_project(Some(1), 1, 9).is_ok());
    for found in [None, Some(2)] {
        match check_section_in_project(found, 1, 9).unwrap_err() {
            AppError::NotFound { entity_type, entity_id } => {
                assert_eq!(entity_type, "ProjectSection");
                assert_eq!(entity_id, "00000000-0000-0000-0000-000000000009");
            },
            other => panic!("{:?}", other),
        }
    }
    match check_neighbor_section(Neighbor::Next, None, 1, 5).unwrap_err() {
        AppError::NotFound { entity_type, .. } => assert_eq!(entity_type, "ProjectSection (next)"),
        other => panic!("{:?}", other),
    }
    assert_eq!(code(check_neighbor_section(Neighbor::Prev, Some(2), 1, 5).unwrap_err()), "PREV_SECTION_NOT_IN_PROJECT");
    assert_eq!(code(check_neighbor_section(Neighbor::Next, Some(2), 1, 5).unwrap_err()), "NEXT_SECTION_NOT_IN_PROJECT");
    assert!(check_neighbor_section(Neighbor::Prev, Some(1), 1, 5).is_ok());
}

#[test]
fn project_side_effects_empty_only_without_lists() {
    let none: DeleteProjectSideEffects<u8, u8> = DeleteProjectSideEffects::from_lists(vec![], vec![]);
    assert!(none.is_empty());
    let some: DeleteProjectSideEffects<u8, u8> = DeleteProjectSideEffects::from_lists(vec![1], vec![]);
    assert!(!some.is_empty());
    assert!(some.deleted_time_blocks.is_none());
}

#[test]
fn area_update_checks_and_plan() {
    let req = UpdateAreaRequest { name: Some("Work".to_string()), color: Some("#112233".to_string()), parent_area_id: Some(None) };
    assert!(check_area_update(true, 1, &req).is_ok());
    match check_area_update(false, 1, &req).unwrap_err() {
        AppError::NotFound { entity_type, .. } => assert_eq!(entity_type, "Area"),
        other => panic!("{:?}", other),
    }
    let bad = UpdateAreaRequest { name: Some(" ".to_string()), color: None, parent_area_id: None };
    assert_eq!(code(check_area_update(true, 1, &bad).unwrap_err()), "NAME_EMPTY");
    let bad = UpdateAreaRequest { name: None, color: Some("red".to_string()), parent_area_id: None };
    assert_eq!(code(check_area_update(true, 1, &bad).unwrap_err()), "INVALID_COLOR");
    let plan = area_update_plan(&req);
    assert_eq!(plan.set_clause, "name = ?, color = ?, parent_area_id = ?, updated_at = ?");
    assert!(matches!(plan.params[2], SqlValue::NullableUuid(None)));
    assert_eq!(area_update_sql(&plan), "UPDATE areas SET name = ?, color = ?, parent_area_id = ?, updated_at = ? WHERE id = ?");
    let empty = area_update_plan(&UpdateAreaRequest { name: None, color: None, parent_area_id: None });
    assert_eq!(empty.set_clause, "updated_at = ?");
    assert!(empty.params.is_empty());
    let moved = area_update_plan(&UpdateAreaRequest { name: None, color: None, parent_area_id: Some(Some(7)) });
    assert_eq!(moved.set_clause, "parent_area_id = ?, updated_at = ?");
    assert!(matches!(moved.params[0], SqlValue::NullableUuid(Some(7))));
}

#[test]
fn accumulated_messages_are_numbered_past_nine() {
    let messages: Vec<&str> = vec!["m"; 12];
    match indexed_validation_result(&messages).unwrap_err() {
        AppError::ValidationFailed(v) => {
            assert_eq!(v.len(), 12);
            assert_eq!(v[0].field, "field_0");
            assert_eq!(v[9].field, "field_9");
            assert_eq!(v[10].field, "field_10");
            assert_eq!(v[11].field, "field_11");
            assert_eq!(v[11].code, "VALIDATION_ERROR");
        },
        other => panic!("{:?}", other),
    }
    assert!(indexed_validation_result(&vec![]).is_ok());
}
