use cutie::dates::CalendarDate;
use cutie::entities::{Subtask, TimeType};
use cutie::errors::AppError;
use cutie::recurrences::batch_update_instances::{
    instance_subtasks_value, instance_update_plan, instance_update_sql, instances_updated_count,
    merge_subtasks_preserving_completion, BatchUpdateInstancesRequest,
};
use cutie::recurrences::batch_update_template_and_instances::{
    parse_stored_uuid, parse_task_ids, template_and_instances_updated_count, template_update_plan,
    template_update_sql, BatchUpdateTemplateAndInstancesRequest,
};
use cutie::recurrences::create_recurrence::{
    check_source_task_date, resolved_is_active, resolved_time_type, validate_request, CreateTaskRecurrenceRequest,
};
use cutie::recurrences::delete_recurrence::{recurrence_template_id, uncompleted_instance_ids};
use cutie::recurrences::rrule_text::{extract_until_from_rrule, rrule_until_readable};
use cutie::recurrences::update_recurrence::{
    check_date_matches_rrule, find_mismatched_instances, full_rrule, mismatched_instances_among,
    occurrences_include, validate_end_date_after_start, validate_update_request, RecurrenceInstance,
    UpdateTaskRecurrenceRequest,
};
use cutie::sql::SqlValue;

fn sub(id: u128, title: &str, done: bool) -> Subtask {
    Subtask { id, title: title.to_string(), is_completed: done, sort_order: format!("r{}", id) }
}

fn field_errors(e: AppError) -> Vec<(String, String, String)> {
    match e {
        AppError::ValidationFailed(v) => v.into_iter().map(|f| (f.field, f.message, f.code)).collect(),
        other => panic!("expected a validation failure, got {:?}", other),
    }
}

fn day(y: i32, m: u32, d: u32) -> CalendarDate {
    CalendarDate { year: y, month: m, day: d }
}

#[test]
fn until_is_read_as_a_dashed_date() {
    assert_eq!(extract_until_from_rrule("FREQ=DAILY;UNTIL=20251231").as_deref(), Some("2025-12-31"));
    assert_eq!(extract_until_from_rrule("UNTIL=20240101;FREQ=WEEKLY").as_deref(), Some("2024-01-01"));
    assert_eq!(extract_until_from_rrule("FREQ=DAILY"), None);
    assert_eq!(extract_until_from_rrule("FREQ=DAILY;UNTIL=20251231T000000Z"), None);
    assert!(rrule_until_readable("FREQ=DAILY;UNTIL=20251231"));
}

#[test]
fn create_recurrence_reports_every_broken_rule() {
    let request = CreateTaskRecurrenceRequest {
        template_id: 1,
        rule: "FREQ=DAILY;UNTIL=20251231".to_string(),
        time_type: None,
        start_date: Some("2026-01-05".to_string()),
        end_date: Some("2025-12-30".to_string()),
        timezone: None,
        is_active: None,
        source_task_id: None,
    };
    let errors = field_errors(validate_request(&request).unwrap_err());
    assert_eq!(errors.len(), 2);
    assert_eq!(errors[0].0, "field_0");
    assert_eq!(
        errors[0].1,
        "RRULE UNTIL and end_date must be consistent (or omit UNTIL and use end_date only)"
    );
    assert_eq!(errors[1].0, "field_1");
    assert_eq!(errors[1].1, "end_date must be after or equal to start_date");
    assert_eq!(errors[1].2, "VALIDATION_ERROR");
}

#[test]
fn create_recurrence_accepts_a_consistent_rule() {
    let request = CreateTaskRecurrenceRequest {
        template_id: 1,
        rule: "FREQ=DAILY;UNTIL=20251231".to_string(),
        time_type: Some(TimeType::Fixed),
        start_date: Some("2025-01-01".to_string()),
        end_date: Some("2025-12-31".to_string()),
        timezone: None,
        is_active: Some(false),
        source_task_id: Some(7),
    };
    assert!(validate_request(&request).is_ok());
    assert_eq!(resolved_time_type(request.time_type), TimeType::Fixed);
    assert_eq!(resolved_time_type(None), TimeType::Floating);
    assert!(!resolved_is_active(request.is_active));
    assert!(resolved_is_active(None));
}

#[test]
fn create_recurrence_needs_start_date_with_source_task() {
    let request = CreateTaskRecurrenceRequest {
        template_id: 1,
        rule: "   ".to_string(),
        time_type: None,
        start_date: None,
        end_date: Some("2025-13-01".to_string()),
        timezone: None,
        is_active: None,
        source_task_id: Some(3),
    };
    let errors = field_errors(validate_request(&request).unwrap_err());
    let messages: Vec<&str> = errors.iter().map(|e| e.1.as_str()).collect();
    assert_eq!(
        messages,
        vec![
            "rule cannot be empty",
            "start_date is required when source_task_id is provided",
            "end_date must be in YYYY-MM-DD format"
        ]
    );
}

#[test]
fn source_task_date_must_match_start() {
    assert!(check_source_task_date(&Some("2025-03-01".to_string()), "2025-03-01").is_ok());
    let e = field_errors(check_source_task_date(&Some("2025-03-02".to_string()), "2025-03-01").unwrap_err());
    assert_eq!(e[0].1, "Source task is scheduled on 2025-03-02, but start_date is 2025-03-01");
    assert_eq!(e[0].2, "DATE_MISMATCH");
    let e = field_errors(check_source_task_date(&None, "2025-03-01").unwrap_err());
    assert_eq!(e[0].2, "NO_SCHEDULE");
}

#[test]
fn update_recurrence_refuses_start_date_change() {
    let request = UpdateTaskRecurrenceRequest {
        template_id: None,
        rule: Some("FREQ=WEEKLY;UNTIL=20250101".to_string()),
        time_type: None,
        start_date: Some(None),
        end_date: Some(Some("2025-02-01".to_string())),
        timezone: None,
        is_active: None,
    };
    let errors = field_errors(validate_update_request(&request).unwrap_err());
    assert_eq!(errors.len(), 2);
    assert_eq!(errors[0].1, "Modifying start_date is not allowed");
    assert_eq!(errors[1].0, "field_1");
    let empty = UpdateTaskRecurrenceRequest {
        template_id: None,
        rule: None,
        time_type: None,
        start_date: None,
        end_date: None,
        timezone: None,
        is_active: None,
    };
    assert!(validate_update_request(&empty).is_ok());
}

#[test]
fn end_date_must_not_precede_start() {
    assert!(validate_end_date_after_start("2025-01-01", "2025-01-01").is_ok());
    let e = field_errors(validate_end_date_after_start("2025-01-02", "2025-01-01").unwrap_err());
    assert_eq!(e[0], ("end_date".to_string(), "end_date must be after or equal to start_date".to_string(), "INVALID_DATE_RANGE".to_string()));
    let e = field_errors(validate_end_date_after_start("bad", "2025-01-01").unwrap_err());
    assert_eq!(e[0].0, "start_date");
    assert!(e[0].1.starts_with("Invalid start_date format: "));
    assert_eq!(e[0].2, "INVALID_DATE");
}

#[test]
fn merge_keeps_completion_by_id_then_title() {
    let current = vec![sub(1, "a", true), sub(2, "b", true), sub(3, "c", false)];
    let new = vec![sub(1, "renamed", false), sub(9, "b", false), sub(10, "fresh", true), sub(3, "c", true)];
    let merged = merge_subtasks_preserving_completion(&current, &new);
    let states: Vec<bool> = merged.iter().map(|s| s.is_completed).collect();
    assert_eq!(states, vec![true, true, true, false]);
    let titles: Vec<&str> = merged.iter().map(|s| s.title.as_str()).collect();
    assert_eq!(titles, vec!["renamed", "b", "fresh", "c"]);
    assert_eq!(merged[1].id, 9);
}

#[test]
fn merge_into_itself_changes_nothing() {
    let list = vec![sub(1, "a", true), sub(2, "b", false)];
    let merged = merge_subtasks_preserving_completion(&list, &list);
    assert_eq!(merged.len(), 2);
    assert!(merged[0].is_completed && !merged[1].is_completed);
    assert_eq!(merged[0].sort_order, "r1");
}

#[test]
fn instance_subtasks_clear_on_empty_or_absent() {
    let current = vec![sub(1, "a", true)];
    assert!(instance_subtasks_value(&current, &None).is_none());
    assert!(instance_subtasks_value(&current, &Some(vec![])).is_none());
    let v = instance_subtasks_value(&current, &Some(vec![sub(1, "a", false)])).unwrap();
    assert!(v[0].is_completed);
}

#[test]
fn instance_plan_lists_columns_in_order() {
    let request = BatchUpdateInstancesRequest {
        title: Some("T".to_string()),
        glance_note: None,
        detail_note: Some(None),
        estimated_duration: None,
        area_id: Some(Some(5)),
        subtasks: None,
        update_from_date: None,
    };
    let plan = instance_update_plan(&request).unwrap();
    assert_eq!(plan.set_clause, "title = ?, detail_note = ?, area_id = ?, updated_at = ?");
    assert_eq!(plan.params.len(), 3);
    assert!(matches!(plan.params[1], SqlValue::NullableText(None)));
    assert_eq!(
        instance_update_sql(&plan, 3),
        "UPDATE tasks SET title = ?, detail_note = ?, area_id = ?, updated_at = ? WHERE id IN (?, ?, ?)"
    );
    let only_subtasks = BatchUpdateInstancesRequest {
        title: None,
        glance_note: None,
        detail_note: None,
        estimated_duration: None,
        area_id: None,
        subtasks: Some(Some(vec![])),
        update_from_date: None,
    };
    assert!(instance_update_plan(&only_subtasks).is_none());
}

#[test]
fn template_plan_includes_subtasks() {
    let request = BatchUpdateTemplateAndInstancesRequest {
        title: None,
        glance_note: Some(Some("g".to_string())),
        detail_note: None,
        estimated_duration: Some(Some(30)),
        area_id: None,
        subtasks: Some(None),
        update_from_date: None,
    };
    let plan = template_update_plan(&request).unwrap();
    assert_eq!(
        plan.set_clause,
        "glance_note_template = ?, estimated_duration_template = ?, subtasks_template = ?, updated_at = ?"
    );
    assert_eq!(template_update_sql(&plan), format!("UPDATE templates SET {} WHERE id = ?", plan.set_clause));
    let instances = request.instances_request();
    assert!(instances.estimated_duration == Some(Some(30)));
    let instance_plan = instance_update_plan(&instances).unwrap();
    assert_eq!(instance_plan.set_clause, "glance_note = ?, estimated_duration = ?, updated_at = ?");
    let nothing = BatchUpdateTemplateAndInstancesRequest {
        title: None,
        glance_note: None,
        detail_note: None,
        estimated_duration: None,
        area_id: None,
        subtasks: None,
        update_from_date: Some("2025-01-01".to_string()),
    };
    assert!(template_update_plan(&nothing).is_none());
}

#[test]
fn updated_counts_follow_each_endpoint() {
    assert_eq!(instances_updated_count(4, Some(2)), 2);
    assert_eq!(instances_updated_count(4, None), 4);
    assert_eq!(template_and_instances_updated_count(4, Some(2)), 6);
    assert_eq!(template_and_instances_updated_count(4, None), 4);
}

#[test]
fn stored_ids_must_be_uuids() {
    let ok = parse_stored_uuid("template_id", "67e55044-10b1-426f-9247-bb680e5fe0c8").unwrap();
    assert_eq!(ok, 0x67e5504410b1426f9247bb680e5fe0c8);
    let e = field_errors(parse_stored_uuid("template_id", "nope").unwrap_err());
    assert_eq!(e[0].0, "template_id");
    assert!(e[0].1.starts_with("Invalid UUID: "));
    assert_eq!(e[0].2, "INVALID_UUID");
    let texts = vec!["00000000-0000-0000-0000-000000000001".to_string(), "x".to_string()];
    let e = field_errors(parse_task_ids(&texts).unwrap_err());
    assert_eq!(e[0].0, "task_id");
    assert_eq!(uncompleted_instance_ids(&texts), vec![1u128]);
    match recurrence_template_id("zz").unwrap_err() {
        AppError::Conflict { message } => assert!(message.starts_with("Invalid template_id UUID 'zz': ")),
        other => panic!("{:?}", other),
    }
}

#[test]
fn occurrences_are_scanned_in_order() {
    let occ = vec![day(2025, 1, 1), day(2025, 1, 3), day(2025, 1, 5)];
    assert!(occurrences_include(&occ, &day(2025, 1, 3)));
    assert!(!occurrences_include(&occ, &day(2025, 1, 2)));
    assert!(!occurrences_include(&occ, &day(2025, 2, 1)));
}

#[test]
fn full_rrule_uses_start_date_without_dashes() {
    let text = full_rrule(&Some("2025-01-06".to_string()), &day(2024, 5, 5), "FREQ=WEEKLY");
    assert_eq!(text, "DTSTART:20250106\nRRULE:FREQ=WEEKLY");
    let text = full_rrule(&None, &day(2024, 5, 5), "FREQ=DAILY");
    assert_eq!(text, "DTSTART:20240505\nRRULE:FREQ=DAILY");
}

#[test]
fn daily_rule_matches_every_day_after_start() {
    let r = check_date_matches_rrule(&day(2025, 1, 10), "FREQ=DAILY", &Some("2025-01-01".to_string()), &day(2024, 1, 1));
    assert!(r.unwrap());
    let r = check_date_matches_rrule(&day(2024, 12, 31), "FREQ=DAILY", &Some("2025-01-01".to_string()), &day(2024, 1, 1));
    assert!(!r.unwrap());
    let e = field_errors(check_date_matches_rrule(&day(2025, 1, 10), "FREQ=SOMETIMES", &None, &day(2024, 1, 1)).unwrap_err());
    assert_eq!(e[0].0, "rule");
    assert_eq!(e[0].2, "INVALID_RRULE");
}

#[test]
fn mismatched_instances_are_those_the_rule_skips() {
    let instances = vec![
        RecurrenceInstance { task_id: "a".to_string(), instance_date: "2025-01-01".to_string() },
        RecurrenceInstance { task_id: "b".to_string(), instance_date: "2025-01-02".to_string() },
        RecurrenceInstance { task_id: "c".to_string(), instance_date: "2025-01-03".to_string() },
    ];
    let occ = vec![day(2025, 1, 1), day(2025, 1, 3)];
    let r = mismatched_instances_among(&instances, &occ).unwrap();
    assert_eq!(r.len(), 1);
    assert_eq!(r[0].task_id, "b");
    let weekly = find_mismatched_instances(&instances, "FREQ=WEEKLY", &Some("2025-01-01".to_string()), &day(2024, 1, 1)).unwrap();
    let ids: Vec<&str> = weekly.iter().map(|i| i.task_id.as_str()).collect();
    assert_eq!(ids, vec!["b", "c"]);
    assert!(find_mismatched_instances(&vec![], "garbage", &None, &day(2024, 1, 1)).unwrap().is_empty());
    let bad = vec![RecurrenceInstance { task_id: "a".to_string(), instance_date: "01/02/2025".to_string() }];
    let e = field_errors(find_mismatched_instances(&bad, "FREQ=DAILY", &None, &day(2024, 1, 1)).unwrap_err());
    assert_eq!(e[0].0, "instance_date");
    assert!(e[0].1.starts_with("Invalid date format: "));
}
