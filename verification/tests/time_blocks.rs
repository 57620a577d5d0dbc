use cutie::dates::CalendarDate;
use cutie::entities::TimeType;
use cutie::errors::AppError;
use cutie::time_block_recurrences::create_time_block_recurrence::{first_instance_link, validate_request, CreateTimeBlockRecurrenceFullRequest};
use cutie::time_block_recurrences::edit_time_block_recurrence::{
    build_recurrence_update, build_template_update, deletes_future_instances, has_recurrence_updates, has_template_updates,
    parse_local_now, validate_request as validate_edit, EditTimeBlockRecurrenceRequest,
};
use cutie::time_block_recurrences::resume_time_block_recurrence::{check_can_resume, resume_update};
use cutie::time_block_recurrences::stop_time_block_recurrence::{
    delete_threshold, next_day, parse_stop_date, recurrence_not_found, stop_update, StopRecurrenceRequest,
};
use cutie::time_block_recurrences::delete_time_block_recurrence::today_start;
use cutie::time_blocks::{orphan_blocks_to_delete, push_unique, should_delete_orphan_block, LinkedBlock};

fn errors(e: AppError) -> Vec<(String, String, String)> {
    match e {
        AppError::ValidationFailed(v) => v.into_iter().map(|f| (f.field, f.message, f.code)).collect(),
        other => panic!("expected a validation failure, got {:?}", other),
    }
}

fn create() -> CreateTimeBlockRecurrenceFullRequest {
    CreateTimeBlockRecurrenceFullRequest {
        title: Some("Focus".to_string()),
        glance_note_template: None,
        detail_note_template: None,
        duration_minutes: 60,
        start_time_local: "09:00:00".to_string(),
        time_type: None,
        is_all_day: None,
        area_id: None,
        rule: "FREQ=DAILY".to_string(),
        start_date: Some("2025-01-01".to_string()),
        end_date: Some("2025-02-01".to_string()),
        timezone: None,
        source_time_block_id: Some(4),
    }
}

#[test]
fn new_time_block_recurrence_rules() {
    assert!(validate_request(&create()).is_ok());
    let mut r = create();
    r.duration_minutes = 0;
    r.start_time_local = "9am".to_string();
    r.rule = " ".to_string();
    r.start_date = Some("2025-02-02".to_string());
    let e = errors(validate_request(&r).unwrap_err());
    let codes: Vec<&str> = e.iter().map(|x| x.2.as_str()).collect();
    assert_eq!(codes, vec!["DURATION_INVALID", "TIME_FORMAT_INVALID", "RULE_EMPTY", "DATE_RANGE_INVALID"]);
    let mut r = create();
    r.start_date = Some("x".to_string());
    r.end_date = Some("y".to_string());
    let e = errors(validate_request(&r).unwrap_err());
    assert_eq!(e.len(), 2);
    assert_eq!(e[0].0, "start_date");
    assert_eq!(e[1].0, "end_date");
    assert_eq!(e[1].2, "DATE_FORMAT_INVALID");
    assert_eq!(first_instance_link(Some(4), &Some("2025-01-01".to_string())), Some((4u128, "2025-01-01".to_string())));
    assert_eq!(first_instance_link(Some(4), &None), None);
    assert_eq!(first_instance_link(None, &Some("2025-01-01".to_string())), None);
}

fn edit() -> EditTimeBlockRecurrenceRequest {
    EditTimeBlockRecurrenceRequest {
        local_now: "2025-03-01T08:30".to_string(),
        delete_future_instances: None,
        title: None,
        glance_note_template: None,
        detail_note_template: None,
        duration_minutes: None,
        time_type: None,
        is_all_day: None,
        area_id: None,
        rule: None,
        end_date: None,
        timezone: None,
        skip_conflicts: None,
    }
}

#[test]
fn edit_rules_and_updates() {
    assert!(validate_edit(&edit()).is_ok());
    let mut e = edit();
    e.local_now = " ".to_string();
    e.end_date = Some(Some("someday".to_string()));
    e.rule = Some("".to_string());
    let errs = errors(validate_edit(&e).unwrap_err());
    let codes: Vec<&str> = errs.iter().map(|x| x.2.as_str()).collect();
    assert_eq!(codes, vec!["LOCAL_NOW_REQUIRED", "INVALID_DATE", "RULE_EMPTY"]);
    assert!(deletes_future_instances(&edit()));
    let t = build_template_update(&edit());
    let u = build_recurrence_update(&edit());
    assert!(!has_template_updates(&t));
    assert!(!has_recurrence_updates(&u));
    let mut e = edit();
    e.time_type = Some(TimeType::Fixed);
    e.delete_future_instances = Some(false);
    assert!(!deletes_future_instances(&e));
    assert!(has_template_updates(&build_template_update(&e)));
    assert!(has_recurrence_updates(&build_recurrence_update(&e)));
    let mut e = edit();
    e.duration_minutes = Some(30);
    assert!(has_template_updates(&build_template_update(&e)));
    assert!(!has_recurrence_updates(&build_recurrence_update(&e)));
    assert!(build_template_update(&e).start_time_local.is_none());
    let mut e = edit();
    e.end_date = Some(None);
    let u = build_recurrence_update(&e);
    assert!(has_recurrence_updates(&u));
    assert!(u.start_date.is_none() && u.is_active.is_none() && u.template_id.is_none());
}

#[test]
fn local_now_is_read_to_the_minute() {
    assert!(parse_local_now("2025-03-01T08:30").is_ok());
    let e = errors(parse_local_now("2025-03-01 08:30").unwrap_err());
    assert_eq!(e[0], ("local_now".to_string(), "local_now must be in YYYY-MM-DDTHH:mm format".to_string(), "INVALID_LOCAL_NOW".to_string()));
}

#[test]
fn stop_and_resume() {
    let d = parse_stop_date(&StopRecurrenceRequest { stop_date: "2024-02-28".to_string() }).unwrap();
    let n = next_day(&d);
    assert_eq!((n.year, n.month, n.day), (2024, 2, 29));
    let n = next_day(&CalendarDate { year: 2023, month: 12, day: 31 });
    assert_eq!((n.year, n.month, n.day), (2024, 1, 1));
    let n = next_day(&CalendarDate { year: 262142, month: 12, day: 31 });
    assert_eq!((n.year, n.month, n.day), (262142, 12, 31));
    assert!(delete_threshold(&d).is_some());
    let e = errors(parse_stop_date(&StopRecurrenceRequest { stop_date: "2024/02/28".to_string() }).unwrap_err());
    assert_eq!(e[0], ("stop_date".to_string(), "停止日期格式无效，应为 YYYY-MM-DD".to_string(), "INVALID_DATE_FORMAT".to_string()));
    let u = stop_update(&StopRecurrenceRequest { stop_date: "2024-02-28".to_string() });
    assert_eq!(u.end_date, Some(Some("2024-02-28".to_string())));
    assert!(check_can_resume(&Some("2024-02-28".to_string())).is_ok());
    assert_eq!(errors(check_can_resume(&None).unwrap_err())[0].2, "RECURRENCE_NOT_STOPPED");
    let r = resume_update();
    assert_eq!(r.end_date, Some(None));
    assert_eq!(r.is_active, Some(true));
    assert!(matches!(recurrence_not_found(1), AppError::NotFound { .. }));
}

#[test]
fn orphan_blocks_are_only_task_made_ones() {
    assert!(should_delete_orphan_block(0, &Some("native::from_task".to_string())));
    assert!(!should_delete_orphan_block(1, &Some("native::from_task".to_string())));
    assert!(!should_delete_orphan_block(0, &Some("native::manual".to_string())));
    assert!(!should_delete_orphan_block(0, &None));
    let blocks = vec![
        LinkedBlock { id: 1, remaining_tasks: 0, source_type: Some("native::from_task".to_string()) },
        LinkedBlock { id: 2, remaining_tasks: 0, source_type: Some("external::google".to_string()) },
        LinkedBlock { id: 3, remaining_tasks: 2, source_type: Some("native::from_task".to_string()) },
        LinkedBlock { id: 4, remaining_tasks: 0, source_type: Some("native::from_task".to_string()) },
    ];
    assert_eq!(orphan_blocks_to_delete(&blocks), vec![1, 4]);
}

#[test]
fn push_unique_never_duplicates() {
    let mut ids = vec![];
    for id in [3u128, 1, 3, 2, 1] {
        push_unique(&mut ids, id);
    }
    assert_eq!(ids, vec![3, 1, 2]);
}

#[test]
fn today_starts_at_a_local_midnight() {
    let t = today_start().unwrap();
    assert!(t.nanos == 0);
}

#[test]
fn delete_threshold_is_the_next_local_midnight() {
    let d = CalendarDate { year: 2024, month: 2, day: 28 };
    let t = delete_threshold(&d).unwrap();
    assert_eq!(t.nanos, 0);
    assert!(t.seconds > 1709164800 - 86400 && t.seconds < 1709164800 + 86400);
}
