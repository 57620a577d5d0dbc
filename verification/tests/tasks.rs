use cutie::dates::{CalendarDate, Instant};
use cutie::entities::{Outcome, ScheduleStatus, Subtask, TemplateCategory};
use cutie::errors::AppError;
use cutie::tasks::batch_init_ranks::{generate_ranks, validate, BatchInitRanksRequest};
use cutie::tasks::complete_task::{
    check_can_complete, classify_time_block_action, plan_block_changes, CompletionBlock, complete_all_subtasks, determine_schedule_date,
    has_future_schedule, schedule_date_for_view, schedule_status_on, TimeBlockAction,
};
use cutie::tasks::create_task::{inherited_area_id, needs_project_area};
use cutie::tasks::create_task_with_schedule::{
    parse_date as parse_create_date, should_auto_classify, validate_request as validate_create,
    CreateTaskWithScheduleRequest,
};
use cutie::tasks::create_template_from_task::{
    template_category, template_from_task, CreateTemplateFromTaskRequest, TaskContent,
};
use cutie::tasks::delete_schedule::{
    blocks_on_day, find_floating_time_blocks_for_day, orphaned_blocks, parse_date as parse_delete_date, BlockDay,
    BlockLinks, BlockStart,
};
use cutie::tasks::lifecycle::{task_not_found, trashed_task_not_found};
use cutie::tasks::permanently_delete_task::check_can_permanently_delete;
use cutie::tasks::reopen_task::check_can_reopen;
use cutie::tasks::restore_task::check_can_restore;
use cutie::tasks::return_to_staging::reopens_on_return_to_staging;
use cutie::tasks::unarchive_task::check_can_unarchive;
use cutie::tasks::transaction::{none_if_empty, SideEffects};
use cutie::tasks::update_schedule::{
    check_target_day_free, outcome_text, parse_date, parse_outcome, schedule_not_found, validate_request,
    UpdateScheduleRequest,
};
use cutie::tasks::update_sort_position::{rank_or_fail, validate as validate_sort, UpdateSortPositionRequest};

fn field_errors(e: AppError) -> Vec<(String, String, String)> {
    match e {
        AppError::ValidationFailed(v) => v.into_iter().map(|f| (f.field, f.message, f.code)).collect(),
        other => panic!("expected a validation failure, got {:?}", other),
    }
}

fn conflict_message(e: AppError) -> String {
    match e {
        AppError::Conflict { message } => message,
        other => panic!("expected a conflict, got {:?}", other),
    }
}

fn at(seconds: i64) -> Instant {
    Instant { seconds, nanos: 0 }
}

#[test]
fn completion_day_depends_on_view() {
    assert_eq!(schedule_date_for_view("daily::2025-01-01", "2025-03-01").unwrap(), "2025-01-01");
    assert_eq!(schedule_date_for_view("daily::2025-05-01", "2025-03-01").unwrap(), "2025-03-01");
    assert_eq!(schedule_date_for_view("daily::2025-03-01", "2025-03-01").unwrap(), "2025-03-01");
    assert_eq!(schedule_date_for_view("misc::staging", "2025-03-01").unwrap(), "2025-03-01");
    assert_eq!(schedule_date_for_view("area::x", "2025-03-01").unwrap(), "2025-03-01");
    assert_eq!(schedule_date_for_view("project::x", "2025-03-01").unwrap(), "2025-03-01");
    let e = field_errors(schedule_date_for_view("daily", "2025-03-01").unwrap_err());
    assert_eq!(e[0].2, "MISSING_DATE");
    let e = field_errors(schedule_date_for_view("daily::not-a-date", "2025-03-01").unwrap_err());
    assert_eq!(e[0].0, "view_context");
    assert_eq!(e[0].2, "INVALID_DATE_FORMAT");
    let e = field_errors(schedule_date_for_view("daily::", "2025-03-01").unwrap_err());
    assert_eq!(e[0].2, "INVALID_DATE_FORMAT");
    let e = field_errors(schedule_date_for_view("daily::2025-02-30", "2025-03-01").unwrap_err());
    assert_eq!(e[0].2, "INVALID_DATE_FORMAT");
    let e = field_errors(schedule_date_for_view("weekly::x", "2025-03-01").unwrap_err());
    assert_eq!(e[0], ("view_context".to_string(), "Unknown view context type".to_string(), "UNKNOWN_VIEW_CONTEXT_TYPE".to_string()));
    assert!(determine_schedule_date("misc::staging").unwrap().len() >= 10);
}

#[test]
fn completion_touches_only_own_blocks() {
    let title = Some("Write".to_string());
    assert_eq!(classify_time_block_action(false, &title, "Write", &at(10), &at(20), &at(15)), TimeBlockAction::Kept);
    assert_eq!(classify_time_block_action(true, &title, "Write", &at(10), &at(20), &at(15)), TimeBlockAction::Truncated);
    assert_eq!(classify_time_block_action(true, &title, "Write", &at(10), &at(20), &at(5)), TimeBlockAction::Deleted);
    assert_eq!(classify_time_block_action(true, &title, "Write", &at(10), &at(20), &at(25)), TimeBlockAction::Kept);
    assert_eq!(classify_time_block_action(true, &Some("Other".to_string()), "Write", &at(10), &at(20), &at(5)), TimeBlockAction::Kept);
    assert_eq!(classify_time_block_action(true, &None, "Write", &at(10), &at(20), &at(5)), TimeBlockAction::Kept);
}

#[test]
fn staging_means_nothing_today_or_later() {
    let today = CalendarDate { year: 2025, month: 3, day: 10 };
    let past = Some(vec!["2025-03-09".to_string(), "garbage".to_string()]);
    assert!(!has_future_schedule(&past, &today));
    assert_eq!(schedule_status_on(&past, &today), ScheduleStatus::Staging);
    let today_only = Some(vec!["2025-03-10".to_string()]);
    assert_eq!(schedule_status_on(&today_only, &today), ScheduleStatus::Scheduled);
    assert_eq!(schedule_status_on(&None, &today), ScheduleStatus::Staging);
}

#[test]
fn completing_marks_every_subtask() {
    let subs = Some(vec![
        Subtask { id: 1, title: "a".to_string(), is_completed: false, sort_order: "a".to_string() },
        Subtask { id: 2, title: "b".to_string(), is_completed: true, sort_order: "b".to_string() },
    ]);
    let done = complete_all_subtasks(&subs).unwrap();
    assert!(done.iter().all(|s| s.is_completed));
    assert_eq!(done[0].title, "a");
    assert!(complete_all_subtasks(&None).is_none());
}

#[test]
fn lifecycle_checks_refuse_the_wrong_state() {
    assert!(check_can_complete(false).is_ok());
    assert_eq!(conflict_message(check_can_complete(true).unwrap_err()), "任务已经完成");
    assert!(check_can_reopen(true).is_ok());
    assert_eq!(conflict_message(check_can_reopen(false).unwrap_err()), "任务尚未完成");
    assert!(check_can_unarchive(true).is_ok());
    assert_eq!(conflict_message(check_can_unarchive(false).unwrap_err()), "任务未归档");
    assert!(check_can_restore(true).is_ok());
    assert_eq!(conflict_message(check_can_restore(false).unwrap_err()), "Task is not in trash");
    assert!(check_can_permanently_delete(true).is_ok());
    assert_eq!(
        conflict_message(check_can_permanently_delete(false).unwrap_err()),
        "Task is not in trash, cannot permanently delete"
    );
    assert!(reopens_on_return_to_staging(true));
    assert!(!reopens_on_return_to_staging(false));
}

#[test]
fn complete_and_reopen_are_complementary_on_both_states() {
    for done in [false, true] {
        assert_ne!(check_can_complete(done).is_ok(), check_can_reopen(done).is_ok());
    }
}

#[test]
fn not_found_errors_name_the_task() {
    match task_not_found(1) {
        AppError::NotFound { entity_type, entity_id } => {
            assert_eq!(entity_type, "Task");
            assert_eq!(entity_id, "00000000-0000-0000-0000-000000000001");
        },
        other => panic!("{:?}", other),
    }
    match trashed_task_not_found(2) {
        AppError::NotFound { entity_type, .. } => assert_eq!(entity_type, "Task in trash"),
        other => panic!("{:?}", other),
    }
    match schedule_not_found(3, "2025-01-02") {
        AppError::NotFound { entity_type, entity_id } => {
            assert_eq!(entity_type, "Schedule");
            assert_eq!(entity_id, "Task 00000000-0000-0000-0000-000000000003 on 2025-01-02");
        },
        other => panic!("{:?}", other),
    }
}

#[test]
fn outcome_names_round_trip() {
    for o in [Outcome::Planned, Outcome::PresenceLogged, Outcome::CompletedOnDay, Outcome::CarriedOver] {
        assert_eq!(parse_outcome(outcome_text(o)).unwrap(), o);
    }
    assert_eq!(outcome_text(Outcome::PresenceLogged), "PRESENCE_LOGGED");
    let e = field_errors(parse_outcome("DONE").unwrap_err());
    assert_eq!(e[0], ("outcome".to_string(), "无效的 outcome 值: DONE".to_string(), "INVALID_OUTCOME".to_string()));
}

#[test]
fn schedule_days_are_normalized() {
    assert_eq!(parse_date("2025-1-5").unwrap(), "2025-01-05");
    let t = parse_date("2025-1-5").unwrap();
    assert_eq!(t.len(), 10);
    assert_eq!(parse_date(&t).unwrap(), t);
    assert_eq!(parse_date("0005-01-01").unwrap(), "0005-01-01");
    assert_eq!(parse_delete_date("2025-01-05").unwrap(), "2025-01-05");
    assert_eq!(parse_create_date("2025-12-31").unwrap(), "2025-12-31");
    let e = field_errors(parse_date("2025/01/05").unwrap_err());
    assert_eq!(e[0], ("scheduled_day".to_string(), "日期格式错误，请使用 YYYY-MM-DD 格式".to_string(), "INVALID_DATE_FORMAT".to_string()));
}

#[test]
fn schedule_update_needs_a_change() {
    let e = field_errors(validate_request(&UpdateScheduleRequest { new_date: None, outcome: None }).unwrap_err());
    assert_eq!(e[0].2, "EMPTY_REQUEST");
    assert!(validate_request(&UpdateScheduleRequest { new_date: None, outcome: Some("PLANNED".to_string()) }).is_ok());
    assert!(check_target_day_free("2025-01-01", "2025-01-01", true).is_ok());
    assert!(check_target_day_free("2025-01-01", "2025-01-02", false).is_ok());
    assert_eq!(conflict_message(check_target_day_free("2025-01-01", "2025-01-02", true).unwrap_err()), "目标日期已有日程安排");
}

fn schedule_request(title: &str) -> CreateTaskWithScheduleRequest {
    CreateTaskWithScheduleRequest {
        title: title.to_string(),
        scheduled_day: "2025-01-01".to_string(),
        glance_note: None,
        detail_note: None,
        estimated_duration: None,
        area_id: None,
        due_date: None,
        due_date_type: None,
        subtasks: None,
        project_id: None,
        section_id: None,
    }
}

#[test]
fn scheduled_task_rules_first_failure_wins() {
    assert!(validate_create(&schedule_request("Plan")).is_ok());
    assert_eq!(field_errors(validate_create(&schedule_request("  ")).unwrap_err())[0].2, "TITLE_EMPTY");
    assert_eq!(field_errors(validate_create(&schedule_request(&"x".repeat(256))).unwrap_err())[0].2, "TITLE_TOO_LONG");
    assert!(validate_create(&schedule_request(&"x".repeat(255))).is_ok());
    let mut r = schedule_request("Plan");
    r.scheduled_day = "soon".to_string();
    assert_eq!(field_errors(validate_create(&r).unwrap_err())[0].2, "INVALID_DATE_FORMAT");
    let mut r = schedule_request("Plan");
    r.estimated_duration = Some(-1);
    assert_eq!(field_errors(validate_create(&r).unwrap_err())[0].2, "DURATION_NEGATIVE");
    r.estimated_duration = Some(10081);
    assert_eq!(field_errors(validate_create(&r).unwrap_err())[0].2, "DURATION_TOO_LONG");
    r.estimated_duration = Some(10080);
    assert!(validate_create(&r).is_ok());
    r.subtasks = Some((0..51).map(|i| Subtask { id: i, title: "s".to_string(), is_completed: false, sort_order: "a".to_string() }).collect());
    assert_eq!(field_errors(validate_create(&r).unwrap_err())[0].2, "TOO_MANY_SUBTASKS");
    assert!(should_auto_classify(None, false));
    assert!(!should_auto_classify(Some(1), false));
    assert!(!should_auto_classify(None, true));
}

#[test]
fn new_task_inherits_project_area() {
    assert!(needs_project_area(None, Some(4)));
    assert!(!needs_project_area(Some(1), Some(4)));
    assert_eq!(inherited_area_id(None, Some(4), Some(Some(9))), Some(9));
    assert_eq!(inherited_area_id(None, Some(4), None), None);
    assert_eq!(inherited_area_id(Some(1), Some(4), Some(Some(9))), Some(1));
    assert_eq!(inherited_area_id(None, None, None), None);
}

#[test]
fn template_from_task_takes_task_content() {
    let task = TaskContent {
        title: "Task".to_string(),
        glance_note: Some("g".to_string()),
        detail_note: None,
        estimated_duration: Some(25),
        subtasks: None,
        area_id: Some(3),
    };
    let t = template_from_task(&task, &CreateTemplateFromTaskRequest { title: None, category: Some("RECURRENCE".to_string()) });
    assert_eq!(t.title, "Task");
    assert_eq!(t.category, TemplateCategory::Recurrence);
    assert_eq!(t.estimated_duration_template, Some(25));
    let t = template_from_task(&task, &CreateTemplateFromTaskRequest { title: Some("Mine".to_string()), category: Some("recurrence".to_string()) });
    assert_eq!(t.title, "Mine");
    assert_eq!(t.category, TemplateCategory::General);
    assert_eq!(template_category(&None), TemplateCategory::General);
}

#[test]
fn blocks_of_the_day_and_orphans() {
    let blocks = vec![
        BlockDay { id: 1, local_day: CalendarDate { year: 2025, month: 1, day: 5 } },
        BlockDay { id: 2, local_day: CalendarDate { year: 2025, month: 1, day: 6 } },
        BlockDay { id: 3, local_day: CalendarDate { year: 2025, month: 1, day: 5 } },
    ];
    assert_eq!(blocks_on_day(&blocks, "2025-01-05"), vec![1, 3]);
    let links = vec![BlockLinks { id: 1, remaining_links: 0 }, BlockLinks { id: 3, remaining_links: 2 }];
    assert_eq!(orphaned_blocks(&links), vec![1]);
    let starts = vec![BlockStart { id: 7, start: Instant { seconds: 1_736_078_400, nanos: 0 } }];
    let found = find_floating_time_blocks_for_day(&starts, "1970-01-01");
    assert!(found.is_empty());
}

#[test]
fn side_effects_leave_out_empty_lists() {
    assert!(none_if_empty::<u8>(vec![]).is_none());
    assert_eq!(none_if_empty(vec![1]).unwrap(), vec![1]);
    let s: SideEffects<u8> = SideEffects::from_blocks(vec![], vec![2]);
    assert!(s.deleted_time_blocks.is_none());
    assert_eq!(s.truncated_time_blocks.unwrap(), vec![2]);
    let e: SideEffects<u8> = SideEffects::empty();
    assert!(e.deleted_time_blocks.is_none() && e.truncated_time_blocks.is_none());
}

#[test]
fn sort_requests_need_a_view() {
    let e = field_errors(validate(&BatchInitRanksRequest { view_context: " ".to_string(), task_ids: vec![1] }).unwrap_err());
    assert_eq!(e[0].2, "VIEW_CONTEXT_REQUIRED");
    assert!(validate(&BatchInitRanksRequest { view_context: "misc::staging".to_string(), task_ids: vec![] }).is_ok());
    assert!(validate_sort(&UpdateSortPositionRequest { view_context: "daily::2025-01-01".to_string(), prev_task_id: None, next_task_id: None }).is_ok());
    assert_eq!(rank_or_fail(Some("a".to_string()), 1, "v").unwrap(), "a");
    let e = field_errors(rank_or_fail(None, 1, "misc::x").unwrap_err());
    assert_eq!(e[0].1, "Task 00000000-0000-0000-0000-000000000001 has no rank in view misc::x");
}

#[test]
fn ranks_chain_after_or_before() {
    let after = |prev: Option<String>, next: Option<String>| -> Result<String, AppError> {
        assert!(next.is_none());
        Ok(format!("{}x", prev.unwrap_or_default()))
    };
    let r = generate_ranks(None, &vec![10, 11, 12], &after).unwrap();
    let ranks: Vec<&str> = r.iter().map(|a| a.new_rank.as_str()).collect();
    assert_eq!(ranks, vec!["x", "xx", "xxx"]);
    assert_eq!(r[2].task_id, 12);
    let before = |prev: Option<String>, next: Option<String>| -> Result<String, AppError> {
        assert!(prev.is_none());
        Ok(format!("{}-", next.unwrap()))
    };
    let r = generate_ranks(Some("m".to_string()), &vec![1, 2], &before).unwrap();
    assert_eq!(r[0].new_rank, "m--");
    assert_eq!(r[1].new_rank, "m-");
    let failing = |_: Option<String>, _: Option<String>| -> Result<String, AppError> { Err(AppError::Conflict { message: "full".to_string() }) };
    assert!(generate_ranks(None, &vec![1], &failing).is_err());
    assert!(generate_ranks(None, &vec![], &failing).unwrap().is_empty());
}

#[test]
fn completion_plans_deletions_and_cuts() {
    let block = |id: u128, exclusive: bool, title: &str, start: i64, end: i64| CompletionBlock {
        id,
        is_exclusive: exclusive,
        title: Some(title.to_string()),
        start: at(start),
        end: at(end),
    };
    let blocks = vec![
        block(1, true, "Write", 10, 20),
        block(2, true, "Write", 30, 40),
        block(3, false, "Write", 30, 40),
        block(4, true, "Read", 30, 40),
        block(5, true, "Write", 0, 5),
        block(6, true, "Write", 50, 60),
    ];
    let (deleted, truncated) = plan_block_changes(&blocks, "Write", &at(15));
    assert_eq!(deleted, vec![2, 6]);
    assert_eq!(truncated, vec![1]);
}
