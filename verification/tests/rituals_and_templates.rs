use cutie::entities::{Subtask, TemplateCategory};
use cutie::errors::AppError;
use cutie::shutdown_ritual::create_step::{validate_request as validate_step, CreateShutdownRitualStepRequest};
use cutie::shutdown_ritual::get_state::{progress_step_id, validate_date};
use cutie::shutdown_ritual::steps::{check_step_exists, step_written};
use cutie::shutdown_ritual::update_step_sort_rank::{check_neighbors, UpdateShutdownRitualStepSortRequest};
use cutie::shutdown_ritual::toggle_progress::{toggled_completion, validate_date as validate_toggle_date};
use cutie::shutdown_ritual::update_settings::{normalized_title, validate_request as validate_settings, UpdateShutdownRitualSettingsRequest};
use cutie::shutdown_ritual::update_step::{validate_request as validate_step_update, UpdateShutdownRitualStepRequest};
use cutie::templates::batch_init_ranks::{assignments_as_tuple, generate_assignments, validate as validate_init, BatchInitTemplateRanksRequest};
use cutie::templates::create_task_from_template::{
    created_event_type, parse_date, replace_variables, validate_request as validate_from_template,
    CreateTaskFromTemplateRequest, SortPositionInput,
};
use cutie::templates::create_template::{category_or_default, validate_request as validate_template, CreateTemplateRequest};
use cutie::templates::update_sort_rank::{check_neighbors as check_template_neighbors, UpdateTemplateSortRequest};
use cutie::templates::update_template::{update_plan, validate_request as validate_template_update, UpdateTemplateRequest};

fn errors(e: AppError) -> Vec<(String, String, String)> {
    match e {
        AppError::ValidationFailed(v) => v.into_iter().map(|f| (f.field, f.message, f.code)).collect(),
        other => panic!("expected a validation failure, got {:?}", other),
    }
}

#[test]
fn step_title_errors_accumulate() {
    assert!(validate_step(&CreateShutdownRitualStepRequest { title: "Tidy desk".to_string() }).is_ok());
    let e = errors(validate_step(&CreateShutdownRitualStepRequest { title: " ".repeat(256) }).unwrap_err());
    assert_eq!(e.len(), 2);
    assert_eq!(e[0], ("title".to_string(), "title cannot be empty".to_string(), "TITLE_EMPTY".to_string()));
    assert_eq!(e[1], ("title".to_string(), "title too long (max 255 characters)".to_string(), "TITLE_TOO_LONG".to_string()));
    let e = errors(validate_step_update(&UpdateShutdownRitualStepRequest { title: "é".repeat(128) }).unwrap_err());
    assert_eq!(e.len(), 1);
    assert_eq!(e[0].2, "TITLE_TOO_LONG");
}

#[test]
fn ritual_settings_title() {
    assert!(validate_settings(&UpdateShutdownRitualSettingsRequest { title: None }).is_ok());
    assert!(validate_settings(&UpdateShutdownRitualSettingsRequest { title: Some(format!(" {} ", "夜".repeat(64))) }).is_ok());
    let e = errors(validate_settings(&UpdateShutdownRitualSettingsRequest { title: Some("夜".repeat(65)) }).unwrap_err());
    assert_eq!(e[0].2, "TITLE_TOO_LONG");
    let e = errors(validate_settings(&UpdateShutdownRitualSettingsRequest { title: Some("  ".to_string()) }).unwrap_err());
    assert_eq!(e[0], ("title".to_string(), "标题不能为空".to_string(), "TITLE_EMPTY".to_string()));
    assert_eq!(normalized_title(&Some("  Wind down ".to_string())).as_deref(), Some("Wind down"));
    assert!(normalized_title(&None).is_none());
}

#[test]
fn ritual_days_and_toggles() {
    assert!(validate_date("2025-02-28").is_ok());
    let e = errors(validate_date("2025-02-30").unwrap_err());
    assert_eq!(e[0], ("date".to_string(), "日期格式错误，请使用 YYYY-MM-DD 格式".to_string(), "INVALID_DATE_FORMAT".to_string()));
    assert!(validate_toggle_date("2024-02-29").is_ok());
    assert_eq!(toggled_completion::<u32>(None, 5), Some(5));
    assert_eq!(toggled_completion(Some(None), 5), Some(5));
    assert_eq!(toggled_completion(Some(Some(1)), 5), None);
    let once = toggled_completion(None, 5);
    assert_eq!(toggled_completion(Some(once), 6), None);
}

#[test]
fn ritual_step_neighbors_and_existence() {
    let same = UpdateShutdownRitualStepSortRequest { prev_step_id: Some(3), next_step_id: Some(3) };
    assert_eq!(errors(check_neighbors(&same).unwrap_err())[0].2, "INVALID_NEIGHBORS");
    assert!(check_neighbors(&UpdateShutdownRitualStepSortRequest { prev_step_id: None, next_step_id: None }).is_ok());
    assert!(check_neighbors(&UpdateShutdownRitualStepSortRequest { prev_step_id: Some(1), next_step_id: Some(2) }).is_ok());
    assert!(step_written(1, 4).is_ok());
    assert!(matches!(step_written(0, 4), Err(AppError::NotFound { .. })));
    assert!(check_step_exists(2, 4).is_ok());
    assert!(matches!(check_step_exists(0, 4), Err(AppError::NotFound { .. })));
}

fn template(title: &str, duration: Option<i32>) -> CreateTemplateRequest {
    CreateTemplateRequest {
        title: title.to_string(),
        glance_note_template: None,
        detail_note_template: None,
        estimated_duration_template: duration,
        subtasks_template: None,
        area_id: None,
        category: None,
    }
}

#[test]
fn template_rules_accumulate() {
    assert!(validate_template(&template("Read", Some(30))).is_ok());
    let e = errors(validate_template(&template("", Some(0))).unwrap_err());
    let codes: Vec<&str> = e.iter().map(|x| x.2.as_str()).collect();
    assert_eq!(codes, vec!["TITLE_EMPTY", "DURATION_INVALID"]);
    assert_eq!(e[1].0, "estimated_duration_template");
    assert_eq!(category_or_default(None), TemplateCategory::General);
    assert_eq!(category_or_default(Some(TemplateCategory::Recurrence)), TemplateCategory::Recurrence);
}

fn update() -> UpdateTemplateRequest {
    UpdateTemplateRequest {
        title: None,
        glance_note_template: None,
        detail_note_template: None,
        estimated_duration_template: None,
        subtasks_template: None,
        area_id: None,
        category: None,
    }
}

#[test]
fn template_update_rules_and_plan() {
    assert!(validate_template_update(&update()).is_ok());
    assert!(update_plan(&update()).is_none());
    let mut u = update();
    u.estimated_duration_template = Some(None);
    assert!(validate_template_update(&u).is_ok());
    u.estimated_duration_template = Some(Some(-5));
    assert_eq!(errors(validate_template_update(&u).unwrap_err())[0].2, "DURATION_INVALID");
    let mut u = update();
    u.title = Some("New".to_string());
    u.subtasks_template = Some(Some(vec![Subtask { id: 1, title: "s".to_string(), is_completed: false, sort_order: "a".to_string() }]));
    u.category = Some(TemplateCategory::Recurrence);
    let plan = update_plan(&u).unwrap();
    assert_eq!(plan.set_clause, "title = ?, subtasks_template = ?, category = ?, updated_at = ?");
    assert_eq!(plan.params.len(), 3);
}

#[test]
fn template_variables_are_replaced_in_order() {
    let vars = vec![("date".to_string(), "2025-01-09".to_string()), ("who".to_string(), "me".to_string())];
    assert_eq!(replace_variables("Review {{date}} with {{who}} ({{date}})", &vars), "Review 2025-01-09 with me (2025-01-09)");
    assert_eq!(replace_variables("No {{vars}} here", &vec![]), "No {{vars}} here");
    let chained = vec![("a".to_string(), "{{b}}".to_string()), ("b".to_string(), "x".to_string())];
    assert_eq!(replace_variables("{{a}}", &chained), "x");
}

#[test]
fn task_from_template_request_rules() {
    let ok = CreateTaskFromTemplateRequest { variables: vec![], scheduled_day: Some("2025-01-09".to_string()), sort_position: None };
    assert!(validate_from_template(&ok).is_ok());
    let bad_day = CreateTaskFromTemplateRequest { variables: vec![], scheduled_day: Some("9 Jan".to_string()), sort_position: None };
    assert_eq!(errors(validate_from_template(&bad_day).unwrap_err())[0].2, "INVALID_DATE_FORMAT");
    let blank_view = CreateTaskFromTemplateRequest {
        variables: vec![],
        scheduled_day: None,
        sort_position: Some(SortPositionInput { view_context: "  ".to_string(), prev_task_id: None, next_task_id: None }),
    };
    let e = errors(validate_from_template(&blank_view).unwrap_err());
    assert_eq!(e[0], ("sort_position.view_context".to_string(), "view_context cannot be empty".to_string(), "VIEW_CONTEXT_REQUIRED".to_string()));
    assert_eq!(parse_date("2025-01-09").unwrap(), "2025-01-09");
    assert_eq!(created_event_type(true), "task.created_with_schedule");
    assert_eq!(created_event_type(false), "task.created");
}

#[test]
fn template_ranks() {
    assert!(validate_init(&BatchInitTemplateRanksRequest { template_ids: vec![] }).is_ok());
    assert!(check_template_neighbors(&UpdateTemplateSortRequest { prev_template_id: Some(1), next_template_id: Some(1) }).is_err());
    let between = |prev: Option<String>, _next: Option<String>| -> Result<String, AppError> { Ok(format!("{}0", prev.unwrap_or_default())) };
    let a = generate_assignments(None, &vec![5, 6], &between).unwrap();
    let pairs = assignments_as_tuple(&a);
    assert_eq!(pairs, vec![(5u128, "0".to_string()), (6u128, "00".to_string())]);
}

#[test]
fn progress_rows_need_uuid_steps() {
    assert_eq!(progress_step_id("00000000-0000-0000-0000-00000000000a").unwrap(), 10);
    assert_eq!(errors(progress_step_id("step-1").unwrap_err())[0].2, "INVALID_UUID");
}
