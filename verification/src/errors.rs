use vstd::prelude::*;

use crate::dates::decimal;

verus! {

/// One failed validation rule: the request field, a human-readable message and a stable code.
#[derive(Debug)]
pub struct FieldError {
    pub field: String,
    pub message: String,
    pub code: String,
}

pub struct FieldErrorView {
    pub field: Seq<char>,
    pub message: Seq<char>,
    pub code: Seq<char>,
}

impl View for FieldError {
    type V = FieldErrorView;

    open spec fn view(&self) -> FieldErrorView {
        FieldErrorView { field: self.field@, message: self.message@, code: self.code@ }
    }
}

/// The errors that the endpoints answer with.
#[derive(Debug)]
pub enum AppError {
    /// 422: one or more request fields break a rule.
    ValidationFailed(Vec<FieldError>),
    /// 404: the named entity does not exist.
    NotFound { entity_type: String, entity_id: String },
    /// 409: the request conflicts with the current state.
    Conflict { message: String },
}

pub enum AppErrorView {
    ValidationFailed(Seq<FieldErrorView>),
    NotFound { entity_type: Seq<char>, entity_id: Seq<char> },
    Conflict { message: Seq<char> },
}

impl View for AppError {
    type V = AppErrorView;

    open spec fn view(&self) -> AppErrorView {
        match self {
            AppError::ValidationFailed(errors) => AppErrorView::ValidationFailed(
                errors@.map_values(|e: FieldError| e@),
            ),
            AppError::NotFound { entity_type, entity_id } => AppErrorView::NotFound {
                entity_type: entity_type@,
                entity_id: entity_id@,
            },
            AppError::Conflict { message } => AppErrorView::Conflict { message: message@ },
        }
    }
}

/// The result `r` is the one that `expected` describes, compared by views.
pub open spec fn result_is<T: View>(r: Result<T, AppError>, expected: Result<T::V, AppErrorView>) -> bool {
    match expected {
        Ok(v) => r matches Ok(x) && x@ == v,
        Err(e) => r matches Err(x) && x@ == e,
    }
}

/// The view of a validation failure that names a single field.
pub open spec fn single_field_error(field: Seq<char>, message: Seq<char>, code: Seq<char>) -> AppErrorView {
    AppErrorView::ValidationFailed(seq![FieldErrorView { field, message, code }])
}

pub fn field_error(field: &str, message: &str, code: &str) -> (e: FieldError)
    ensures
        e@ == (FieldErrorView { field: field@, message: message@, code: code@ }),
{
    FieldError { field: field.to_owned(), message: message.to_owned(), code: code.to_owned() }
}

/// A validation failure on a single field.
pub fn validation_error(field: &str, message: &str, code: &str) -> (e: AppError)
    ensures
        e@ == single_field_error(field@, message@, code@),
{
    let mut errors: Vec<FieldError> = Vec::new();
    errors.push(field_error(field, message, code));
    let e = AppError::ValidationFailed(errors);
    proof {
        assert(e@ == single_field_error(field@, message@, code@)) by {
            assert(errors@.map_values(|e: FieldError| e@) =~= seq![FieldErrorView { field: field@, message: message@, code: code@ }]);
        }
    }
    e
}

/// A 404 for the entity of the given type and id.
pub fn not_found(entity_type: &str, entity_id: &str) -> (e: AppError)
    ensures
        e@ == (AppErrorView::NotFound { entity_type: entity_type@, entity_id: entity_id@ }),
{
    AppError::NotFound { entity_type: entity_type.to_owned(), entity_id: entity_id.to_owned() }
}

/// A 409 with the given message.
pub fn conflict(message: &str) -> (e: AppError)
    ensures
        e@ == (AppErrorView::Conflict { message: message@ }),
{
    AppError::Conflict { message: message.to_owned() }
}

/// `field_{i}`, the field name of the `i`-th error of an accumulated list.
pub open spec fn indexed_field_name(i: int) -> Seq<char> {
    seq!['f', 'i', 'e', 'l', 'd', '_'] + decimal(i as nat)
}

/// The errors of an accumulated list of messages: `field_{i}`, the message, `VALIDATION_ERROR`.
pub open spec fn indexed_errors(messages: Seq<Seq<char>>) -> Seq<FieldErrorView> {
    Seq::new(
        messages.len(),
        |i: int| FieldErrorView { field: indexed_field_name(i), message: messages[i], code: "VALIDATION_ERROR"@ },
    )
}

/// `Ok` when no message was collected, else one validation failure listing them all.
pub open spec fn indexed_validation(messages: Seq<Seq<char>>) -> Result<(), AppErrorView> {
    if messages.len() == 0 {
        Ok(())
    } else {
        Err(AppErrorView::ValidationFailed(indexed_errors(messages)))
    }
}

pub open spec fn texts_of(v: Seq<&str>) -> Seq<Seq<char>> {
    v.map_values(|s: &str| s@)
}

/// The decimal digit `d`.
fn digit_text(d: usize) -> (r: &'static str)
    requires
        d < 10,
    ensures
        r@ == seq![(48 + d) as char],
{
    proof {
        reveal_strlit("0");
        reveal_strlit("1");
        reveal_strlit("2");
        reveal_strlit("3");
        reveal_strlit("4");
        reveal_strlit("5");
        reveal_strlit("6");
        reveal_strlit("7");
        reveal_strlit("8");
        reveal_strlit("9");
    }
    match d {
        0 => "0",
        1 => "1",
        2 => "2",
        3 => "3",
        4 => "4",
        5 => "5",
        6 => "6",
        7 => "7",
        8 => "8",
        _ => "9",
    }
}

/// The decimal digits of `n`.
fn decimal_string(n: usize) -> (r: String)
    ensures
        r@ == decimal(n as nat),
    decreases n,
{
    if n < 10 {
        digit_text(n).to_owned()
    } else {
        let mut s = decimal_string(n / 10);
        s.append(digit_text(n % 10));
        s
    }
}

/// `field_{i}`.
fn indexed_field_text(i: usize) -> (r: String)
    ensures
        r@ == indexed_field_name(i as int),
{
    proof {
        reveal_strlit("field_");
    }
    let mut r = "field_".to_owned();
    r.append(decimal_string(i).as_str());
    r
}

/// Turns the collected messages into the endpoint's answer.
pub fn indexed_validation_result(messages: &Vec<&str>) -> (r: Result<(), AppError>)
    ensures
        result_is(r, indexed_validation(texts_of(messages@))),
{
    if messages.len() == 0 {
        return Ok(());
    }
    let ghost expected = indexed_errors(texts_of(messages@));
    let mut errors: Vec<FieldError> = Vec::new();
    let mut i: usize = 0;
    while i < messages.len()
        invariant
            i <= messages@.len(),
            expected == indexed_errors(texts_of(messages@)),
            errors@.map_values(|e: FieldError| e@) == expected.subrange(0, i as int),
        decreases messages@.len() - i,
    {
        let name = indexed_field_text(i);
        let e = field_error(name.as_str(), messages[i], "VALIDATION_ERROR");
        assert(texts_of(messages@)[i as int] == messages@[i as int]@);
        assert(e@ == expected[i as int]);
        let ghost before = errors@;
        errors.push(e);
        proof {
            assert(errors@ == before.push(e));
            assert(errors@.map_values(|e: FieldError| e@) =~= before.map_values(|e: FieldError| e@).push(e@));
            assert(errors@.map_values(|e: FieldError| e@) =~= expected.subrange(0, i + 1));
        }
        i = i + 1;
    }
    proof {
        assert(expected.subrange(0, i as int) =~= expected);
    }
    Err(AppError::ValidationFailed(errors))
}

} // verus!
