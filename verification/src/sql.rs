use vstd::prelude::*;

use crate::entities::{Subtask, SubtaskView, subtasks_view, TemplateCategory};

verus! {

/// A value bound to a `?` placeholder of an UPDATE statement.
#[derive(Debug)]
pub enum SqlValue {
    Text(String),
    NullableText(Option<String>),
    NullableInt(Option<i32>),
    /// A UUID bound as its hyphenated text, or NULL.
    NullableUuid(Option<u128>),
    /// A subtask list bound as its JSON text, or NULL.
    NullableSubtasks(Option<Vec<Subtask>>),
    /// A template category bound as its text.
    Category(TemplateCategory),
}

pub enum SqlValueView {
    Text(Seq<char>),
    NullableText(Option<Seq<char>>),
    NullableInt(Option<i32>),
    NullableUuid(Option<u128>),
    NullableSubtasks(Option<Seq<SubtaskView>>),
    Category(TemplateCategory),
}

impl View for SqlValue {
    type V = SqlValueView;

    open spec fn view(&self) -> SqlValueView {
        match self {
            SqlValue::Text(s) => SqlValueView::Text(s@),
            SqlValue::NullableText(o) => SqlValueView::NullableText(
                match o {
                    Some(s) => Some(s@),
                    None => None,
                },
            ),
            SqlValue::NullableInt(o) => SqlValueView::NullableInt(*o),
            SqlValue::NullableUuid(o) => SqlValueView::NullableUuid(*o),
            SqlValue::NullableSubtasks(o) => SqlValueView::NullableSubtasks(
                match o {
                    Some(v) => Some(subtasks_view(v@)),
                    None => None,
                },
            ),
            SqlValue::Category(c) => SqlValueView::Category(*c),
        }
    }
}

/// The SET part of an UPDATE statement and the values of the placeholders it holds, in
/// order. The trailing `updated_at = ?` is bound by the caller, after these values.
#[derive(Debug)]
pub struct UpdatePlan {
    pub set_clause: String,
    pub params: Vec<SqlValue>,
}

pub open spec fn values_view(v: Seq<SqlValue>) -> Seq<SqlValueView> {
    v.map_values(|x: SqlValue| x@)
}

/// `c1 = ?, c2 = ?, ...` for the given columns.
pub open spec fn assignments_text(columns: Seq<Seq<char>>) -> Seq<char>
    decreases columns.len(),
{
    if columns.len() == 0 {
        seq![]
    } else if columns.len() == 1 {
        columns[0] + " = ?"@
    } else {
        assignments_text(columns.drop_last()) + ", "@ + columns.last() + " = ?"@
    }
}

/// `?, ?, ...` with `n` placeholders.
pub open spec fn placeholders_text(n: nat) -> Seq<char>
    decreases n,
{
    if n == 0 {
        seq![]
    } else if n == 1 {
        "?"@
    } else {
        placeholders_text((n - 1) as nat) + ", ?"@
    }
}

pub open spec fn texts_of_strs(v: Seq<&str>) -> Seq<Seq<char>> {
    v.map_values(|s: &str| s@)
}

/// Writes `c1 = ?, c2 = ?, ...`.
pub fn assignments(columns: &Vec<&str>) -> (r: String)
    ensures
        r@ == assignments_text(texts_of_strs(columns@)),
{
    let ghost cv = texts_of_strs(columns@);
    let mut out = String::new();
    let mut i: usize = 0;
    proof {
        assert(cv.subrange(0, 0) =~= Seq::<Seq<char>>::empty());
    }
    while i < columns.len()
        invariant
            i <= columns@.len(),
            cv == texts_of_strs(columns@),
            out@ == assignments_text(cv.subrange(0, i as int)),
        decreases columns@.len() - i,
    {
        let ghost prefix = cv.subrange(0, i + 1);
        assert(cv[i as int] == columns@[i as int]@);
        if i > 0 {
            out.append(", ");
        }
        out.append(columns[i]);
        out.append(" = ?");
        proof {
            assert(prefix.drop_last() =~= cv.subrange(0, i as int));
            assert(prefix.last() == cv[i as int]);
            if i == 0 {
                assert(prefix.len() == 1);
                assert(out@ =~= assignments_text(prefix));
            } else {
                assert(out@ =~= assignments_text(prefix));
            }
        }
        i = i + 1;
    }
    proof {
        assert(cv.subrange(0, i as int) =~= cv);
    }
    out
}

/// Writes `?, ?, ...` with `n` placeholders (the list of an `IN (...)`).
pub fn placeholders(n: usize) -> (r: String)
    ensures
        r@ == placeholders_text(n as nat),
{
    let mut out = String::new();
    let mut i: usize = 0;
    while i < n
        invariant
            i <= n,
            out@ == placeholders_text(i as nat),
        decreases n - i,
    {
        if i == 0 {
            out.append("?");
        } else {
            out.append(", ?");
        }
        i = i + 1;
    }
    out
}

/// The statement's SET columns `cols` and bound values `vals` write the value `v` to the
/// column `c`: `c` stands at a position whose placeholder is bound to `v`.
pub open spec fn writes_column(cols: Seq<Seq<char>>, vals: Seq<SqlValueView>, c: Seq<char>, v: SqlValueView) -> bool {
    exists|i: int| #![trigger cols[i], vals[i]] 0 <= i < vals.len() && cols[i] == c && vals[i] == v
}

} // verus!
