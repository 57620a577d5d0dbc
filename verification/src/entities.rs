use vstd::prelude::*;

verus! {

/// A checklist item of a task or template. Ids are UUIDs held as their 128-bit value.
#[derive(Debug)]
pub struct Subtask {
    pub id: u128,
    pub title: String,
    pub is_completed: bool,
    pub sort_order: String,
}

pub struct SubtaskView {
    pub id: u128,
    pub title: Seq<char>,
    pub is_completed: bool,
    pub sort_order: Seq<char>,
}

impl View for Subtask {
    type V = SubtaskView;

    open spec fn view(&self) -> SubtaskView {
        SubtaskView {
            id: self.id,
            title: self.title@,
            is_completed: self.is_completed,
            sort_order: self.sort_order@,
        }
    }
}

pub open spec fn subtasks_view(v: Seq<Subtask>) -> Seq<SubtaskView> {
    v.map_values(|s: Subtask| s@)
}

impl Subtask {
    pub fn copy(&self) -> (r: Subtask)
        ensures
            r@ == self@,
    {
        Subtask {
            id: self.id,
            title: self.title.clone(),
            is_completed: self.is_completed,
            sort_order: self.sort_order.clone(),
        }
    }
}

/// A copy of a subtask list.
pub fn copy_subtasks(v: &Vec<Subtask>) -> (r: Vec<Subtask>)
    ensures
        subtasks_view(r@) == subtasks_view(v@),
{
    let mut out: Vec<Subtask> = Vec::new();
    let mut i: usize = 0;
    while i < v.len()
        invariant
            i <= v@.len(),
            subtasks_view(out@) == subtasks_view(v@).subrange(0, i as int),
        decreases v@.len() - i,
    {
        let ghost before = out@;
        out.push(v[i].copy());
        assert(subtasks_view(out@) =~= subtasks_view(before).push(v@[i as int]@));
        assert(subtasks_view(out@) =~= subtasks_view(v@).subrange(0, i + 1));
        i = i + 1;
    }
    assert(subtasks_view(v@).subrange(0, i as int) =~= subtasks_view(v@));
    out
}

/// How a scheduled day of a task turned out.
#[derive(Clone, Copy, Debug, PartialEq, Eq, Structural)]
pub enum Outcome {
    Planned,
    PresenceLogged,
    CompletedOnDay,
    CarriedOver,
}

/// Whether a task has a schedule today or later (`Scheduled`) or not (`Staging`).
#[derive(Clone, Copy, Debug, PartialEq, Eq, Structural)]
pub enum ScheduleStatus {
    Staging,
    Scheduled,
}

/// The kind of a template.
#[derive(Clone, Copy, Debug, PartialEq, Eq, Structural)]
pub enum TemplateCategory {
    General,
    Recurrence,
}

/// Whether a recurrence or time block floats with the local day or is fixed in time.
#[derive(Clone, Copy, Debug, PartialEq, Eq, Structural)]
pub enum TimeType {
    Floating,
    Fixed,
}

} // verus!
