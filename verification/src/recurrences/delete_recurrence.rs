use vstd::prelude::*;

use crate::errors::{conflict, AppError, AppErrorView};
use crate::ids::{parse_uuid, uuid_parse_outcome};
use crate::recurrences::batch_update_template_and_instances::texts_view;

verus! {

/// The template of the recurrence being deleted, read from its stored text; a text that
/// is not a UUID is a conflict quoting the text and the parse error.
pub open spec fn template_id_check(text: Seq<char>) -> Result<u128, AppErrorView> {
    match uuid_parse_outcome(text) {
        Ok(id) => Ok(id),
        Err(m) => Err(AppErrorView::Conflict { message: "Invalid template_id UUID '"@ + text + "': "@ + m }),
    }
}

/// Reads the stored template id of a recurrence.
pub fn recurrence_template_id(text: &str) -> (r: Result<u128, AppError>)
    ensures
        match template_id_check(text@) {
            Ok(id) => r == Ok::<u128, AppError>(id),
            Err(e) => r matches Err(x) && x@ == e,
        },
{
    match parse_uuid(text) {
        Ok(id) => Ok(id),
        Err(m) => {
            let mut message = "Invalid template_id UUID '".to_owned();
            message.append(text);
            message.append("': ");
            message.append(m.as_str());
            Err(conflict(message.as_str()))
        },
    }
}

/// The stored instance ids that read as UUIDs, in order; the others are skipped.
pub open spec fn readable_ids(texts: Seq<Seq<char>>) -> Seq<u128>
    decreases texts.len(),
{
    if texts.len() == 0 {
        seq![]
    } else {
        match uuid_parse_outcome(texts.last()) {
            Ok(id) => readable_ids(texts.drop_last()).push(id),
            Err(_) => readable_ids(texts.drop_last()),
        }
    }
}

/// Reads the ids of the uncompleted instances of the recurrence, skipping unreadable ones.
pub fn uncompleted_instance_ids(texts: &Vec<String>) -> (r: Vec<u128>)
    ensures
        r@ == readable_ids(texts_view(texts@)),
{
    let ghost tv = texts_view(texts@);
    let mut out: Vec<u128> = Vec::new();
    let mut i: usize = 0;
    assert(tv.subrange(0, 0) =~= Seq::<Seq<char>>::empty());
    while i < texts.len()
        invariant
            i <= texts@.len(),
            tv == texts_view(texts@),
            out@ == readable_ids(tv.subrange(0, i as int)),
        decreases texts@.len() - i,
    {
        let ghost prefix = tv.subrange(0, i + 1);
        assert(prefix.drop_last() =~= tv.subrange(0, i as int));
        assert(prefix.last() == texts@[i as int]@);
        match parse_uuid(texts[i].as_str()) {
            Ok(id) => {
                out.push(id);
            },
            Err(_) => {},
        }
        i = i + 1;
    }
    assert(tv.subrange(0, i as int) =~= tv);
    out
}

} // verus!
