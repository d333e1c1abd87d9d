//! Reading the tags of a note: the order id and status that an order state
//! note carries, and the configuration type of a server configuration note.

use vstd::prelude::*;
use crate::model::Note;

verus! {

/// The rows of a note's tags, each as a sequence of cells.
pub open spec fn rows_view(tags: Seq<Vec<String>>) -> Seq<Seq<Seq<char>>> {
    tags.map_values(|r: Vec<String>| r@.map_values(|c: String| c@))
}

/// The number of cells of all rows together.
pub open spec fn total_cells(rows: Seq<Vec<String>>) -> int
    decreases rows.len(),
{
    if rows.len() == 0 {
        0
    } else {
        total_cells(rows.drop_last()) + rows.last().len()
    }
}

/// Tags can be handed to the tag reader: their cells fit its `u32` offsets.
pub open spec fn tags_fit(tags: Seq<Vec<String>>) -> bool {
    total_cells(tags) <= u32::MAX
}

/// The second cell of the first row whose first cell is `name`; `None` when
/// there is no such row or that row has no second cell.
pub open spec fn first_tag_value(rows: Seq<Seq<Seq<char>>>, name: Seq<char>) -> Option<Seq<char>>
    decreases rows.len(),
{
    if rows.len() == 0 {
        None
    } else if rows[0].len() > 0 && rows[0][0] == name {
        if rows[0].len() > 1 {
            Some(rows[0][1])
        } else {
            None
        }
    } else {
        first_tag_value(rows.drop_first(), name)
    }
}

/// Every cell after the first of every row whose first cell is `name`, in
/// the order of the rows.
pub open spec fn tag_values(rows: Seq<Seq<Seq<char>>>, name: Seq<char>) -> Seq<Seq<char>>
    decreases rows.len(),
{
    if rows.len() == 0 {
        Seq::empty()
    } else {
        (if rows[0].len() > 0 && rows[0][0] == name {
            rows[0].drop_first()
        } else {
            Seq::empty()
        }) + tag_values(rows.drop_first(), name)
    }
}

/// The view of an optional string.
pub open spec fn opt_view(o: Option<String>) -> Option<Seq<char>> {
    match o {
        Some(s) => Some(s@),
        None => None,
    }
}

/// `nostro2::NostrTags::first_parameter`: the value of the first `d` row.
/// Claimed: the result is the second cell of the first row whose first cell
/// is `d`, and `None` when there is none or it has no second cell, as the
/// crate's source computes it with `find` and `get(1)`.
#[verifier::external_body]
fn tags_first_parameter(tags: &Vec<Vec<String>>) -> (r: Option<String>)
    requires
        tags_fit(tags@),
    ensures
        opt_view(r) == first_tag_value(rows_view(tags@), seq!['d']),
{
    let mut t = nostro2::NostrTags::new();
    for row in tags {
        t.add_row(row.iter().cloned());
    }
    t.first_parameter()
}

/// `nostro2::NostrTags::find_tags`: all values of the rows named `name`.
/// Claimed: the result lists, row after row in order, every cell but the
/// first of each row whose first cell equals `name`.
#[verifier::external_body]
fn tags_find(tags: &Vec<Vec<String>>, name: &str) -> (r: Vec<String>)
    requires
        tags_fit(tags@),
    ensures
        r@.map_values(|c: String| c@) == tag_values(rows_view(tags@), name@),
{
    let mut t = nostro2::NostrTags::new();
    for row in tags {
        t.add_row(row.iter().cloned());
    }
    t.find_tags(name)
}

/// The text of a string, or the empty text when there is none.
pub open spec fn text_or_empty(o: Option<Seq<char>>) -> Seq<char> {
    match o {
        Some(s) => s,
        None => Seq::empty(),
    }
}

/// The first of a list of texts, if any.
pub open spec fn first_of(s: Seq<Seq<char>>) -> Option<Seq<char>> {
    if s.len() > 0 {
        Some(s[0])
    } else {
        None
    }
}

/// The id and the status text that an order state note carries: the value
/// of its first `d` tag and the first value of its `status` tags, each empty
/// when missing.
pub fn order_tag_fields(note: &Note) -> (r: (String, String))
    requires
        tags_fit(note.tags@),
    ensures
        r.0@ == text_or_empty(first_tag_value(rows_view(note.tags@), seq!['d'])),
        r.1@ == text_or_empty(first_of(tag_values(rows_view(note.tags@), "status"@))),
{
    let id = match tags_first_parameter(&note.tags) {
        Some(s) => s,
        None => String::new(),
    };
    let statuses = tags_find(&note.tags, "status");
    let status = if statuses.len() > 0 {
        statuses[0].clone()
    } else {
        String::new()
    };
    proof {
        if statuses@.len() > 0 {
            assert(statuses@.map_values(|c: String| c@)[0] == statuses@[0]@);
        }
    }
    (id, status)
}

/// The configuration type that a server configuration note names: the third
/// value of its `d` tags.
pub fn config_type_tag(note: &Note) -> (r: Option<String>)
    requires
        tags_fit(note.tags@),
    ensures
        opt_view(r) == (if tag_values(rows_view(note.tags@), seq!['d']).len() > 2 {
            Some(tag_values(rows_view(note.tags@), seq!['d'])[2])
        } else {
            None::<Seq<char>>
        }),
{
    let values = tags_find(&note.tags, "d");
    proof {
        reveal_strlit("d");
        assert("d"@ == seq!['d']);
    }
    if values.len() > 2 {
        let v = values[2].clone();
        assert(values@.map_values(|c: String| c@)[2] == values@[2]@);
        Some(v)
    } else {
        None
    }
}

} // verus!
