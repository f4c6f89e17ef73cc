//! Composition of the notification text for a changed row.
use vstd::prelude::*;
use vstd::string::StringExecFns;
use crate::cell::{render_row, row_text, row_view, Cell, CellView, Row};
use crate::error::Failure;
use crate::lookup::Lookup;

verus! {

/// Uppercase form of a string, by the Unicode case mapping of std.
pub uninterp spec fn upper_of(s: Seq<char>) -> Seq<char>;

/// Relies on `str::to_uppercase`: the result depends on the characters alone.
#[verifier::external_body]
fn uppercase(s: &String) -> (r: String)
    ensures
        r@ == upper_of(s@),
{
    s.to_uppercase()
}

/// The mention of a recipient, placed before the row text: `<@id> `.
pub open spec fn mention(id: Seq<char>) -> Seq<char> {
    seq!['<', '@'] + id + seq!['>', ' ']
}

/// The prefix for a normalized code: a mention of its identifier when the
/// lookup maps it, nothing otherwise.
pub open spec fn prefix_for(lookup: Map<Seq<char>, Seq<char>>, key: Seq<char>) -> Seq<char> {
    if lookup.contains_key(key) {
        mention(lookup[key])
    } else {
        Seq::empty()
    }
}

/// The message for a row whose normalized code is `key`.
pub open spec fn message_for(lookup: Map<Seq<char>, Seq<char>>, key: Seq<char>, row: Seq<CellView>) -> Seq<char> {
    prefix_for(lookup, key) + row_text(row)
}

/// A row is well shaped when its first cell exists and is a string.
pub open spec fn well_shaped(row: Seq<CellView>) -> bool {
    row.len() > 0 && row[0] is Str
}

/// The normalized code of a well-shaped row: its first cell, uppercased.
pub open spec fn row_key(row: Seq<CellView>) -> Seq<char>
    recommends
        well_shaped(row),
{
    upper_of(row[0]->Str_0)
}

/// The message for a row, given its already normalized code `key`.
pub fn compose_with_key(row: &Row, key: &String, lookup: &Lookup) -> (r: String)
    requires
        lookup.wf(),
    ensures
        r@ == message_for(lookup@, key@, row_view(row@)),
{
    let mut out = String::new();
    match lookup.get(key) {
        Some(id) => {
            out.append("<@");
            out.append(id.as_str());
            out.append("> ");
            proof {
                reveal_strlit("<@");
                reveal_strlit("> ");
                assert(out@ =~= mention(lookup@[key@]));
            }
        },
        None => {},
    }
    let text = render_row(row);
    out.append(text.as_str());
    assert(out@ =~= message_for(lookup@, key@, row_view(row@)));
    out
}

/// The message for a changed row: the mention looked up by the uppercased
/// first cell (if mapped), then the rendered row. A row without a string as
/// its first cell is malformed.
pub fn compose_message(row: &Row, lookup: &Lookup) -> (r: Result<String, Failure>)
    requires
        lookup.wf(),
    ensures
        well_shaped(row_view(row@)) ==> r is Ok && r->Ok_0@ == message_for(
            lookup@,
            row_key(row_view(row@)),
            row_view(row@),
        ),
        !well_shaped(row_view(row@)) ==> r == Err::<String, Failure>(Failure::MalformedRow),
{
    if row.len() == 0 {
        return Err(Failure::MalformedRow);
    }
    match &row[0] {
        Cell::Str(code) => {
            let key = uppercase(code);
            Ok(compose_with_key(row, &key, lookup))
        },
        _ => Err(Failure::MalformedRow),
    }
}

} // verus!
