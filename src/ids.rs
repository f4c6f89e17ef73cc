//! Reading the identifier lookup from its line-oriented text form: on each
//! line, the first whitespace-separated word is a code and the second its
//! identifier. Lines with fewer than two words are skipped; a later line for
//! the same code replaces an earlier one.
use vstd::prelude::*;
use crate::lookup::Lookup;

verus! {

/// The lines of a text, as `str::lines` splits it.
pub uninterp spec fn lines_of(text: Seq<char>) -> Seq<Seq<char>>;

/// The whitespace-separated words of a line, as `str::split_whitespace` splits it.
pub uninterp spec fn words_of(line: Seq<char>) -> Seq<Seq<char>>;

/// The character sequences of a list of strings.
pub open spec fn strings_view(v: Seq<String>) -> Seq<Seq<char>> {
    v.map_values(|s: String| s@)
}

/// Relies on `str::lines`: the lines of the text, without their line endings.
#[verifier::external_body]
fn split_lines(text: &str) -> (r: Vec<String>)
    ensures
        strings_view(r@) == lines_of(text@),
{
    text.lines().map(|l| l.to_string()).collect()
}

/// Relies on `str::split_whitespace`: the non-empty runs of non-whitespace.
#[verifier::external_body]
fn split_words(line: &String) -> (r: Vec<String>)
    ensures
        strings_view(r@) == words_of(line@),
{
    line.split_whitespace().map(|w| w.to_string()).collect()
}

/// The lookup after reading a line made of `words`: the first two words are
/// added as code and identifier; a line with fewer words changes nothing.
pub open spec fn with_words(m: Map<Seq<char>, Seq<char>>, words: Seq<Seq<char>>) -> Map<Seq<char>, Seq<char>> {
    if words.len() >= 2 {
        m.insert(words[0], words[1])
    } else {
        m
    }
}

/// The lookup described by the words of each line, read in order.
pub open spec fn lookup_of_words(lines: Seq<Seq<Seq<char>>>) -> Map<Seq<char>, Seq<char>>
    decreases lines.len(),
{
    if lines.len() == 0 {
        Map::empty()
    } else {
        with_words(lookup_of_words(lines.drop_last()), lines.last())
    }
}

/// The lookup described by a text.
pub open spec fn lookup_of_text(text: Seq<char>) -> Map<Seq<char>, Seq<char>> {
    lookup_of_words(lines_of(text).map_values(|l: Seq<char>| words_of(l)))
}

/// Adds the entry of one line, already split into `words`.
pub fn add_line(lookup: &mut Lookup, words: &Vec<String>)
    requires
        old(lookup).wf(),
    ensures
        final(lookup).wf(),
        final(lookup)@ == with_words(old(lookup)@, strings_view(words@)),
{
    if words.len() >= 2 {
        lookup.insert(words[0].clone(), words[1].clone());
    }
}

/// The words of each line, as character sequences.
pub open spec fn words_view(lines: Seq<Vec<String>>) -> Seq<Seq<Seq<char>>> {
    lines.map_values(|w: Vec<String>| strings_view(w@))
}

/// Builds a lookup from the words of each line, in order.
pub fn lookup_from_words(lines: &Vec<Vec<String>>) -> (r: Lookup)
    ensures
        r.wf(),
        r@ == lookup_of_words(words_view(lines@)),
{
    let ghost ws = words_view(lines@);
    let mut lookup = Lookup::new();
    let mut i: usize = 0;
    while i < lines.len()
        invariant
            ws == words_view(lines@),
            i <= lines.len(),
            lookup.wf(),
            lookup@ == lookup_of_words(ws.take(i as int)),
        decreases lines.len() - i,
    {
        add_line(&mut lookup, &lines[i]);
        proof {
            let next = ws.take(i as int + 1);
            assert(next.drop_last() =~= ws.take(i as int));
            assert(next.last() == strings_view(lines@[i as int]@));
        }
        i += 1;
    }
    assert(ws.take(lines.len() as int) =~= ws);
    lookup
}

/// Reads a lookup from its text form.
pub fn parse_lookup(text: &str) -> (r: Lookup)
    ensures
        r.wf(),
        r@ == lookup_of_text(text@),
{
    let lines = split_lines(text);
    let mut words: Vec<Vec<String>> = Vec::new();
    let mut i: usize = 0;
    while i < lines.len()
        invariant
            i <= lines.len(),
            words.len() == i,
            forall|j: int| 0 <= j < i ==> #[trigger] strings_view(words@[j]@) == words_of(lines@[j]@),
        decreases lines.len() - i,
    {
        words.push(split_words(&lines[i]));
        i += 1;
    }
    assert(words_view(words@) =~= lines_of(text@).map_values(|l: Seq<char>| words_of(l)));
    lookup_from_words(&words)
}

} // verus!
