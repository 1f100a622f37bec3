//! Lines and blanks of a text, and lists of command-line arguments.

use vstd::prelude::*;

verus! {

/// The lines of a text as `str::lines` splits it: at line feeds, without the
/// line ends, and without an empty last line.
pub uninterp spec fn text_lines(text: Seq<char>) -> Seq<Seq<char>>;

/// A text without its leading and trailing white space, as `str::trim`
/// returns it.
pub uninterp spec fn trimmed(text: Seq<char>) -> Seq<char>;

/// The texts of a list of strings.
pub open spec fn texts(list: Seq<String>) -> Seq<Seq<char>> {
    list.map_values(|s: String| s@)
}

/// Calls `str::lines`. Trusted: the lines depend on the text alone.
#[verifier::external_body]
pub(crate) fn lines_of(text: &str) -> (r: Vec<String>)
    ensures
        texts(r@) == text_lines(text@),
{
    text.lines().map(String::from).collect()
}

/// Calls `str::trim`. Trusted: the result depends on the text alone.
#[verifier::external_body]
pub(crate) fn trim(text: &str) -> (r: &str)
    ensures
        r@ == trimmed(text@),
{
    text.trim()
}

/// Appends a copy of `text` to `list`.
pub fn push_text(list: &mut Vec<String>, text: &str)
    ensures
        texts(final(list)@) == texts(old(list)@).push(text@),
{
    let ghost before = list@;
    list.push(String::from_str(text));
    assert(texts(list@) =~= texts(before).push(text@));
}

/// The first text of `lines` that is not empty.
pub open spec fn first_filled(lines: Seq<Seq<char>>) -> Option<Seq<char>>
    decreases lines.len(),
{
    if lines.len() == 0 {
        None
    } else if lines[0].len() > 0 {
        Some(lines[0])
    } else {
        first_filled(lines.skip(1))
    }
}

/// Each line of `text` without its surrounding white space.
pub open spec fn trimmed_lines(text: Seq<char>) -> Seq<Seq<char>> {
    text_lines(text).map_values(|line: Seq<char>| trimmed(line))
}

/// The lines of `text`, each without its surrounding white space.
pub fn split_trimmed(text: &str) -> (r: Vec<String>)
    ensures
        texts(r@) == trimmed_lines(text@),
{
    let lines = lines_of(text);
    let mut out: Vec<String> = Vec::new();
    let mut i: usize = 0;
    while i < lines.len()
        invariant
            i <= lines.len(),
            texts(lines@) == text_lines(text@),
            texts(out@) =~= trimmed_lines(text@).take(i as int),
        decreases lines.len() - i,
    {
        let ghost before = out@;
        out.push(String::from_str(trim(lines[i].as_str())));
        assert(texts(lines@)[i as int] == lines@[i as int]@);
        assert(texts(out@) =~= texts(before).push(trimmed(lines@[i as int]@)));
        i += 1;
    }
    assert(trimmed_lines(text@).take(i as int) =~= trimmed_lines(text@));
    out
}

/// The first of `candidates` that is not empty, if there is one.
pub fn first_filled_of(candidates: &Vec<String>) -> (r: Option<String>)
    ensures
        match first_filled(texts(candidates@)) {
            Some(text) => r matches Some(found) && found@ == text,
            None => r is None,
        },
{
    let mut i: usize = 0;
    assert(texts(candidates@).skip(0) =~= texts(candidates@));
    while i < candidates.len()
        invariant
            i <= candidates.len(),
            first_filled(texts(candidates@)) == first_filled(texts(candidates@).skip(i as int)),
        decreases candidates.len() - i,
    {
        let ghost rest = texts(candidates@).skip(i as int);
        assert(rest[0] == candidates@[i as int]@);
        if !candidates[i].as_str().is_empty() {
            return Some(candidates[i].clone());
        }
        assert(rest.skip(1) =~= texts(candidates@).skip(i + 1));
        i += 1;
    }
    None
}

} // verus!
