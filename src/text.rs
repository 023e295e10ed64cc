//! Plain text operations that the rest of the library builds on: case
//! folding, trimming and splitting on a delimiter, with their models.
use vstd::prelude::*;

verus! {

/// What `str::to_lowercase` makes of a text.
pub uninterp spec fn lower_of(s: Seq<char>) -> Seq<char>;

/// What `str::trim` leaves of a text.
pub uninterp spec fn trimmed(s: Seq<char>) -> Seq<char>;

/// The pieces between the occurrences of `d` in `s`, in order: one more
/// piece than there are occurrences, empty pieces included.
pub open spec fn split_on(s: Seq<char>, d: char) -> Seq<Seq<char>>
    decreases s.len(),
{
    if s.len() == 0 {
        seq![Seq::empty()]
    } else {
        let head = split_on(s.drop_last(), d);
        if s.last() == d {
            head.push(Seq::empty())
        } else {
            head.update(head.len() - 1, head.last().push(s.last()))
        }
    }
}

/// `p` occurs in `h` as a contiguous run of characters.
pub open spec fn occurs_in(p: Seq<char>, h: Seq<char>) -> bool {
    exists|i: int| 0 <= i && i + p.len() <= h.len() && #[trigger] h.subrange(i, i + p.len()) == p
}

/// At least one of `ps` occurs in `h`.
pub open spec fn any_occurs(ps: Seq<Seq<char>>, h: Seq<char>) -> bool {
    exists|j: int| 0 <= j < ps.len() && occurs_in(#[trigger] ps[j], h)
}

/// The character views of a list of strings.
pub open spec fn views(v: Seq<String>) -> Seq<Seq<char>> {
    v.map_values(|s: String| s@)
}

/// Relies on `str::to_lowercase`: the result depends on the characters alone.
#[verifier::external_body]
pub(crate) fn lowercase(s: &str) -> (r: String)
    ensures
        r@ == lower_of(s@),
{
    s.to_lowercase()
}

/// Relies on `str::trim`: the result depends on the characters alone, and
/// is no longer than the text (so empty for an empty text).
#[verifier::external_body]
pub(crate) fn trim(s: &str) -> (r: &str)
    ensures
        r@ == trimmed(s@),
        r@.len() <= s@.len(),
{
    s.trim()
}

/// Relies on `str::split` with a `char` pattern: the pieces between the
/// occurrences of `d`, each copied into a `String`.
#[verifier::external_body]
pub(crate) fn split(s: &str, d: char) -> (r: Vec<String>)
    ensures
        views(r@) == split_on(s@, d),
{
    s.split(d).map(String::from).collect()
}

} // verus!
