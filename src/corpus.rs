//! The lore corpus: the lines a reply is chosen from.
use vstd::prelude::*;
use crate::error::ConfigError;
use crate::text::{split, split_on, trim, trimmed, views};

verus! {

/// The lines of a lore text: the pieces between delimiters, each trimmed.
pub open spec fn corpus_lines(text: Seq<char>, delimiter: char) -> Seq<Seq<char>> {
    split_on(text, delimiter).map_values(|p: Seq<char>| trimmed(p))
}

/// At least one line has some content.
pub open spec fn has_content(lines: Seq<Seq<char>>) -> bool {
    exists|i: int| 0 <= i < lines.len() && #[trigger] lines[i].len() > 0
}

/// Relies on `rand::random_range`: an index drawn from `0..len`.
#[verifier::external_body]
fn draw_index(len: usize) -> (r: usize)
    requires
        len > 0,
    ensures
        r < len,
{
    rand::random_range(0..len)
}

/// A non-empty, ordered list of lore lines, fixed once loaded.
pub struct LoreCorpus {
    lines: Vec<String>,
}

impl View for LoreCorpus {
    type V = Seq<Seq<char>>;

    closed spec fn view(&self) -> Seq<Seq<char>> {
        views(self.lines@)
    }
}

impl LoreCorpus {
    #[verifier::type_invariant]
    spec fn inv(self) -> bool {
        self.lines.len() >= 1
    }

    /// Splits `text` on `delimiter` and trims each piece; every piece is kept,
    /// empty ones too. A text with no line of any content is refused.
    pub fn parse(text: &str, delimiter: char) -> (r: Result<LoreCorpus, ConfigError>)
        ensures
            r is Ok <==> has_content(corpus_lines(text@, delimiter)),
            r matches Ok(c) ==> c@ == corpus_lines(text@, delimiter),
            r matches Err(e) ==> e == ConfigError::EmptyCorpus,
            text@.len() == 0 ==> r is Err,
    {
        let pieces = split(text, delimiter);
        let ghost expected = corpus_lines(text@, delimiter);
        let mut lines: Vec<String> = Vec::new();
        let mut content = false;
        let mut i: usize = 0;
        while i < pieces.len()
            invariant
                i <= pieces.len(),
                views(pieces@) == split_on(text@, delimiter),
                expected == corpus_lines(text@, delimiter),
                views(lines@) =~= expected.subrange(0, i as int),
                content == has_content(views(lines@)),
                text@.len() == 0 ==> !content,
            decreases pieces.len() - i,
        {
            let line = trim(pieces[i].as_str()).to_owned();
            let ghost before = views(lines@);
            assert(pieces@[i as int]@ == views(pieces@)[i as int]);
            proof {
                if text@.len() == 0 {
                    assert(split_on(text@, delimiter) == seq![Seq::<char>::empty()]);
                    assert(pieces@[i as int]@.len() == 0);
                }
            }
            let nonempty = !line.as_str().is_empty();
            lines.push(line);
            proof {
                let after = views(lines@);
                assert(after =~= before.push(line@));
                if content {
                    let k = choose|k: int| 0 <= k < before.len() && #[trigger] before[k].len() > 0;
                    assert(after[k] == before[k]);
                }
                if nonempty {
                    assert(after[before.len() as int].len() > 0);
                }
                if has_content(after) {
                    let k = choose|k: int| 0 <= k < after.len() && #[trigger] after[k].len() > 0;
                    if k < before.len() {
                        assert(before[k] == after[k]);
                    }
                }
            }
            content = content || nonempty;
            i = i + 1;
        }
        assert(views(lines@) =~= expected);
        if content {
            Ok(LoreCorpus { lines })
        } else {
            Err(ConfigError::EmptyCorpus)
        }
    }

    /// The number of lines, never zero.
    pub fn len(&self) -> (r: usize)
        ensures
            r == self@.len(),
            r >= 1,
    {
        proof {
            use_type_invariant(self);
        }
        self.lines.len()
    }

    /// The line at `index`.
    pub fn line(&self, index: usize) -> (r: &String)
        requires
            index < self@.len(),
        ensures
            r@ == self@[index as int],
    {
        &self.lines[index]
    }

    /// An index drawn at random among the lines.
    pub fn pick_index(&self) -> (r: usize)
        ensures
            r < self@.len(),
    {
        draw_index(self.len())
    }

    /// A line drawn at random.
    pub fn pick(&self) -> (r: &String)
        ensures
            exists|i: int| 0 <= i < self@.len() && r@ == self@[i],
    {
        let i = self.pick_index();
        self.line(i)
    }
}

} // verus!
