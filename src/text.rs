//! Plain text read as numbered lines.
use vstd::prelude::*;

use crate::chunk::{Chunk, ChunkView, MetaView, Metadata};

verus! {

/// The pieces of `s` between newline characters; one more piece than
/// there are newlines.
pub open spec fn newline_pieces(s: Seq<char>) -> Seq<Seq<char>>
    decreases s.len(),
{
    if s.len() == 0 {
        seq![Seq::empty()]
    } else {
        let rest = newline_pieces(s.drop_last());
        if s.last() == '\n' {
            rest.push(Seq::empty())
        } else {
            rest.update(rest.len() - 1, rest.last().push(s.last()))
        }
    }
}

/// A terminated line loses a carriage return that ends it.
pub open spec fn strip_cr(piece: Seq<char>, terminated: bool) -> Seq<char> {
    if terminated && piece.len() > 0 && piece.last() == '\r' {
        piece.drop_last()
    } else {
        piece
    }
}

/// The lines of `s`: split at `\n` or `\r\n`, the terminators left out, and
/// a final line ending optional.
pub open spec fn lines_of(s: Seq<char>) -> Seq<Seq<char>> {
    let pieces = newline_pieces(s);
    let count = if s.len() == 0 || s.last() == '\n' {
        pieces.len() - 1
    } else {
        pieces.len() as int
    };
    Seq::new(count as nat, |i: int| strip_cr(pieces[i], i < pieces.len() - 1))
}

/// Each line followed by a newline, all joined.
pub open spec fn terminated_join(lines: Seq<Seq<char>>) -> Seq<char>
    decreases lines.len(),
{
    if lines.len() == 0 {
        Seq::empty()
    } else {
        terminated_join(lines.drop_last()) + lines.last() + seq!['\n']
    }
}

/// The chunk of the line at `index` (0-based).
pub open spec fn line_chunk(line: Seq<char>, index: int) -> ChunkView {
    ChunkView { content: line, meta: MetaView::Text { line: (index + 1) as nat } }
}

pub proof fn lemma_pieces_nonempty(s: Seq<char>)
    ensures
        newline_pieces(s).len() >= 1,
    decreases s.len(),
{
    if s.len() > 0 {
        lemma_pieces_nonempty(s.drop_last());
    }
}

proof fn lemma_pieces_join(s: Seq<char>)
    ensures
        newline_pieces(s).len() >= 1,
        terminated_join(newline_pieces(s).drop_last()) + newline_pieces(s).last() == s,
    decreases s.len(),
{
    lemma_pieces_nonempty(s);
    if s.len() > 0 {
        let t = s.drop_last();
        lemma_pieces_join(t);
        let rest = newline_pieces(t);
        let p = newline_pieces(s);
        if s.last() == '\n' {
            assert(p.drop_last() =~= rest);
            assert(terminated_join(rest) =~= terminated_join(rest.drop_last()) + rest.last()
                + seq!['\n']);
            assert(s =~= t.push('\n'));
            assert(terminated_join(p.drop_last()) + p.last() =~= s);
        } else {
            assert(p.drop_last() =~= rest.drop_last());
            assert(p.last() == rest.last().push(s.last()));
            assert(s =~= t.push(s.last()));
            assert(terminated_join(p.drop_last()) + p.last() =~= s);
        }
    } else {
        assert(terminated_join(newline_pieces(s).drop_last()) + newline_pieces(s).last() =~= s);
    }
}

proof fn lemma_pieces_no_cr(s: Seq<char>)
    requires
        !s.contains('\r'),
    ensures
        forall|i: int| 0 <= i < newline_pieces(s).len() ==> !(#[trigger] newline_pieces(s)[i]).contains('\r'),
    decreases s.len(),
{
    lemma_pieces_nonempty(s);
    if s.len() > 0 {
        let t = s.drop_last();
        assert forall|c: char| t.contains(c) implies s.contains(c) by {
            let k = choose|k: int| 0 <= k < t.len() && t[k] == c;
            assert(s[k] == c);
        }
        lemma_pieces_no_cr(t);
        lemma_pieces_nonempty(t);
        let rest = newline_pieces(t);
        let p = newline_pieces(s);
        assert forall|i: int| 0 <= i < p.len() implies !(#[trigger] p[i]).contains('\r') by {
            if s.last() != '\n' && i == rest.len() - 1 {
                assert(p[i] == rest.last().push(s.last()));
                if p[i].contains('\r') {
                    let k = choose|k: int| 0 <= k < p[i].len() && p[i][k] == '\r';
                    if k < rest.last().len() {
                        assert(rest[i][k] == '\r');
                    } else {
                        assert(s[s.len() - 1] == '\r');
                    }
                }
            } else if i < rest.len() {
                assert(p[i] == rest[i]);
            } else {
                assert(s.last() == '\n');
                assert(p == rest.push(Seq::<char>::empty()));
                assert(p[i] =~= Seq::<char>::empty());
            }
        }
    }
}

/// Joining the lines of a text that holds no carriage return, each followed
/// by a newline, gives back the text with a final newline added when it
/// had none.
pub proof fn lemma_lines_round_trip(s: Seq<char>)
    requires
        !s.contains('\r'),
    ensures
        terminated_join(lines_of(s)) == if s.len() == 0 || s.last() == '\n' {
            s
        } else {
            s.push('\n')
        },
{
    lemma_pieces_join(s);
    lemma_pieces_no_cr(s);
    let p = newline_pieces(s);
    let ls = lines_of(s);
    if s.len() == 0 || s.last() == '\n' {
        assert(ls =~= p.drop_last());
        if s.len() == 0 {
            assert(p =~= seq![Seq::<char>::empty()]);
        } else {
            assert(p.last() =~= Seq::<char>::empty());
        }
        assert(terminated_join(ls) + p.last() =~= terminated_join(ls));
    } else {
        assert forall|i: int| 0 <= i < p.len() implies strip_cr(p[i], i < p.len() - 1) == p[i] by {
            if p[i].len() > 0 {
                assert(p[i].contains(p[i].last()));
            }
        }
        assert(ls =~= p);
        assert(ls.drop_last() =~= p.drop_last());
        assert(terminated_join(ls) =~= s.push('\n'));
    }
}

/// Relies on `str::lines`: splits at `\n` or `\r\n`, leaves the terminators
/// out, and treats a final line ending as optional.
#[verifier::external_body]
fn split_lines(text: &str) -> (r: Vec<String>)
    ensures
        r@.len() == lines_of(text@).len(),
        forall|i: int| 0 <= i < r@.len() ==> #[trigger] r@[i]@ == lines_of(text@)[i],
{
    text.lines().map(|l| l.to_string()).collect()
}

/// Numbers lines from 1, one chunk per line.
pub fn number_lines(lines: Vec<String>) -> (r: Vec<Chunk>)
    ensures
        r@.len() == lines@.len(),
        forall|i: int| 0 <= i < r@.len() ==> #[trigger] r@[i]@ == line_chunk(lines@[i]@, i),
{
    let mut out: Vec<Chunk> = Vec::new();
    let mut i: usize = 0;
    while i < lines.len()
        invariant
            i == out@.len(),
            i <= lines@.len(),
            forall|k: int| 0 <= k < out@.len() ==> #[trigger] out@[k]@ == line_chunk(lines@[k]@, k),
        decreases lines@.len() - i,
    {
        let line = lines[i].clone();
        out.push(Chunk { content: line, metadata: Metadata::Text { line_number: i + 1 } });
        i = i + 1;
    }
    out
}

/// One chunk per line of `text`, numbered from 1 with blank lines counted.
pub fn text_chunks(text: &str) -> (r: Vec<Chunk>)
    ensures
        r@.len() == lines_of(text@).len(),
        forall|i: int| 0 <= i < r@.len() ==> #[trigger] r@[i]@ == line_chunk(lines_of(text@)[i], i),
{
    let lines = split_lines(text);
    number_lines(lines)
}

} // verus!
