use vstd::prelude::*;
use vstd::string::StringExecFns;

use crate::matrix::Matrix;

verus! {

/// The pieces of `parts` with `sep` between each two neighbours.
pub open spec fn join(parts: Seq<Seq<char>>, sep: Seq<char>) -> Seq<char>
    decreases parts.len(),
{
    if parts.len() == 0 {
        Seq::empty()
    } else if parts.len() == 1 {
        parts[0]
    } else {
        join(parts.drop_last(), sep) + sep + parts.last()
    }
}

/// One row of cell texts, framed by bars and separated by single spaces.
pub open spec fn row_text(row: Seq<String>) -> Seq<char> {
    "|"@ + join(row.map_values(|s: String| s@), " "@) + "|"@
}

/// The text of a matrix of cell texts: its rows on separate lines, or `||`
/// where a dimension is zero.
pub open spec fn matrix_text(m: Matrix<String>) -> Seq<char> {
    if m.rows == 0 || m.cols == 0 {
        "||"@
    } else {
        join(m.data@.map_values(|r: Vec<String>| row_text(r@)), "\n"@)
    }
}

proof fn lemma_join_push(parts: Seq<Seq<char>>, sep: Seq<char>, n: int)
    requires
        0 <= n < parts.len(),
    ensures
        join(parts.take(n + 1), sep) == if n == 0 {
            parts[0]
        } else {
            join(parts.take(n), sep) + sep + parts[n]
        },
{
    assert(parts.take(n + 1).drop_last() =~= parts.take(n));
}

impl Matrix<String> {
    /// Renders a matrix whose cells are already text.
    pub fn render(&self) -> (r: String)
        ensures
            r@ == matrix_text(*self),
    {
        let mut out = String::new();
        if self.rows == 0 || self.cols == 0 {
            out.append("||");
            return out;
        }
        let ghost lines = self.data@.map_values(|r: Vec<String>| row_text(r@));
        let mut i: usize = 0;
        while i < self.data.len()
            invariant
                i <= self.data@.len(),
                lines == self.data@.map_values(|r: Vec<String>| row_text(r@)),
                out@ == join(lines.take(i as int), "\n"@),
            decreases self.data@.len() - i,
        {
            let row = &self.data[i];
            let ghost cells = row@.map_values(|s: String| s@);
            let mut line = String::new();
            line.append("|");
            let mut j: usize = 0;
            while j < row.len()
                invariant
                    j <= row@.len(),
                    cells == row@.map_values(|s: String| s@),
                    line@ == "|"@ + join(cells.take(j as int), " "@),
                decreases row@.len() - j,
            {
                proof {
                    lemma_join_push(cells, " "@, j as int);
                }
                if j > 0 {
                    line.append(" ");
                }
                line.append(row[j].as_str());
                j = j + 1;
            }
            line.append("|");
            assert(cells.take(j as int) =~= cells);
            proof {
                lemma_join_push(lines, "\n"@, i as int);
            }
            if i > 0 {
                out.append("\n");
            }
            out.append(line.as_str());
            i = i + 1;
        }
        assert(lines.take(i as int) =~= lines);
        out
    }
}

} // verus!
