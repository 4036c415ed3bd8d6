//! Joining recorded output lines with newline separators.

use vstd::prelude::*;
use vstd::string::StringExecFns;

verus! {

/// The newline-joined concatenation of a sequence of lines: a single newline
/// between each adjacent pair, none at either end.
pub open spec fn joined(lines: Seq<Seq<char>>) -> Seq<char>
    decreases lines.len(),
{
    if lines.len() == 0 {
        Seq::empty()
    } else if lines.len() == 1 {
        lines[0]
    } else {
        joined(lines.drop_last()) + seq!['\n'] + lines.last()
    }
}

/// Joins the lines into one string, a newline between each adjacent pair.
pub fn join_lines(lines: &Vec<String>) -> (r: String)
    ensures
        r@ == joined(lines@.map_values(|line: String| line@)),
{
    let ghost model = lines@.map_values(|line: String| line@);
    let mut out = String::new();
    let mut i: usize = 0;
    while i < lines.len()
        invariant
            i <= lines.len(),
            model == lines@.map_values(|line: String| line@),
            out@ == joined(model.take(i as int)),
        decreases lines.len() - i,
    {
        if i > 0 {
            out.append("\n");
        }
        out.append(lines[i].as_str());
        proof {
            reveal_strlit("\n");
            assert(model.take(i as int + 1).drop_last() =~= model.take(i as int));
        }
        i += 1;
    }
    proof {
        assert(model.take(lines.len() as int) =~= model);
    }
    out
}

} // verus!
