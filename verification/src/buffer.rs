//! The document held in memory as a sequence of lines.

use vstd::prelude::*;
use vstd::string::StringExecFns;

use crate::unicode::push_char;

verus! {

/// Lines joined by a newline between each pair: how the document is
/// serialized for writing to disk.
pub open spec fn join_lines(lines: Seq<Seq<char>>) -> Seq<char>
    decreases lines.len(),
{
    if lines.len() == 0 {
        Seq::empty()
    } else if lines.len() == 1 {
        lines[0]
    } else {
        join_lines(lines.drop_last()) + seq!['\n'] + lines.last()
    }
}

/// The lines of the loaded document.
pub struct Buffer {
    pub lines: Vec<String>,
}

impl Buffer {
    /// A buffer with no lines.
    pub fn new() -> (r: Self)
        ensures
            r.lines@.len() == 0,
    {
        Buffer { lines: Vec::new() }
    }

    /// Whether the buffer holds no lines at all.
    pub fn is_empty(&self) -> (r: bool)
        ensures
            r == (self.lines@.len() == 0),
    {
        self.lines.is_empty()
    }

    /// The whole document as one string: the lines joined by newlines.
    pub fn contents(&self) -> (r: String)
        ensures
            r@ == join_lines(self.lines.deep_view()),
    {
        let ghost dv = self.lines.deep_view();
        let mut r = String::new();
        let n = self.lines.len();
        let mut i: usize = 0;
        while i < n
            invariant
                n == self.lines@.len(),
                dv == self.lines.deep_view(),
                i <= n,
                r@ == join_lines(dv.take(i as int)),
            decreases n - i,
        {
            if i > 0 {
                push_char(&mut r, '\n');
            }
            r.append(self.lines[i].as_str());
            proof {
                assert(dv.take(i + 1).drop_last() =~= dv.take(i as int));
                assert(dv.take(i + 1).last() == dv[i as int]);
                assert(dv[i as int] == self.lines@[i as int]@);
                if i == 0 {
                    assert(r@ =~= dv.take(1)[0]);
                } else {
                    assert(r@ =~= join_lines(dv.take(i as int)) + seq!['\n'] + dv.take(i + 1).last());
                }
            }
            i += 1;
        }
        proof {
            assert(dv.take(n as int) =~= dv);
        }
        r
    }
}

} // verus!
