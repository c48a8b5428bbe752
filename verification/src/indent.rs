//! A writer that indents every line it is handed: the indentation is
//! inserted at the start of the text and again after every newline.

use vstd::prelude::*;

use crate::push_char;

verus! {

/// The text `s` produces when written with the given indentation, starting
/// either at a fresh line (`newlined`) or mid-line.
pub open spec fn spec_indented(indent: Seq<char>, newlined: bool, s: Seq<char>) -> Seq<char>
    decreases s.len(),
{
    if s.len() == 0 {
        Seq::empty()
    } else {
        (if newlined {
            indent
        } else {
            Seq::empty()
        }) + seq![s[0]] + spec_indented(indent, s[0] == '\n', s.skip(1))
    }
}

/// Whether the writer sits at a fresh line after also writing `s`.
pub open spec fn spec_newlined(newlined: bool, s: Seq<char>) -> bool {
    if s.len() == 0 {
        newlined
    } else {
        s.last() == '\n'
    }
}

/// Wraps an output buffer so that every written line starts with a fixed
/// indentation.
pub struct IndentedWriter {
    /// Whether the last character written was a newline (or nothing was
    /// written yet), so the next character starts a line.
    pub newlined: bool,
    /// The indentation inserted at each line start.
    pub indent: String,
    /// The indented output collected so far.
    pub buffer: String,
}

/// A buffer that can be wrapped in an [`IndentedWriter`].
pub trait Indentable: Sized {
    /// Wraps this buffer, indenting every line written from now on.
    fn indent(self, indentation: &str) -> IndentedWriter;
}

impl Indentable for String {
    fn indent(self, indentation: &str) -> IndentedWriter {
        IndentedWriter::new(self, indentation)
    }
}

impl IndentedWriter {
    /// Wraps `buffer`, positioned at a fresh line.
    pub fn new(buffer: String, indentation: &str) -> (r: IndentedWriter)
        ensures
            r.newlined,
            r.indent@ == indentation@,
            r.buffer@ == buffer@,
    {
        IndentedWriter { newlined: true, indent: String::from_str(indentation), buffer }
    }

    /// Writes `s`, inserting the indentation at every line start.
    pub fn write_str(&mut self, s: &str)
        ensures
            final(self).indent@ == old(self).indent@,
            final(self).buffer@ == old(self).buffer@ + spec_indented(
                old(self).indent@,
                old(self).newlined,
                s@,
            ),
            final(self).newlined == spec_newlined(old(self).newlined, s@),
    {
        let n = s.unicode_len();
        proof {
            assert(s@.skip(0) =~= s@);
        }
        let mut i: usize = 0;
        while i < n
            invariant
                i <= n,
                n as nat == s@.len(),
                self.indent@ == old(self).indent@,
                self.buffer@ + spec_indented(self.indent@, self.newlined, s@.skip(i as int)) == old(
                    self,
                ).buffer@ + spec_indented(old(self).indent@, old(self).newlined, s@),
                spec_newlined(self.newlined, s@.skip(i as int)) == spec_newlined(
                    old(self).newlined,
                    s@,
                ),
            decreases n - i,
        {
            let c = s.get_char(i);
            let ghost pre = self.buffer@;
            let ghost was_newlined = self.newlined;
            if self.newlined {
                let indentation = self.indent.clone();
                self.buffer.append(indentation.as_str());
            }
            push_char(&mut self.buffer, c);
            self.newlined = c == '\n';
            proof {
                let rest = s@.skip(i as int);
                assert(rest[0] == s@[i as int]);
                assert(rest.skip(1) =~= s@.skip(i + 1 as int));
                assert(self.buffer@ =~= pre + (if was_newlined {
                    self.indent@
                } else {
                    Seq::<char>::empty()
                }) + seq![c]);
                assert(pre + spec_indented(self.indent@, was_newlined, rest) =~= self.buffer@
                    + spec_indented(self.indent@, self.newlined, s@.skip(i + 1 as int)));
            }
            i = i + 1;
        }
        proof {
            assert(s@.skip(n as int) =~= Seq::<char>::empty());
            assert(self.buffer@ =~= old(self).buffer@ + spec_indented(
                old(self).indent@,
                old(self).newlined,
                s@,
            ));
        }
    }

    /// Hands the collected output back.
    pub fn finish(self) -> (r: String)
        ensures
            r@ == self.buffer@,
    {
        self.buffer
    }
}

} // verus!
