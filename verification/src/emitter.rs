//! The emitter: an ordered, append-only buffer of assembly text lines,
//! rendered once at the end by joining with newlines. Lines are never
//! re-ordered or removed; code generation is a single forward pass.

use vstd::prelude::*;
use vstd::string::StringExecFns;

verus! {

/// `n` tab characters.
pub open spec fn tabs(n: nat) -> Seq<char>
    decreases n,
{
    if n == 0 {
        Seq::empty()
    } else {
        tabs((n - 1) as nat) + seq!['\t']
    }
}

/// The lines of `ls`, joined with newlines, with one trailing newline.
/// An empty buffer renders as a single newline.
pub open spec fn join_lines(ls: Seq<Seq<char>>) -> Seq<char> {
    joined(ls) + seq!['\n']
}

/// The lines of `ls` joined with newlines, without a trailing one.
pub open spec fn joined(ls: Seq<Seq<char>>) -> Seq<char>
    decreases ls.len(),
{
    if ls.len() == 0 {
        Seq::empty()
    } else if ls.len() == 1 {
        ls[0]
    } else {
        joined(ls.drop_last()) + seq!['\n'] + ls.last()
    }
}

/// An append-only buffer of output lines. Its view is the sequence of the
/// lines' character sequences.
pub struct Emitter {
    lines: Vec<String>,
}

impl View for Emitter {
    type V = Seq<Seq<char>>;

    closed spec fn view(&self) -> Seq<Seq<char>> {
        self.lines.deep_view()
    }
}

impl Emitter {
    /// An empty buffer.
    pub fn new() -> (em: Emitter)
        ensures
            em@ == Seq::<Seq<char>>::empty(),
    {
        let em = Emitter { lines: Vec::new() };
        proof {
            assert(em@ =~= Seq::<Seq<char>>::empty());
        }
        em
    }

    /// Appends one line verbatim.
    pub fn emit(&mut self, s: &str)
        ensures
            final(self)@ == old(self)@.push(s@),
    {
        self.lines.push(s.to_owned());
        proof {
            assert(self@ =~= old(self)@.push(s@));
        }
    }

    /// Appends one line indented by `n` tabs.
    pub fn emit_tabbed(&mut self, n: usize, s: &str)
        ensures
            final(self)@ == old(self)@.push(tabs(n as nat) + s@),
    {
        let mut line = String::new();
        let mut i: usize = 0;
        while i < n
            invariant
                i <= n,
                line@ == tabs(i as nat),
            decreases n - i,
        {
            line.append("\t");
            i = i + 1;
            proof {
                reveal_strlit("\t");
                assert(line@ =~= tabs(i as nat));
            }
        }
        line.append(s);
        self.lines.push(line);
        proof {
            assert(self@ =~= old(self)@.push(tabs(n as nat) + s@));
        }
    }

    /// Appends a label line: the label text followed by a colon, not
    /// indented.
    pub fn emit_label(&mut self, s: &str)
        ensures
            final(self)@ == old(self)@.push(s@ + ":"@),
    {
        let mut line = s.to_owned();
        line.append(":");
        self.lines.push(line);
        proof {
            assert(self@ =~= old(self)@.push(s@ + ":"@));
        }
    }

    /// Appends an instruction line, indented by one tab.
    pub fn emit_instr(&mut self, s: &str)
        ensures
            final(self)@ == old(self)@.push(tabs(1) + s@),
    {
        self.emit_tabbed(1, s)
    }

    /// Appends a directive line, indented by one tab.
    pub fn emit_directive(&mut self, s: &str)
        ensures
            final(self)@ == old(self)@.push(tabs(1) + s@),
    {
        self.emit_tabbed(1, s)
    }

    /// The lines emitted so far.
    pub fn as_lines(&self) -> (r: &Vec<String>)
        ensures
            r.deep_view() == self@,
    {
        &self.lines
    }

    /// Renders the buffer: lines joined with newlines, plus a trailing
    /// newline.
    pub fn collect(self) -> (r: String)
        ensures
            r@ == join_lines(self@),
    {
        let ghost all = self@;
        let mut s = String::new();
        let mut i: usize = 0;
        let n = self.lines.len();
        while i < n
            invariant
                i <= n,
                n == self.lines.len(),
                all == self@,
                s@ == joined(all.subrange(0, i as int)),
            decreases n - i,
        {
            if i > 0 {
                s.append("\n");
            }
            s.append(self.lines[i].as_str());
            i = i + 1;
            proof {
                reveal_strlit("\n");
                let pre = all.subrange(0, i as int);
                assert(pre.drop_last() =~= all.subrange(0, i - 1));
                assert(pre.last() == all[i - 1]);
                assert(s@ =~= joined(pre));
            }
        }
        s.append("\n");
        proof {
            reveal_strlit("\n");
            assert(all.subrange(0, n as int) =~= all);
            assert(s@ =~= join_lines(self@));
        }
        s
    }
}

} // verus!
