//! Interfaces for reporting progress and errors through the CLI

use vstd::prelude::*;
use vstd::string::StrSliceExecFns;
use vstd::string::StringExecFns;
use crate::text::{lines_of, listing, spec_listing};

verus! {

/// Where progress updates and errors are written to, line by line.
pub trait Log {
    /// Writes one line.
    fn log(&self, line: &str);
}

/// Errors that can say what went wrong, and what lay behind it.
pub trait ErrorExt {
    /// The text of the error itself.
    spec fn spec_text(&self) -> Seq<char>;

    /// The texts of what lay behind the error, the nearest cause first.
    spec fn spec_causes(&self) -> Seq<Seq<char>>;

    /// Says what went wrong.
    fn text(&self) -> (text: String)
        ensures
            text@ == self.spec_text(),
    ;

    /// Says what lay behind the error, the nearest cause first.
    fn causes(&self) -> (lines: Vec<String>)
        ensures
            lines_of(lines@) == self.spec_causes(),
    ;
}

/// An error's text together with the texts of what lay behind it.
#[derive(Debug, Clone, PartialEq, Eq)]
pub struct ErrorChain {
    /// The text of the error itself.
    pub message: String,
    /// The texts of what lay behind the error, the nearest cause first.
    pub sources: Vec<String>,
}

impl ErrorChain {
    /// The lines of the chain: the error's text, then each cause on a line of its own.
    pub open spec fn spec_render(self) -> Seq<char> {
        spec_listing(self.message@, Seq::empty(), lines_of(self.sources@))
    }

    /// Writes the chain: the error's text, then each cause on a line of its own.
    pub fn render(&self) -> (text: String)
        ensures
            text@ == self.spec_render(),
    {
        let text = listing(self.message.as_str(), "", &self.sources);
        proof {
            reveal_strlit("");
            assert(""@ =~= Seq::<char>::empty());
        }
        text
    }
}

/// The chain of an error: its text and the texts of what lay behind it.
pub fn error_chain<E: ErrorExt>(error: &E) -> (chain: ErrorChain)
    ensures
        chain.message@ == error.spec_text(),
        lines_of(chain.sources@) == error.spec_causes(),
{
    ErrorChain { message: error.text(), sources: error.causes() }
}

/// Whether a chain is that of the given error: its text and the texts of what
/// lay behind it.
pub open spec fn describes<E: ErrorExt>(error: E, chain: ErrorChain) -> bool {
    chain.message@ == error.spec_text() && lines_of(chain.sources@) == error.spec_causes()
}

/// Hands on how something ended: a success as it is, a failure as the chain
/// of its error.
pub fn handed_on<E: ErrorExt>(ended: Result<(), E>) -> (handed: Result<(), ErrorChain>)
    ensures
        match ended {
            Ok(_) => handed is Ok,
            Err(error) => handed matches Err(chain) && describes(error, chain),
        },
{
    match ended {
        Ok(_) => Ok(()),
        Err(error) => Err(error_chain(&error)),
    }
}

/// A text with every line but the first moved in: `hanging` stands behind each
/// line break.
pub open spec fn spec_indented(text: Seq<char>, hanging: Seq<char>) -> Seq<char>
    decreases text.len(),
{
    if text.len() == 0 {
        Seq::empty()
    } else if text.last() == '\n' {
        spec_indented(text.drop_last(), hanging) + seq!['\n'] + hanging
    } else {
        spec_indented(text.drop_last(), hanging).push(text.last())
    }
}

/// A writer that moves in what is written to it: `first` stands before
/// everything, and `hanging` behind each line break.
#[derive(Debug, Clone, PartialEq, Eq)]
pub struct IndentWriter {
    first: Option<String>,
    hanging: String,
    f: String,
}

impl IndentWriter {
    /// What stands before the first thing written, until something is written.
    pub closed spec fn spec_first(self) -> Option<Seq<char>> {
        match self.first {
            Some(first) => Some(first@),
            None => None,
        }
    }

    /// What stands behind each line break.
    pub closed spec fn spec_hanging(self) -> Seq<char> {
        self.hanging@
    }

    /// What was written so far, moved in.
    pub closed spec fn spec_written(self) -> Seq<char> {
        self.f@
    }

    /// A writer that appends to `f`.
    pub fn new(f: String, first: String, hanging: String) -> (writer: Self)
        ensures
            writer.spec_first() == Some(first@),
            writer.spec_hanging() == hanging@,
            writer.spec_written() == f@,
    {
        IndentWriter { first: Some(first), hanging, f }
    }

    /// Writes a text behind what was written so far: the first indent before
    /// it if nothing was written yet, and the hanging indent behind each of its
    /// line breaks.
    pub fn write_str(&mut self, s: &str)
        ensures
            final(self).spec_first() is None,
            final(self).spec_hanging() == old(self).spec_hanging(),
            final(self).spec_written() == old(self).spec_written() + (match old(self).spec_first() {
                Some(first) => first,
                None => Seq::empty(),
            }) + spec_indented(s@, old(self).spec_hanging()),
    {
        let ghost before = self.f@;
        let mut first: Option<String> = None;
        std::mem::swap(&mut first, &mut self.first);
        match first {
            Some(first) => {
                self.f.append(first.as_str());
            },
            None => {
                assert(self.f@ =~= before + Seq::<char>::empty());
            },
        }
        let ghost base = self.f@;
        let total = s.unicode_len();
        let mut start: usize = 0;
        let mut seen: usize = 0;
        proof {
            reveal_strlit("\n");
            assert("\n"@ =~= seq!['\n']);
            assert(s@.subrange(0, 0) =~= Seq::<char>::empty());
            assert(self.f@ =~= base + spec_indented(s@.subrange(0, 0), self.hanging@));
        }
        for c in it: s.chars()
            invariant
                seen == it.index(),
                it.seq() == s@,
                total == s@.len(),
                start <= seen <= total,
                "\n"@ == seq!['\n'],
                self.first is None,
                self.hanging == old(self).hanging,
                base + spec_indented(s@.subrange(0, seen as int), self.hanging@) == self.f@
                    + s@.subrange(start as int, seen as int),
        {
            proof {
                assert(c == s@[seen as int]);
                assert(s@.subrange(0, seen + 1).drop_last() =~= s@.subrange(0, seen as int));
                assert(s@.subrange(0, seen + 1).last() == c);
            }
            let ghost flushed = self.f@;
            let ghost inner = spec_indented(s@.subrange(0, seen as int), self.hanging@);
            if c == '\n' {
                self.f.append(s.substring_char(start, seen));
                self.f.append("\n");
                self.f.append(self.hanging.as_str());
                proof {
                    assert(self.f@ =~= (flushed + s@.subrange(start as int, seen as int)) + seq![
                        '\n',
                    ] + self.hanging@);
                    assert(s@.subrange(seen + 1, seen + 1) =~= Seq::<char>::empty());
                    assert(base + (inner + seq!['\n'] + self.hanging@) =~= (base + inner) + seq![
                        '\n',
                    ] + self.hanging@);
                    assert(self.f@ + s@.subrange(seen + 1, seen + 1) =~= self.f@);
                }
                start = seen + 1;
            } else {
                proof {
                    assert(s@.subrange(start as int, seen + 1) =~= s@.subrange(
                        start as int,
                        seen as int,
                    ).push(c));
                    assert(base + inner.push(c) =~= (base + inner).push(c));
                    assert(flushed + s@.subrange(start as int, seen as int).push(c) =~= (flushed
                        + s@.subrange(start as int, seen as int)).push(c));
                }
            }
            seen = seen + 1;
        }
        self.f.append(s.substring_char(start, total));
        proof {
            assert(s@.subrange(0, seen as int) =~= s@);
        }
    }

    /// Hands back everything that was written.
    pub fn finish(self) -> (f: String)
        ensures
            f@ == self.spec_written(),
    {
        self.f
    }
}

/// Texts that can be written to with indents.
pub trait WriteExt: Sized {
    /// A writer that appends to this text, with `first` before everything
    /// written and `hanging` behind each line break.
    fn indents(self, first: String, hanging: String) -> IndentWriter;

    /// A writer that appends to this text and moves in every line by `indent`.
    fn indent(self, indent: String) -> IndentWriter;

    /// A writer that appends to this text and moves in the first line by `indent`.
    fn first_line_indent(self, indent: String) -> IndentWriter;

    /// A writer that appends to this text and moves in every line but the
    /// first by `indent`.
    fn hanging_indent(self, indent: String) -> IndentWriter;
}

impl WriteExt for String {
    fn indents(self, first: String, hanging: String) -> (writer: IndentWriter)
        ensures
            writer.spec_first() == Some(first@),
            writer.spec_hanging() == hanging@,
            writer.spec_written() == self@,
    {
        IndentWriter::new(self, first, hanging)
    }

    fn indent(self, indent: String) -> (writer: IndentWriter)
        ensures
            writer.spec_first() == Some(indent@),
            writer.spec_hanging() == indent@,
            writer.spec_written() == self@,
    {
        let hanging = indent.clone();
        IndentWriter::new(self, indent, hanging)
    }

    fn first_line_indent(self, indent: String) -> (writer: IndentWriter)
        ensures
            writer.spec_first() == Some(indent@),
            writer.spec_hanging() == Seq::<char>::empty(),
            writer.spec_written() == self@,
    {
        IndentWriter::new(self, indent, String::new())
    }

    fn hanging_indent(self, indent: String) -> (writer: IndentWriter)
        ensures
            writer.spec_first() == Some(Seq::<char>::empty()),
            writer.spec_hanging() == indent@,
            writer.spec_written() == self@,
    {
        IndentWriter::new(self, String::new(), indent)
    }
}

/// A heading followed by the chains of some errors, each on lines of its own,
/// with every line but the first moved in by `hanging`.
pub open spec fn spec_report(head: Seq<char>, chains: Seq<Seq<char>>, hanging: Seq<char>) -> Seq<char>
    decreases chains.len(),
{
    if chains.len() == 0 {
        spec_indented(head, hanging)
    } else {
        spec_report(head, chains.drop_last(), hanging) + seq!['\n'] + hanging + spec_indented(
            chains.last(),
            hanging,
        )
    }
}

/// Writes a heading followed by the chains of some errors, each on lines of
/// its own, with every line but the first moved in by `hanging`.
pub fn report(head: &str, chains: &Vec<String>, hanging: &str) -> (text: String)
    ensures
        text@ == spec_report(head@, lines_of(chains@), hanging@),
{
    let mut writer = String::new().hanging_indent(hanging.to_owned());
    writer.write_str(head);
    let mut i: usize = 0;
    proof {
        reveal_strlit("\n");
        assert("\n"@ =~= seq!['\n']);
        assert(lines_of(chains@).subrange(0, 0) =~= Seq::<Seq<char>>::empty());
        assert(writer.spec_written() =~= spec_indented(head@, hanging@));
    }
    while i < chains.len()
        invariant
            i <= chains.len(),
            "\n"@ == seq!['\n'],
            writer.spec_first() is None,
            writer.spec_hanging() == hanging@,
            writer.spec_written() == spec_report(
                head@,
                lines_of(chains@).subrange(0, i as int),
                hanging@,
            ),
        decreases chains.len() - i,
    {
        let ghost before = writer.spec_written();
        proof {
            assert(lines_of(chains@).subrange(0, i + 1).drop_last() =~= lines_of(chains@).subrange(
                0,
                i as int,
            ));
            assert(seq!['\n'].drop_last() =~= Seq::<char>::empty());
            assert(spec_indented(seq!['\n'], hanging@) =~= seq!['\n'] + hanging@) by {
                assert(spec_indented(Seq::<char>::empty(), hanging@) =~= Seq::<char>::empty());
            }
        }
        writer.write_str("\n");
        writer.write_str(chains[i].as_str());
        proof {
            assert(writer.spec_written() =~= before + seq!['\n'] + hanging@ + spec_indented(
                chains@[i as int]@,
                hanging@,
            ));
        }
        i = i + 1;
    }
    assert(lines_of(chains@).subrange(0, i as int) =~= lines_of(chains@));
    writer.finish()
}

} // verus!
