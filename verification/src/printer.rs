//! The diagnostic sink: collects finished output lines.
//!
//! The library never writes to a terminal itself. Every diagnostic is
//! rendered into a plain `String` and appended to a [`Printer`], whose
//! `lines` the caller drains and displays. Severity is expressed with the
//! usual ANSI colour prefixes around the line's header.

use vstd::prelude::*;

verus! {

/// A severity-tagged line: coloured header, then `": "`, then the payload.
pub open spec fn tagged_line(colour: Seq<char>, header: Seq<char>, line: Seq<char>) -> Seq<char> {
    colour + header + "\x1b[0m: "@ + line
}

pub open spec fn info_line(header: Seq<char>, line: Seq<char>) -> Seq<char> {
    tagged_line("\x1b[93m"@, header, line)
}

pub open spec fn warning_line(header: Seq<char>, line: Seq<char>) -> Seq<char> {
    tagged_line("\x1b[38;5;208m"@, header, line)
}

pub open spec fn error_line(header: Seq<char>, line: Seq<char>) -> Seq<char> {
    tagged_line("\x1b[91m"@, header, line)
}

pub open spec fn internal_error_line(line: Seq<char>) -> Seq<char> {
    error_line("Bug"@, line)
}

/// Collects the monitor's output, one finished line per entry.
pub struct Printer {
    pub lines: Vec<String>,
}

impl Printer {
    /// The lines gathered so far, as character sequences.
    pub open spec fn output(self) -> Seq<Seq<char>> {
        self.lines@.map_values(|s: String| s@)
    }

    pub fn new() -> (r: Self)
        ensures
            r.output() == Seq::<Seq<char>>::empty(),
    {
        let r = Printer { lines: Vec::new() };
        proof {
            assert(r.output() =~= Seq::<Seq<char>>::empty());
        }
        r
    }

    pub fn print(&mut self, line: &String)
        ensures
            final(self).output() == old(self).output().push(line@),
    {
        self.lines.push(line.clone());
        proof {
            assert(self.output() =~= old(self).output().push(line@));
        }
    }

    pub fn print_group_separator(&mut self)
        ensures
            final(self).output() == old(self).output().push(Seq::<char>::empty()),
    {
        self.lines.push(String::new());
        proof {
            assert(self.output() =~= old(self).output().push(Seq::<char>::empty()));
        }
    }

    pub fn print_info(&mut self, header: &String, line: &String)
        ensures
            final(self).output() == old(self).output().push(info_line(header@, line@)),
    {
        let mut s = String::new();
        s.push_str("\x1b[93m");
        s.push_str(header.as_str());
        s.push_str("\x1b[0m: ");
        s.push_str(line.as_str());
        proof {
            assert(s@ =~= info_line(header@, line@));
        }
        self.print(&s);
    }

    pub fn print_warning(&mut self, header: &String, line: &String)
        ensures
            final(self).output() == old(self).output().push(warning_line(header@, line@)),
    {
        let mut s = String::new();
        s.push_str("\x1b[38;5;208m");
        s.push_str(header.as_str());
        s.push_str("\x1b[0m: ");
        s.push_str(line.as_str());
        proof {
            assert(s@ =~= warning_line(header@, line@));
        }
        self.print(&s);
    }

    pub fn print_error(&mut self, header: &String, line: &String)
        ensures
            final(self).output() == old(self).output().push(error_line(header@, line@)),
    {
        let mut s = String::new();
        s.push_str("\x1b[91m");
        s.push_str(header.as_str());
        s.push_str("\x1b[0m: ");
        s.push_str(line.as_str());
        proof {
            assert(s@ =~= error_line(header@, line@));
        }
        self.print(&s);
    }

    pub fn print_internal_error(&mut self, line: &str)
        ensures
            final(self).output() == old(self).output().push(internal_error_line(line@)),
    {
        let mut s = String::new();
        s.push_str("\x1b[91m");
        s.push_str("Bug");
        s.push_str("\x1b[0m: ");
        s.push_str(line);
        proof {
            assert(s@ =~= internal_error_line(line@));
        }
        self.print(&s);
    }
}

} // verus!
