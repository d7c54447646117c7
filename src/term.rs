//! The snapshot of the capabilities that the application reads.
use vstd::prelude::*;
use crate::capability::{
    flag_of, number_of, string_of, view_bytes, view_cap, CapString, FlagCap, NumberCap, StringCap,
};

use vstd::string::StringSliceAdditionalSpecFns;
use vstd::utf8::{is_ascii_chars, is_ascii_chars_encode_utf8};

verus! {

/// The three bytes of a capability code: two letters and a nul.
pub open spec fn code_bytes(a: char, b: char) -> Seq<u8> {
    seq![a as u8, b as u8, 0u8]
}

/// The queries a `Term` is built from, one per field.
pub struct Queries {
    pub enter_italics_mode: StringCap,
    pub exit_italics_mode: StringCap,
    pub enter_dim_mode: StringCap,
    pub max_colors: NumberCap,
    pub eat_newline_glitch: FlagCap,
}

/// The database's raw answers to the `Queries`: a nul-terminated buffer or
/// nothing for a string capability, an integer for a number or a flag.
pub struct Answers {
    pub enter_italics_mode: Option<Vec<u8>>,
    pub exit_italics_mode: Option<Vec<u8>>,
    pub enter_dim_mode: Option<Vec<u8>>,
    pub max_colors: i32,
    pub eat_newline_glitch: i32,
}

/// The bytes that an optional buffer holds.
pub open spec fn view_buf(raw: Option<Vec<u8>>) -> Option<Seq<u8>> {
    match raw {
        Some(b) => Some(b@),
        None => None,
    }
}

/// What a `Term` holds, as plain values.
pub struct TermView {
    pub enter_italics_mode: Option<Seq<u8>>,
    pub exit_italics_mode: Option<Seq<u8>>,
    pub enter_dim_mode: Option<Seq<u8>>,
    pub max_colors: Option<i32>,
    pub eat_newline_glitch: bool,
}

/// The snapshot of the capabilities that the database reports in `a`.
pub open spec fn term_of(a: Answers) -> TermView {
    TermView {
        enter_italics_mode: string_of(view_buf(a.enter_italics_mode)),
        exit_italics_mode: string_of(view_buf(a.exit_italics_mode)),
        enter_dim_mode: string_of(view_buf(a.enter_dim_mode)),
        max_colors: number_of(a.max_colors),
        eat_newline_glitch: flag_of(a.eat_newline_glitch),
    }
}

/// The capabilities of the current terminal that the application cares about.
/// An absent capability is an expected outcome, not an error.
#[derive(Debug, PartialEq, Eq)]
pub struct Term {
    // String capabilities
    pub enter_italics_mode: Option<CapString>,
    pub exit_italics_mode: Option<CapString>,
    pub enter_dim_mode: Option<CapString>,
    // Number capabilities
    pub max_colors: Option<i32>,
    // Flag capabilities
    pub eat_newline_glitch: bool,
}

impl View for Term {
    type V = TermView;

    open spec fn view(&self) -> TermView {
        TermView {
            enter_italics_mode: view_cap(self.enter_italics_mode),
            exit_italics_mode: view_cap(self.exit_italics_mode),
            enter_dim_mode: view_cap(self.enter_dim_mode),
            max_colors: self.max_colors,
            eat_newline_glitch: self.eat_newline_glitch,
        }
    }
}

/// A string of two ASCII characters is two bytes.
proof fn lemma_ascii_pair(s: &str, a: char, b: char)
    requires
        s@.len() == 2,
        s@[0] == a,
        s@[1] == b,
        a <= '\u{7f}',
        b <= '\u{7f}',
    ensures
        s.spec_bytes() == seq![a as u8, b as u8],
{
    assert(is_ascii_chars(s@));
    is_ascii_chars_encode_utf8(s@);
    assert(s.spec_bytes() =~= seq![a as u8, b as u8]);
}

/// The buffer in `raw`, borrowed.
fn borrow_buf(raw: &Option<Vec<u8>>) -> (r: Option<&[u8]>)
    ensures
        view_bytes(r) == view_buf(*raw),
{
    match raw {
        Some(v) => Some(v.as_slice()),
        None => None,
    }
}

impl Term {
    /// The capabilities to ask the database for: `ZH` and `ZR` (enter and exit
    /// italics), `mh` (enter dim mode), `Co` (count of colours) and `xn` (the
    /// newline glitch).
    pub fn queries() -> (r: Queries)
        ensures
            r.enter_italics_mode.code()@ == code_bytes('Z', 'H'),
            r.exit_italics_mode.code()@ == code_bytes('Z', 'R'),
            r.enter_dim_mode.code()@ == code_bytes('m', 'h'),
            r.max_colors.code()@ == code_bytes('C', 'o'),
            r.eat_newline_glitch.code()@ == code_bytes('x', 'n'),
    {
        proof {
            reveal_strlit("ZH");
            reveal_strlit("ZR");
            reveal_strlit("mh");
            reveal_strlit("Co");
            reveal_strlit("xn");
            lemma_ascii_pair("ZH", 'Z', 'H');
            lemma_ascii_pair("ZR", 'Z', 'R');
            lemma_ascii_pair("mh", 'm', 'h');
            lemma_ascii_pair("Co", 'C', 'o');
            lemma_ascii_pair("xn", 'x', 'n');
        }
        Queries {
            enter_italics_mode: StringCap::new("ZH"),
            exit_italics_mode: StringCap::new("ZR"),
            enter_dim_mode: StringCap::new("mh"),
            max_colors: NumberCap::new("Co"),
            eat_newline_glitch: FlagCap::new("xn"),
        }
    }

    /// The snapshot that the database's `answers` to `Term::queries()` describe.
    pub fn new(answers: &Answers) -> (r: Term)
        ensures
            r@ == term_of(*answers),
    {
        let q = Term::queries();
        Term {
            enter_italics_mode: q.enter_italics_mode.lookup(borrow_buf(&answers.enter_italics_mode)),
            exit_italics_mode: q.exit_italics_mode.lookup(borrow_buf(&answers.exit_italics_mode)),
            enter_dim_mode: q.enter_dim_mode.lookup(borrow_buf(&answers.enter_dim_mode)),
            max_colors: q.max_colors.lookup(answers.max_colors),
            eat_newline_glitch: q.eat_newline_glitch.lookup(answers.eat_newline_glitch),
        }
    }
}

} // verus!
