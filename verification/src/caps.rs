//! What the local terminal can show, and what the child should be told.

use vstd::prelude::*;

use crate::text::{contains, holding_is_being_around, occurs, occurs_at, same};

verus! {

/// What a client's terminal can do.
#[derive(Clone, PartialEq, Eq, Debug)]
pub struct TerminalCaps {
    pub truecolor: bool,
    pub colors: u32,
    pub bracketed_paste: bool,
    pub mouse_sgr: bool,
    pub osc52: bool,
    pub term_name: String,
}

/// Whether `COLORTERM` claims 24-bit colour, in either spelling in the wild.
pub open spec fn claims_truecolor(colorterm: Seq<char>) -> bool {
    colorterm == "truecolor"@ || colorterm == "24bit"@
}

/// How many colours the two variables amount to.
pub open spec fn color_count(term: Seq<char>, colorterm: Seq<char>) -> u32 {
    if claims_truecolor(colorterm) {
        16_777_216
    } else if occurs(term, "256"@) {
        256
    } else if term == "dumb"@ {
        8
    } else {
        16
    }
}

/// What `TERM` is read as: a terminal that gives no name is a dumb one.
pub open spec fn term_named(term: Option<Seq<char>>) -> Seq<char> {
    match term {
        Some(name) => if name.len() > 0 {
            name
        } else {
            "dumb"@
        },
        None => "dumb"@,
    }
}

/// The capabilities that go with `TERM` and `COLORTERM`.
pub open spec fn caps_are(caps: TerminalCaps, term: Seq<char>, colorterm: Seq<char>) -> bool {
    &&& caps.truecolor == claims_truecolor(colorterm)
    &&& caps.colors == color_count(term, colorterm)
    &&& caps.bracketed_paste == (term != "dumb"@)
    &&& caps.mouse_sgr == (term != "dumb"@)
    &&& caps.osc52 == (term != "dumb"@)
    &&& caps.term_name@ == term
}

/// The terminal's capabilities, from `TERM` and `COLORTERM` as the environment
/// has them.
pub fn caps_of(term: Option<String>, colorterm: Option<String>) -> (c: TerminalCaps)
    ensures
        caps_are(
            c,
            term_named(
                match term {
                    Some(t) => Some(t@),
                    None => None,
                },
            ),
            match colorterm {
                Some(t) => t@,
                None => Seq::empty(),
            },
        ),
{
    let colorterm = match colorterm {
        Some(c) => c,
        None => String::new(),
    };
    match term {
        Some(name) => {
            if !same(name.as_str(), "") {
                proof {
                    reveal_strlit("");
                    assert(name@.len() == 0 ==> name@ =~= ""@);
                }
                return caps_from(name.as_str(), colorterm.as_str());
            }
            proof {
                reveal_strlit("");
            }
        },
        None => {},
    }
    caps_from("dumb", colorterm.as_str())
}

/// The terminal's capabilities, from `TERM` and `COLORTERM`.
///
/// Bracketed paste, SGR mouse and OSC 52 are taken for granted: a terminal
/// that lacks one ignores the escape rather than breaking. `dumb` is the
/// exception and is taken at its word.
pub fn caps_from(term: &str, colorterm: &str) -> (caps: TerminalCaps)
    ensures
        caps_are(caps, term@, colorterm@),
{
    let truecolor = same(colorterm, "truecolor") || same(colorterm, "24bit");
    let dumb = same(term, "dumb");
    let colors: u32 = if truecolor {
        16_777_216
    } else if contains(term, "256") {
        256
    } else if dumb {
        8
    } else {
        16
    };
    TerminalCaps {
        truecolor,
        colors,
        bracketed_paste: !dumb,
        mouse_sgr: !dumb,
        osc52: !dumb,
        term_name: term.to_owned(),
    }
}

/// The `TERM` and `COLORTERM` a child of the emulator should be given.
///
/// It takes no arguments, and that is the point: what the child is told cannot
/// change when a differently capable client attaches.
pub fn negotiate_term() -> (r: (String, Option<String>))
    ensures
        r.0@ == "xterm-256color"@,
        r.1 matches Some(c) && c@ == "truecolor"@,
{
    ("xterm-256color".to_owned(), Some("truecolor".to_owned()))
}

/// Twenty-four-bit colour is reported exactly when all of it is counted.
pub proof fn truecolor_is_all_the_colors(term: Seq<char>, colorterm: Seq<char>)
    ensures
        claims_truecolor(colorterm) <==> color_count(term, colorterm) == 16_777_216,
        color_count(term, colorterm) >= 8,
{
}

/// What a terminal can do follows from its two variables: twenty-four-bit colour
/// from either spelling of it, else 256 colours from a name that holds that
/// number, else 8 for a dumb terminal and 16 for any other. Paste, mouse and
/// clipboard are taken for granted of every terminal but a dumb one, and the
/// name is kept as it is.
pub proof fn capabilities_follow_the_two_variables(
    caps: TerminalCaps,
    term: Seq<char>,
    colorterm: Seq<char>,
    a: Seq<char>,
    b: Seq<char>,
)
    requires
        caps_are(caps, term, colorterm),
    ensures
        caps.truecolor <==> colorterm == "truecolor"@ || colorterm == "24bit"@,
        caps.truecolor ==> caps.colors == 16_777_216,
        !caps.truecolor && term == a + "256"@ + b ==> caps.colors == 256,
        !caps.truecolor && term == "dumb"@ ==> caps.colors == 8,
        !caps.truecolor && term != "dumb"@ && !occurs(term, "256"@) ==> caps.colors == 16,
        caps.bracketed_paste <==> term != "dumb"@,
        caps.mouse_sgr <==> term != "dumb"@,
        caps.osc52 <==> term != "dumb"@,
        caps.term_name@ == term,
{
    holding_is_being_around(term, "256"@);
    if occurs("dumb"@, "256"@) {
        let i = choose|i: int| occurs_at("dumb"@, "256"@, i);
        reveal_strlit("dumb");
        reveal_strlit("256");
        assert("dumb"@.subrange(i, i + "256"@.len())[0] == "256"@[0]);
        assert(i == 0 || i == 1);
    }
}

/// A terminal that gives no name, or an empty one, is a dumb one, and any other
/// goes by the name it gives.
pub proof fn a_nameless_terminal_is_dumb(name: Seq<char>)
    ensures
        term_named(None) == "dumb"@,
        name.len() == 0 ==> term_named(Some(name)) == "dumb"@,
        name.len() > 0 ==> term_named(Some(name)) == name,
{
}

} // verus!
