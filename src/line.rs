//! Rendering of one record into a single line.
use vstd::prelude::*;
use vstd::string::{StrSliceExecFns, StringExecFns};

use crate::level::Level;

verus! {

/// Width to which the level name is padded on the right.
pub const LEVEL_WIDTH: usize = 5;

/// `n` spaces.
pub open spec fn spaces(n: nat) -> Seq<char> {
    Seq::new(n, |i: int| ' ')
}

/// The level name padded with spaces to at least `LEVEL_WIDTH` characters.
pub open spec fn padded_name(level: Level) -> Seq<char> {
    level.name() + spaces((LEVEL_WIDTH - level.name().len()) as nat)
}

/// The subsystem shown between brackets: the target when it is not empty,
/// else the module path, else nothing.
pub open spec fn shown_target(target: Seq<char>, module: Option<Seq<char>>) -> Seq<char> {
    if target.len() > 0 {
        target
    } else {
        match module {
            Some(p) => p,
            None => Seq::empty(),
        }
    }
}

/// `"{level:<5} [{target}] {message}"`, with no trailing newline.
pub open spec fn line_of(level: Level, target: Seq<char>, message: Seq<char>) -> Seq<char> {
    padded_name(level) + seq![' ', '['] + target + seq![']', ' '] + message
}

pub open spec fn opt_str_view(o: Option<&str>) -> Option<Seq<char>> {
    match o {
        Some(s) => Some(s@),
        None => None,
    }
}

/// Renders a record into the line handed to the host.
pub fn format_line(level: Level, target: &str, module: Option<&str>, message: &str) -> (r:
    String)
    ensures
        r@ == line_of(level, shown_target(target@, opt_str_view(module)), message@),
{
    let name = level.as_str();
    let mut line = String::from_str(name);
    let n = name.unicode_len();
    let mut i: usize = n;
    proof {
        reveal_strlit(" ");
        assert(line@ =~= level.name() + spaces(0));
    }
    while i < LEVEL_WIDTH
        invariant
            n == level.name().len(),
            n <= i <= LEVEL_WIDTH,
            line@ == level.name() + spaces((i - n) as nat),
        decreases LEVEL_WIDTH - i,
    {
        proof {
            reveal_strlit(" ");
        }
        line.append(" ");
        i = i + 1;
        assert(line@ =~= level.name() + spaces((i - n) as nat));
    }
    let shown = if !target.is_empty() {
        target
    } else {
        match module {
            Some(p) => p,
            None => "",
        }
    };
    proof {
        reveal_strlit(" [");
        reveal_strlit("] ");
        reveal_strlit("");
    }
    line.append(" [");
    line.append(shown);
    line.append("] ");
    line.append(message);
    assert(line@ =~= line_of(level, shown_target(target@, opt_str_view(module)), message@));
    line
}

} // verus!
