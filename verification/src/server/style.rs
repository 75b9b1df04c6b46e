use vstd::prelude::*;

verus! {

/// `styled` is what painting `text` green gives. It is `text` between the
/// escape sequence that switches the foreground colour to green and the one
/// that switches it back. Each of the two sequences stands with its colour in
/// it, or, where colour is switched off for the process at the moment it is
/// written, left empty. On a Windows console that takes no escape sequences
/// nothing is written at all, and `styled` is empty.
pub open spec fn painted_green(text: Seq<char>, styled: Seq<char>) -> bool {
    ||| styled.len() == 0
    ||| styled == "\x1b[38;5;10m"@ + text + "\x1b[39m"@
    ||| styled == "\x1b[38;5;10m"@ + text + "\x1b[m"@
    ||| styled == "\x1b[m"@ + text + "\x1b[39m"@
    ||| styled == "\x1b[m"@ + text + "\x1b[m"@
}

/// `Stylize::green` of crossterm on a `String`, and the `Display` of what it
/// returns. crossterm writes the command that sets the foreground colour,
/// then the text, then the command that resets the foreground colour; each
/// command is `ESC [`, the colour, `m`, and the colour is left out while
/// colour is switched off (the variable `NO_COLOR`, or a call that forces
/// it), which crossterm asks once for each command. On Windows it first asks
/// whether the console takes escape sequences, and writes nothing where it
/// does not.
#[verifier::external_body]
pub(crate) fn green(text: &str) -> (styled: String)
    ensures
        painted_green(text@, styled@),
{
    crossterm::style::Stylize::green(text.to_string()).to_string()
}

} // verus!
