//! What the library asks of the terminal crates. Nothing here is proved:
//! each contract is taken from the named function's source.

use crate::failure::Color;
use vstd::prelude::*;

verus! {

/// A colour specification of `termcolor`, carried as it is.
#[verifier::external_type_specification]
#[verifier::external_body]
pub struct ExColorSpec(termcolor::ColorSpec);

/// One of the three standard streams of the process.
#[derive(Clone, Copy, Debug, PartialEq, Eq, Structural)]
pub enum Stream {
    Stdout,
    Stderr,
    Stdin,
}

/// The specification that `termcolor` makes of "`color` in the foreground,
/// and nothing else".
pub uninterp spec fn foreground_style(color: Color) -> termcolor::ColorSpec;

/// Calls `termcolor::ColorSpec::set_fg` on what `termcolor::ColorSpec::new`
/// returns. The result has the matching colour of `termcolor` as its
/// foreground and is otherwise as `new` made it; it depends on `color` alone,
/// which is all the contract claims.
#[verifier::external_body]
pub(crate) fn foreground(color: Color) -> (style: termcolor::ColorSpec)
    ensures
        style == foreground_style(color),
{
    let mut style = termcolor::ColorSpec::new();
    style.set_fg(Some(match color {
        Color::Red => termcolor::Color::Red,
    }));
    style
}

/// Calls `atty::is`, which asks the system whether `stream` is attached to a
/// terminal. The answer belongs to the process and the moment, so nothing is
/// claimed of it.
#[verifier::external_body]
pub(crate) fn is_terminal(stream: Stream) -> (attached: bool) {
    atty::is(match stream {
        Stream::Stdout => atty::Stream::Stdout,
        Stream::Stderr => atty::Stream::Stderr,
        Stream::Stdin => atty::Stream::Stdin,
    })
}

} // verus!
