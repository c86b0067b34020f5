//! Capability negotiation: the decision on the terminal's answer to the
//! startup capability query, and the diagnostic line printed on exit.
//!
//! The query itself is terminal I/O and happens outside the library; it
//! hands in either the capability list the terminal reported, or nothing
//! when the terminal never answered within the query's timeout.

use vstd::prelude::*;

verus! {

/// A rendering technique or property a terminal can report during
/// capability negotiation.
#[derive(Clone, Copy, Debug, PartialEq, Eq, Structural)]
pub enum TermCapability {
    Kitty,
    Sixel,
    RectangularOps,
    KittyCompression,
    CellSize(u16, u16),
    CellSizeUnknown,
    TextSizingProtocol,
    Background(u8, u8, u8),
}

/// The terminal could not be negotiated with: it never answered the
/// capability query.
#[derive(Clone, Copy, Debug, PartialEq, Eq, Structural)]
pub enum NegotiationError {
    NoResponse,
}

/// Decides the outcome of capability negotiation: a terminal that answered
/// the query yields its capability list, a terminal that never answered
/// yields `NegotiationError` — playback is never started blind.
pub fn negotiate(probe: Option<Vec<TermCapability>>) -> (r: Result<
    Vec<TermCapability>,
    NegotiationError,
>)
    ensures
        match r {
            Ok(caps) => probe matches Some(p) && caps@ == p@,
            Err(e) => probe is None && e == NegotiationError::NoResponse,
        },
{
    match probe {
        Some(caps) => Ok(caps),
        None => Err(NegotiationError::NoResponse),
    }
}

/// The diagnostic token for one capability.
pub open spec fn spec_cap_token(c: TermCapability) -> Seq<char> {
    match c {
        TermCapability::Kitty => "kitty"@,
        TermCapability::Sixel => "sixel"@,
        TermCapability::RectangularOps => "rectangular-ops"@,
        TermCapability::KittyCompression => "kitty-compression"@,
        TermCapability::CellSize(_, _) => "cell-size"@,
        TermCapability::CellSizeUnknown => "cell-size"@,
        TermCapability::TextSizingProtocol => "text-sizing"@,
        TermCapability::Background(_, _, _) => "background"@,
    }
}

/// The diagnostic line for a capability list: each token followed by one
/// space, in report order.
pub open spec fn spec_caps_line(s: Seq<TermCapability>) -> Seq<char>
    decreases s.len(),
{
    if s.len() == 0 {
        Seq::empty()
    } else {
        spec_caps_line(s.drop_last()) + spec_cap_token(s.last()) + " "@
    }
}

/// The diagnostic token for one capability.
pub fn cap_token(c: &TermCapability) -> (r: &'static str)
    ensures
        r@ == spec_cap_token(*c),
{
    match c {
        TermCapability::Kitty => "kitty",
        TermCapability::Sixel => "sixel",
        TermCapability::RectangularOps => "rectangular-ops",
        TermCapability::KittyCompression => "kitty-compression",
        TermCapability::CellSize(_, _) => "cell-size",
        TermCapability::CellSizeUnknown => "cell-size",
        TermCapability::TextSizingProtocol => "text-sizing",
        TermCapability::Background(_, _, _) => "background",
    }
}

/// Renders the negotiated capability list as space-separated diagnostic
/// tokens, for the report printed when playback ends.
pub fn caps_line(caps: &Vec<TermCapability>) -> (r: String)
    ensures
        r@ == spec_caps_line(caps@),
{
    let mut line = String::new();
    let mut i: usize = 0;
    while i < caps.len()
        invariant
            i <= caps@.len(),
            line@ == spec_caps_line(caps@.take(i as int)),
        decreases caps@.len() - i,
    {
        let t = cap_token(&caps[i]);
        line.append(t);
        line.append(" ");
        proof {
            let pre = caps@.take(i as int + 1);
            assert(pre.drop_last() =~= caps@.take(i as int));
            assert(pre.last() == caps@[i as int]);
        }
        i = i + 1;
    }
    proof {
        assert(caps@.take(caps@.len() as int) =~= caps@);
    }
    line
}

} // verus!
