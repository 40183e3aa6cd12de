//! The shader toggle state machine: a cyclic walk over the three shader
//! variants, driven by the token persisted in the workspace state file.
use vstd::prelude::*;

use crate::text::str_eq;

verus! {

/// The three shader variants, in their toggle order. Off is initial.
#[derive(Clone, Copy, Debug, PartialEq, Eq, Structural)]
pub enum ShaderVariant {
    Off,
    Static,
    Crazy,
}

/// The successor in the cyclic toggle sequence Off, Static, Crazy, Off.
pub open spec fn next_spec(v: ShaderVariant) -> ShaderVariant {
    match v {
        ShaderVariant::Off => ShaderVariant::Static,
        ShaderVariant::Static => ShaderVariant::Crazy,
        ShaderVariant::Crazy => ShaderVariant::Off,
    }
}

/// The variant a persisted token names; anything unrecognized reads as Crazy,
/// so that its successor is Off.
pub open spec fn parse_spec(token: Seq<char>) -> ShaderVariant {
    if token == "off"@ {
        ShaderVariant::Off
    } else if token == "static"@ {
        ShaderVariant::Static
    } else {
        ShaderVariant::Crazy
    }
}

/// The token persisted for a variant.
pub open spec fn token_spec(v: ShaderVariant) -> Seq<char> {
    match v {
        ShaderVariant::Off => "off"@,
        ShaderVariant::Static => "static"@,
        ShaderVariant::Crazy => "crazy"@,
    }
}

/// The status label the toggle shows when a variant becomes active.
pub open spec fn label_spec(v: ShaderVariant) -> Seq<char> {
    match v {
        ShaderVariant::Off => "SHADER OFF"@,
        ShaderVariant::Static => "STATIC GLOW"@,
        ShaderVariant::Crazy => "3D CRAZY"@,
    }
}

/// The successor variant, executably.
pub fn next_variant(v: ShaderVariant) -> (r: ShaderVariant)
    ensures
        r == next_spec(v),
{
    match v {
        ShaderVariant::Off => ShaderVariant::Static,
        ShaderVariant::Static => ShaderVariant::Crazy,
        ShaderVariant::Crazy => ShaderVariant::Off,
    }
}

/// Reads a persisted token back into a variant; total on all strings.
pub fn parse_state(token: &str) -> (r: ShaderVariant)
    ensures
        r == parse_spec(token@),
{
    if str_eq(token, "off") {
        ShaderVariant::Off
    } else if str_eq(token, "static") {
        ShaderVariant::Static
    } else {
        ShaderVariant::Crazy
    }
}

/// The token persisted for a variant, executably.
pub fn state_token(v: ShaderVariant) -> (r: String)
    ensures
        r@ == token_spec(v),
{
    match v {
        ShaderVariant::Off => String::from_str("off"),
        ShaderVariant::Static => String::from_str("static"),
        ShaderVariant::Crazy => String::from_str("crazy"),
    }
}

/// The status label for a newly active variant, executably.
pub fn state_label(v: ShaderVariant) -> (r: String)
    ensures
        r@ == label_spec(v),
{
    match v {
        ShaderVariant::Off => String::from_str("SHADER OFF"),
        ShaderVariant::Static => String::from_str("STATIC GLOW"),
        ShaderVariant::Crazy => String::from_str("3D CRAZY"),
    }
}

/// One toggle step: the variant that becomes active after reading `token`.
pub fn advance_state(token: &str) -> (r: ShaderVariant)
    ensures
        r == next_spec(parse_spec(token@)),
        token@ != "off"@ && token@ != "static"@ ==> r == ShaderVariant::Off,
{
    next_variant(parse_state(token))
}

/// The toggle sequence is cyclic with period three, and one step never
/// stands still: three steps return to the start, one step always moves.
pub proof fn lemma_toggle_cycle(v: ShaderVariant)
    ensures
        next_spec(next_spec(next_spec(v))) == v,
        next_spec(v) != v,
{
}

/// Reading any persisted token and stepping is total: every string, including
/// an unrecognized one, yields a defined successor, and an unrecognized one
/// is treated exactly as Crazy, so its successor is Off.
pub proof fn lemma_toggle_total(token: Seq<char>)
    ensures
        token != "off"@ && token != "static"@ ==> parse_spec(token) == ShaderVariant::Crazy,
        token != "off"@ && token != "static"@ ==> next_spec(parse_spec(token))
            == ShaderVariant::Off,
{
}

} // verus!
