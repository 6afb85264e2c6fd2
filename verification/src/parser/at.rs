//! The conversions into an `@` modifier.

use crate::parser::ast::AtModifier;
use crate::parser::ast::Expr;
use crate::parser::diag::fail;
use crate::parser::diag::agrees;
use crate::parser::diag::join3;
use crate::parser::token::token_display;
use crate::parser::token::token_text;
use crate::parser::token::Token;
use crate::parser::token::TokenId;
use crate::parser::token::T_END;
use crate::parser::token::T_START;
use crate::util::number::bits_is_sign_negative;
use crate::util::number::bits_is_timestamp;
use crate::util::number::is_sign_negative;
use crate::util::number::is_timestamp;
use crate::util::seconds::bits_millis_of_seconds;
use crate::util::seconds::millis_of_seconds;
use crate::util::time::duration_nanos;
use crate::util::time::time_nanos;
use crate::util::time::unix_epoch;
use std::time::Duration;
use std::time::SystemTime;
use vstd::prelude::*;
use vstd::std_specs::convert::TryFromSpecImpl;

verus! {

/// The diagnostic for a token after `@` that is neither `start` nor `end`.
pub open spec fn invalid_preprocessor_text(id: TokenId) -> Seq<char> {
    "invalid @ modifier preprocessor '"@ + token_text(id) + "', START or END is valid."@
}

/// The modifier that the keyword `id` stands for: `start` or `end`, and no
/// other token.
pub open spec fn at_of_token(id: TokenId) -> Result<AtModifier, Seq<char>> {
    if id == T_START {
        Ok(AtModifier::Start)
    } else if id == T_END {
        Ok(AtModifier::End)
    } else {
        Err(invalid_preprocessor_text(id))
    }
}

/// The signed distance from the Unix epoch, in nanoseconds, of the instant
/// `millis` milliseconds after it, or before it where `before_epoch` is set.
pub open spec fn epoch_distance(millis: u64, before_epoch: bool) -> int {
    if before_epoch {
        -(millis * 1_000_000)
    } else {
        millis * 1_000_000
    }
}

/// The modifier pins to the instant at the signed distance `nanos` from the
/// Unix epoch.
pub open spec fn pins_to(modifier: AtModifier, nanos: int) -> bool {
    modifier matches AtModifier::At(t) && time_nanos(t) == nanos
}

impl TryFrom<TokenId> for AtModifier {
    type Error = String;

    /// The modifier that the keyword `id` stands for.
    fn try_from(id: TokenId) -> (r: Result<AtModifier, String>)
        ensures
            agrees(r, at_of_token(id)),
    {
        if id == T_START {
            Ok(AtModifier::Start)
        } else if id == T_END {
            Ok(AtModifier::End)
        } else {
            Err(
                join3(
                    "invalid @ modifier preprocessor '",
                    token_display(id),
                    "', START or END is valid.",
                ),
            )
        }
    }
}

impl TryFromSpecImpl<TokenId> for AtModifier {
    /// The conversion makes a new string, which no specification function
    /// can name: its contract is the `ensures` it carries.
    open spec fn obeys_try_from_spec() -> bool {
        false
    }

    open spec fn try_from_spec(id: TokenId) -> Result<AtModifier, String> {
        arbitrary()
    }
}

impl TryFrom<Token> for AtModifier {
    type Error = String;

    /// The modifier that the keyword token stands for.
    fn try_from(token: Token) -> (r: Result<AtModifier, String>)
        ensures
            agrees(r, at_of_token(token.id)),
    {
        AtModifier::try_from(token.id())
    }
}

impl TryFromSpecImpl<Token> for AtModifier {
    /// The conversion makes a new string, which no specification function
    /// can name: its contract is the `ensures` it carries.
    open spec fn obeys_try_from_spec() -> bool {
        false
    }

    open spec fn try_from_spec(token: Token) -> Result<AtModifier, String> {
        arbitrary()
    }
}

impl AtModifier {
    /// The number of seconds that stands after `@`, as its encoding. Only a
    /// number literal can stand there.
    pub fn seconds_of(expr: &Expr) -> (r: Result<u64, String>)
        ensures
            agrees(
                r,
                match expr {
                    Expr::NumberLiteral(nl) => Ok(nl.bits),
                    _ => Err("invalid float value after @ modifier"@),
                },
            ),
    {
        match expr {
            Expr::NumberLiteral(nl) => Ok(nl.bits),
            _ => fail("invalid float value after @ modifier"),
        }
    }

    /// The modifier that pins to the instant the given number of seconds
    /// from the Unix epoch: after it for a positive number, before it for a
    /// negative one. The number is given as its encoding and is taken to the
    /// nearest millisecond.
    ///
    /// `None` for a number that cannot stand as a timestamp (not a number, an
    /// infinity, the largest or the smallest finite value), and where the
    /// platform's system time cannot represent the instant.
    pub fn at_seconds(bits: u64) -> (r: Option<AtModifier>)
        ensures
            !is_timestamp(bits) ==> r is None,
            r matches Some(modifier) ==> pins_to(
                modifier,
                epoch_distance(millis_of_seconds(bits), is_sign_negative(bits)),
            ),
    {
        if !bits_is_timestamp(bits) {
            return None;
        }
        AtModifier::from_epoch_millis(bits_millis_of_seconds(bits), bits_is_sign_negative(bits))
    }

    /// The modifier that pins to `instant`, where there is one.
    pub fn at_instant(instant: Option<SystemTime>) -> (r: Option<AtModifier>)
        ensures
            r == match instant {
                Some(t) => Some(AtModifier::At(t)),
                None => None,
            },
    {
        match instant {
            Some(t) => Some(AtModifier::At(t)),
            None => None,
        }
    }

    /// The modifier that pins to the instant `millis` milliseconds after the
    /// Unix epoch, or before it where `before_epoch` is set.
    ///
    /// `None` where the platform's system time cannot represent the instant;
    /// which instants those are is the platform's to say.
    pub fn from_epoch_millis(millis: u64, before_epoch: bool) -> (r: Option<AtModifier>)
        ensures
            r matches Some(modifier) ==> pins_to(modifier, epoch_distance(millis, before_epoch)),
    {
        let distance = Duration::from_millis(millis);
        assert(duration_nanos(distance) % 100 == 0) by {
            assert((millis * 1_000_000) % 100 == 0) by (nonlinear_arith);
        }
        let epoch = unix_epoch();
        let instant = if before_epoch {
            epoch.checked_sub(distance)
        } else {
            epoch.checked_add(distance)
        };
        AtModifier::at_instant(instant)
    }
}

} // verus!
