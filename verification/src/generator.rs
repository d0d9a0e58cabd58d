//! The end-to-end generation pipeline: validate the requested length, build
//! the charset, and sample the password from it.

use vstd::prelude::*;
use crate::charset::{Options, build, charset_spec, lemma_charset_wf};
use crate::sampler::{char_in_charset, generate_password};

verus! {

/// The smallest password length the generator accepts.
pub const MIN_LENGTH: usize = 8;

/// A configuration rejected before any entropy is drawn: the requested
/// length is below the minimum, or the charset came out empty (guarded
/// against defensively; the letters are always included, so it cannot occur
/// with the current character classes).
#[derive(Clone, Copy, Debug, PartialEq, Eq, Structural)]
pub enum ConfigError {
    LengthTooShort,
    EmptyCharset,
}

/// Validates the options, builds the charset they select, and generates a
/// password from it. Succeeds exactly when the requested length is at least
/// the minimum; no partial output is produced on a rejected configuration.
pub fn run(o: &Options) -> (r: Result<String, ConfigError>)
    ensures
        o.length >= MIN_LENGTH ==> (r matches Ok(p) && p@.len() == o.length && forall|i: int|
            0 <= i < p@.len() ==> char_in_charset(#[trigger] p@[i], charset_spec(*o))),
        o.length < MIN_LENGTH ==> r == Result::<String, ConfigError>::Err(
            ConfigError::LengthTooShort,
        ),
{
    if o.length < MIN_LENGTH {
        return Err(ConfigError::LengthTooShort);
    }
    let cs = build(o);
    proof {
        lemma_charset_wf(*o);
    }
    if cs.len() == 0 {
        return Err(ConfigError::EmptyCharset);
    }
    Ok(generate_password(o.length, &cs))
}

} // verus!
