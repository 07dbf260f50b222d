//! Velocity profiles: their kinds, their parameters, and the parsing of a
//! profile name.

use vstd::prelude::*;
use vstd::string::*;

use crate::text::{
    ascii_lowercase, eq_ascii_lowercase, lemma_ascii_lowercase_idempotent,
    lemma_trim_lowercase_commute, trim, trim_str,
};

verus! {

/// Shape of the desired-velocity curve.
#[derive(Debug, Clone, Copy, PartialEq, Eq, Structural)]
pub enum VProfile {
    Const,
    Step,
    Sin,
}

/// Parameters of the step and sine profiles.
#[derive(Debug, Clone, Copy)]
pub struct ProfileParams<F> {
    /// Time (s) at which the step profile switches on.
    pub step_at: F,
    /// Sine amplitude.
    pub sin_amp: F,
    /// Sine frequency (Hz).
    pub sin_freq: F,
    /// Sine offset.
    pub sin_bias: F,
}

/// The profile a name selects: surrounding white space is ignored and ASCII
/// letters match in either case.
pub open spec fn profile_named(name: Seq<char>) -> Option<VProfile> {
    let key = ascii_lowercase(trim(name));
    if key == "const"@ {
        Some(VProfile::Const)
    } else if key == "step"@ {
        Some(VProfile::Step)
    } else if key == "sin"@ {
        Some(VProfile::Sin)
    } else {
        None
    }
}

/// The message for a name that selects no profile.
pub open spec fn invalid_profile_message(name: Seq<char>) -> Seq<char> {
    "invalid velocity profile '"@ + trim(name) + "'"@
}

/// Parses a profile name (`const`, `step` or `sin`, in any case, surrounded by
/// any white space).
pub fn parse_v_profile(raw: &str) -> (r: Result<VProfile, String>)
    ensures
        r is Ok <==> profile_named(raw@) is Some,
        r matches Ok(p) ==> profile_named(raw@) == Some(p),
        r matches Err(msg) ==> msg@ == invalid_profile_message(raw@),
{
    let trimmed = trim_str(raw);
    if eq_ascii_lowercase(trimmed, "const") {
        Ok(VProfile::Const)
    } else if eq_ascii_lowercase(trimmed, "step") {
        Ok(VProfile::Step)
    } else if eq_ascii_lowercase(trimmed, "sin") {
        Ok(VProfile::Sin)
    } else {
        let mut msg = String::from_str("invalid velocity profile '");
        msg.append(trimmed);
        msg.append("'");
        Err(msg)
    }
}

/// Profile names ignore ASCII case: a name selects the same profile as its
/// lower-cased form (so `Const`, `CONST` and `const` all select `Const`).
pub proof fn lemma_profile_name_ignores_case(name: Seq<char>)
    ensures
        profile_named(name) == profile_named(ascii_lowercase(name)),
{
    lemma_trim_lowercase_commute(name);
    lemma_ascii_lowercase_idempotent(trim(name));
}

/// The three names, in any case and surrounded by any white space, select
/// their profiles, and no other name selects one.
pub proof fn lemma_profile_names(name: Seq<char>)
    ensures
        ascii_lowercase(trim(name)) == "const"@ ==> profile_named(name) == Some(VProfile::Const),
        ascii_lowercase(trim(name)) == "step"@ ==> profile_named(name) == Some(VProfile::Step),
        ascii_lowercase(trim(name)) == "sin"@ ==> profile_named(name) == Some(VProfile::Sin),
        ascii_lowercase(trim(name)) != "const"@ && ascii_lowercase(trim(name)) != "step"@
            && ascii_lowercase(trim(name)) != "sin"@ ==> profile_named(name) is None,
{
    reveal_strlit("const");
    reveal_strlit("step");
    reveal_strlit("sin");
    assert("step"@.len() == 4 && "const"@.len() == 5 && "sin"@.len() == 3);
    assert("step"@ != "const"@);
    assert("sin"@ != "const"@ && "sin"@ != "step"@);
}

} // verus!
