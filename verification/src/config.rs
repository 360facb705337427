//! The startup configuration and its validation.
//!
//! Reading the configuration file and decoding its JSON happen in the
//! surrounding application; the library receives the plain values and
//! owns the validation rule: an empty backend client id is rejected
//! before anything is connected.

use vstd::prelude::*;

verus! {

/// The settings consumed by the helper.
pub struct Configuration {
    /// Numeric id (as text) of the registered backend application.
    pub discord_client_id: String,
}

/// Message reported when the client id is empty.
pub open spec fn empty_id_error_spec() -> Seq<char> {
    "discord_client_id is empty."@
}

impl Configuration {
    /// Validates the configuration on a functional level.
    ///
    /// Returns the list of findings; an empty list means the
    /// configuration is valid.  The only rule is that
    /// `discord_client_id` must not be empty.
    pub fn validate(&self) -> (errors: Vec<String>)
        ensures
            self.discord_client_id@.len() == 0 ==> errors@.len() == 1
                && errors@[0]@ == empty_id_error_spec(),
            self.discord_client_id@.len() != 0 ==> errors@.len() == 0,
    {
        let mut errors: Vec<String> = Vec::new();
        if self.discord_client_id.as_str().unicode_len() == 0 {
            errors.push(String::from_str("discord_client_id is empty."));
        }
        errors
    }
}

/// Joined message for a list of validation findings.
pub open spec fn joined_errors_spec(errs: Seq<Seq<char>>) -> Seq<char>
    decreases errs.len(),
{
    if errs.len() == 0 {
        "Error messages:"@
    } else {
        joined_errors_spec(errs.drop_last()) + "\n\t- "@ + errs.last()
    }
}

/// Validates the configuration, folding the findings into one message.
///
/// Succeeds exactly when `validate` finds nothing, that is when the
/// client id is non-empty; otherwise returns the joined findings.
pub fn validate_config(config: &Configuration) -> (r: Result<(), String>)
    ensures
        config.discord_client_id@.len() != 0 ==> r is Ok,
        config.discord_client_id@.len() == 0 ==> (r matches Err(m)
            && m@ == joined_errors_spec(seq![empty_id_error_spec()])),
{
    let errors = config.validate();
    if errors.len() == 0 {
        return Ok(());
    }
    let mut msg = String::from_str("Error messages:");
    let mut i: usize = 0;
    while i < errors.len()
        invariant
            0 <= i <= errors@.len(),
            msg@ == joined_errors_spec(errors@.map_values(|e: String| e@).subrange(0, i as int)),
        decreases errors@.len() - i,
    {
        msg.append("\n\t- ");
        msg.append(errors[i].as_str());
        proof {
            let views = errors@.map_values(|e: String| e@);
            assert(views.subrange(0, i + 1).drop_last() =~= views.subrange(0, i as int));
            assert(views.subrange(0, i + 1).last() == errors@[i as int]@);
        }
        i = i + 1;
    }
    proof {
        let views = errors@.map_values(|e: String| e@);
        assert(views.subrange(0, errors@.len() as int) =~= views);
        assert(views =~= seq![empty_id_error_spec()]);
    }
    Err(msg)
}

} // verus!
