use vstd::prelude::*;
use vstd::string::StrSliceExecFns;
use vstd::utf8::{encode_utf8, encode_utf8_decode_utf8};

use crate::handlers::HandlerError;
use crate::models::{
    field_errors, name_length_ok, Field, FieldError, InvalidField, NAME_MAX, NAME_MIN,
    PASSWORD_MIN,
};
use crate::password::{generate_hash, hash_verifies, PASSWORD_MAX_CHARS};

verus! {

/// A new password hash changes what every session of the user was checked
/// against: two different hashes never give the same session check bytes,
/// so sessions made under the old hash no longer match.
pub proof fn lemma_new_hash_ends_sessions(before: User, after: User)
    requires
        before.password@ != after.password@,
    ensures
        encode_utf8(before.password@) != encode_utf8(after.password@),
{
    if encode_utf8(before.password@) == encode_utf8(after.password@) {
        encode_utf8_decode_utf8(before.password@);
        encode_utf8_decode_utf8(after.password@);
    }
}

/// A user account.  `password` holds the plaintext in a registration
/// request and the password hash once the account is stored.
#[derive(Clone)]
pub struct User {
    pub id: Option<i32>,
    pub name: String,
    pub password: String,
}

impl User {
    /// Whether the name has an accepted length, so that it is worth asking
    /// the store whether it is taken.
    pub fn name_length_ok(&self) -> (r: bool)
        ensures
            r == name_length_ok(self.name@.len()),
    {
        let len = self.name.as_str().unicode_len();
        NAME_MIN <= len && len <= NAME_MAX
    }

    /// Every validation failure of this registration request; `taken` says
    /// whether a stored user already has the name.
    pub fn validate(&self, taken: bool) -> (r: Vec<InvalidField>)
        ensures
            r@ == field_errors(self.name@, self.password@, taken),
    {
        let mut errs: Vec<InvalidField> = Vec::new();
        let name_len = self.name.as_str().unicode_len();
        if name_len < NAME_MIN {
            errs.push(InvalidField { field: Field::Name, error: FieldError::TooShort });
        } else if NAME_MAX < name_len {
            errs.push(InvalidField { field: Field::Name, error: FieldError::TooLong });
        } else if taken {
            errs.push(InvalidField { field: Field::Name, error: FieldError::Duplicate });
        }
        if self.password.as_str().unicode_len() < PASSWORD_MIN {
            errs.push(InvalidField { field: Field::Password, error: FieldError::TooShort });
        }
        proof {
            assert(errs@ =~= field_errors(self.name@, self.password@, taken));
        }
        errs
    }

    /// Decides a registration request.  `taken` says whether a stored user
    /// already has the name; the store is asked only where
    /// [`User::name_length_ok`] holds, and is the final judge of uniqueness
    /// through its own constraint.  With a validation failure the result is
    /// every failure and nothing is to be stored; otherwise it is a fresh
    /// hash of the password, the only form in which a password is stored.
    pub fn create(&self, taken: bool) -> (r: Result<String, HandlerError>)
        requires
            self.password@.len() <= PASSWORD_MAX_CHARS,
        ensures
            field_errors(self.name@, self.password@, taken).len() == 0 <==> r is Ok,
            r matches Ok(hash) ==> hash_verifies(self.password@, hash@),
            r matches Err(e) ==> (e matches HandlerError::InvalidFields(errs) && errs@
                == field_errors(self.name@, self.password@, taken)),
    {
        let errs = self.validate(taken);
        if errs.len() > 0 {
            return Err(HandlerError::InvalidFields(errs));
        }
        Ok(generate_hash(self.password.as_str()))
    }

    /// Records the id that the store gave the new row.  Ids that do not fit
    /// the user's `i32` id are refused and leave the user as it was.
    pub fn set_inserted_id(&mut self, insert_id: u64) -> (r: Result<(), HandlerError>)
        ensures
            insert_id <= i32::MAX <==> r is Ok,
            r is Ok ==> final(self).id == Some(insert_id as i32),
            r is Err ==> (r matches Err(HandlerError::TryFromError)),
            r is Err ==> final(self).id == old(self).id,
            final(self).name == old(self).name,
            final(self).password == old(self).password,
    {
        if insert_id <= i32::MAX as u64 {
            self.id = Some(insert_id as i32);
            Ok(())
        } else {
            Err(HandlerError::TryFromError)
        }
    }

    /// The session identity of the user: its name.
    pub fn id(&self) -> (r: String)
        ensures
            r@ == self.name@,
    {
        self.name.clone()
    }

    /// What the session layer mixes into a session's integrity check: the
    /// bytes of the stored password hash, so that a new hash ends every
    /// session of the user.
    pub fn session_auth_hash(&self) -> (r: &[u8])
        ensures
            r@ == encode_utf8(self.password@),
    {
        self.password.as_str().as_bytes()
    }
}

} // verus!
