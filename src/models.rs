use vstd::prelude::*;

pub mod user;

pub use self::user::User;

verus! {

/// What is wrong with a field of a registration request.
#[derive(Clone, Copy, Debug, PartialEq, Eq, Structural)]
pub enum FieldError {
    Duplicate,
    TooLong,
    TooShort,
}

/// The field of a registration request that a [`FieldError`] is about.
#[derive(Clone, Copy, Debug, PartialEq, Eq, Structural)]
pub enum Field {
    Name,
    Password,
}

/// One validation failure: which field, and what is wrong with it.
#[derive(Clone, Copy, Debug, PartialEq, Eq, Structural)]
pub struct InvalidField {
    pub field: Field,
    pub error: FieldError,
}

/// Fewest characters a user name may have.
pub const NAME_MIN: usize = 3;

/// Most characters a user name may have.
pub const NAME_MAX: usize = 50;

/// Fewest characters a password may have.
pub const PASSWORD_MIN: usize = 8;

/// Whether a name of this many characters is of an accepted length.
pub open spec fn name_length_ok(len: nat) -> bool {
    NAME_MIN <= len <= NAME_MAX
}

/// What is wrong with a user name of `len` characters, given whether a
/// stored user already has it.  Length is judged first; a name of a wrong
/// length is never reported as a duplicate.
pub open spec fn name_error(len: nat, taken: bool) -> Option<FieldError> {
    if len < NAME_MIN {
        Some(FieldError::TooShort)
    } else if NAME_MAX < len {
        Some(FieldError::TooLong)
    } else if taken {
        Some(FieldError::Duplicate)
    } else {
        None
    }
}

/// What is wrong with a password of `len` characters.
pub open spec fn password_error(len: nat) -> Option<FieldError> {
    if len < PASSWORD_MIN {
        Some(FieldError::TooShort)
    } else {
        None
    }
}

/// The failure for `field`, if there is one, as a list of at most one item.
pub open spec fn reported(field: Field, error: Option<FieldError>) -> Seq<InvalidField> {
    match error {
        Some(e) => seq![InvalidField { field, error: e }],
        None => Seq::empty(),
    }
}

/// Every validation failure of a registration, name first: all are
/// collected, none hides another.
pub open spec fn field_errors(name: Seq<char>, password: Seq<char>, taken: bool) -> Seq<
    InvalidField,
> {
    reported(Field::Name, name_error(name.len(), taken)) + reported(
        Field::Password,
        password_error(password.len()),
    )
}

/// A name shorter or longer than allowed is refused: the name is reported
/// too short or too long (never as a duplicate), so registration fails and
/// nothing is stored, whatever the password and whether the name is taken.
pub proof fn lemma_name_length_refused(name: Seq<char>, password: Seq<char>, taken: bool)
    requires
        name.len() < NAME_MIN || NAME_MAX < name.len(),
    ensures
        field_errors(name, password, taken).len() > 0,
        field_errors(name, password, taken)[0] == (InvalidField {
            field: Field::Name,
            error: if name.len() < NAME_MIN {
                FieldError::TooShort
            } else {
                FieldError::TooLong
            },
        }),
        !field_errors(name, password, taken).contains(
            InvalidField { field: Field::Name, error: FieldError::Duplicate },
        ),
{
    let errs = field_errors(name, password, taken);
    if errs.contains(InvalidField { field: Field::Name, error: FieldError::Duplicate }) {
        let i = choose|i: int|
            0 <= i < errs.len() && errs[i] == (InvalidField {
                field: Field::Name,
                error: FieldError::Duplicate,
            });
        assert(i == 0 || errs[i].field == Field::Password);
    }
}

/// A password shorter than allowed is refused: it is reported too short, so
/// registration fails, whatever the name.
pub proof fn lemma_short_password_refused(name: Seq<char>, password: Seq<char>, taken: bool)
    requires
        password.len() < PASSWORD_MIN,
    ensures
        field_errors(name, password, taken).len() > 0,
        field_errors(name, password, taken).contains(
            InvalidField { field: Field::Password, error: FieldError::TooShort },
        ),
{
    let errs = field_errors(name, password, taken);
    let last = errs.len() - 1;
    assert(errs[last] == InvalidField { field: Field::Password, error: FieldError::TooShort });
}

/// A name that a stored user already has is refused as a duplicate, so a
/// second registration of a name fails and stores nothing.
pub proof fn lemma_taken_name_refused(name: Seq<char>, password: Seq<char>)
    requires
        name_length_ok(name.len()),
    ensures
        field_errors(name, password, true).len() > 0,
        field_errors(name, password, true)[0] == (InvalidField {
            field: Field::Name,
            error: FieldError::Duplicate,
        }),
{
}

/// A request passes validation exactly when the name has an accepted length
/// and is free and the password is long enough.
pub proof fn lemma_valid_exactly(name: Seq<char>, password: Seq<char>, taken: bool)
    ensures
        field_errors(name, password, taken).len() == 0 <==> name_length_ok(name.len()) && !taken
            && PASSWORD_MIN <= password.len(),
{
}

impl FieldError {
    /// The name of the failure as clients see it.
    pub fn as_str(&self) -> (r: &'static str)
        ensures
            *self == FieldError::Duplicate ==> r@ == "duplicate"@,
            *self == FieldError::TooLong ==> r@ == "too_long"@,
            *self == FieldError::TooShort ==> r@ == "too_short"@,
    {
        match self {
            FieldError::Duplicate => "duplicate",
            FieldError::TooLong => "too_long",
            FieldError::TooShort => "too_short",
        }
    }
}

impl Field {
    /// The name of the field as clients send it.
    pub fn as_str(&self) -> (r: &'static str)
        ensures
            *self == Field::Name ==> r@ == "name"@,
            *self == Field::Password ==> r@ == "password"@,
    {
        match self {
            Field::Name => "name",
            Field::Password => "password",
        }
    }
}

} // verus!
