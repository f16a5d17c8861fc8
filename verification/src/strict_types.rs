//! Credential newtypes.  The password type deliberately offers no way
//! to display itself: diagnostics must never carry the password value.

use vstd::prelude::*;

verus! {

/// An account password, supplied by configuration as an opaque
/// validated string.  It has no `Debug` or `Display`: nothing in this
/// crate can render it into a diagnostic.
pub struct Password(String);

/// A borrowed view of a [`Password`], handed to the login-form
/// serializer and nowhere else.
pub struct PasswordRef<'s>(&'s str);

impl View for Password {
    type V = Seq<char>;

    closed spec fn view(&self) -> Seq<char> {
        self.0@
    }
}

impl<'s> View for PasswordRef<'s> {
    type V = Seq<char>;

    closed spec fn view(&self) -> Seq<char> {
        self.0@
    }
}

impl Password {
    /// Wraps a configured password value.
    pub fn new(value: String) -> (r: Password)
        ensures
            r@ == value@,
    {
        Password(value)
    }

    /// A borrowed view for form submission.
    pub fn as_ref(&self) -> (r: PasswordRef<'_>)
        ensures
            r@ == self@,
    {
        PasswordRef(self.0.as_str())
    }
}

impl<'s> PasswordRef<'s> {
    /// The borrowed characters, for the transport layer serializing
    /// the login form.
    pub fn as_str(&self) -> (r: &'s str)
        ensures
            r@ == self@,
    {
        self.0
    }
}

/// An account email address, supplied by configuration as an opaque
/// validated string.
#[derive(Debug)]
pub struct Email(String);

impl View for Email {
    type V = Seq<char>;

    closed spec fn view(&self) -> Seq<char> {
        self.0@
    }
}

impl Email {
    /// Wraps a configured email value.
    pub fn new(value: String) -> (r: Email)
        ensures
            r@ == value@,
    {
        Email(value)
    }

    /// The address as a string slice.
    pub fn as_str(&self) -> (r: &str)
        ensures
            r@ == self@,
    {
        self.0.as_str()
    }
}

} // verus!
