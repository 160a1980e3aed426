//! Constrained string types: bounded strings and email addresses.
//!
//! Each type can only be obtained through its checked `create` factory, so a
//! value of the type is valid for its whole lifetime.

use crate::errors::FieldError;
use vstd::prelude::*;
use vstd::string::StrSliceExecFns;

verus! {

/// The rule enforced by `String50`: at most 50 characters.
pub open spec fn string50_ok(s: Seq<char>) -> bool {
    s.len() <= 50
}

/// Position `i` is the single `@` of `s`, with a non-empty local part before
/// it and a non-empty domain part after it.
pub open spec fn is_email_sep(s: Seq<char>, i: int) -> bool {
    &&& 1 <= i
    &&& i + 1 < s.len()
    &&& s[i] == '@'
    &&& forall|j: int| 0 <= j < s.len() && j != i ==> s[j] != '@'
}

/// The rule enforced by `EmailAddress`: exactly one `@`, separating a
/// non-empty local part from a non-empty domain part.
pub open spec fn email_ok(s: Seq<char>) -> bool {
    exists|i: int| is_email_sep(s, i)
}

/// A string of at most 50 characters.
#[derive(Debug)]
pub struct String50(String);

impl View for String50 {
    type V = Seq<char>;

    closed spec fn view(&self) -> Seq<char> {
        self.0@
    }
}

impl String50 {
    /// Checked factory: accepts any raw string of at most 50 characters and
    /// stores it unchanged; longer input is rejected as `FieldTooLong`.
    pub fn create(string50: String) -> (result: Result<Self, FieldError>)
        ensures
            string50_ok(string50@) ==> (result matches Ok(v) && v@ == string50@),
            !string50_ok(string50@) ==> (result matches Err(e) && e == FieldError::FieldTooLong),
    {
        if string50.as_str().unicode_len() > 50 {
            Err(FieldError::FieldTooLong)
        } else {
            Ok(String50(string50))
        }
    }

    /// The stored string, unchanged since construction.
    pub fn value(&self) -> (result: &String)
        ensures
            result@ == self@,
    {
        &self.0
    }
}

/// An email address: a string with exactly one `@` separating non-empty
/// local and domain parts.
#[derive(Debug)]
pub struct EmailAddress(String);

impl View for EmailAddress {
    type V = Seq<char>;

    closed spec fn view(&self) -> Seq<char> {
        self.0@
    }
}

impl EmailAddress {
    /// Checked factory: accepts exactly the strings satisfying `email_ok`
    /// and stores them unchanged; anything else is rejected as
    /// `InvalidEmailFormat`.
    pub fn create(email: String) -> (result: Result<Self, FieldError>)
        ensures
            email_ok(email@) ==> (result matches Ok(v) && v@ == email@),
            !email_ok(email@) ==> (result matches Err(e) && e == FieldError::InvalidEmailFormat),
    {
        let s: &str = email.as_str();
        let n: usize = s.unicode_len();
        let mut i: usize = 0;
        let mut at_pos: usize = 0;
        let mut found: bool = false;
        let mut dup: bool = false;
        while i < n
            invariant
                s@ == email@,
                n == email@.len(),
                i <= n,
                !found ==> forall|j: int| 0 <= j < i ==> email@[j] != '@',
                found ==> at_pos < i && email@[at_pos as int] == '@',
                found && !dup ==> forall|j: int|
                    0 <= j < i && j != at_pos ==> email@[j] != '@',
                dup ==> found,
                dup ==> exists|j: int| 0 <= j < i && j != at_pos && email@[j] == '@',
            decreases n - i,
        {
            let c = s.get_char(i);
            if c == '@' {
                if found {
                    dup = true;
                } else {
                    found = true;
                    at_pos = i;
                }
            }
            i += 1;
        }
        if found && !dup && at_pos > 0 && at_pos + 1 < n {
            proof {
                assert(is_email_sep(email@, at_pos as int));
            }
            Ok(EmailAddress(email))
        } else {
            proof {
                if email_ok(email@) {
                    let k = choose|k: int| is_email_sep(email@, k);
                    if !found {
                        assert(email@[k] == '@');
                    } else if dup {
                        let j = choose|j: int|
                            0 <= j < n && j != at_pos && email@[j] == '@';
                        // a single separator cannot equal two distinct
                        // positions that both hold an '@'
                        assert(k == j && k == at_pos);
                    } else {
                        // the one '@' sits at the boundary, so one side is empty
                        assert(k == at_pos);
                    }
                    assert(false);
                }
            }
            Err(FieldError::InvalidEmailFormat)
        }
    }

    /// The stored address, unchanged since construction.
    pub fn value(&self) -> (result: &String)
        ensures
            result@ == self@,
    {
        &self.0
    }
}

/// A string without any `@` is never a well-formed email address.
pub proof fn lemma_email_requires_at(s: Seq<char>)
    requires
        forall|j: int| 0 <= j < s.len() ==> s[j] != '@',
    ensures
        !email_ok(s),
{
    if email_ok(s) {
        let k = choose|k: int| is_email_sep(s, k);
        assert(s[k] == '@');
        assert(false);
    }
}

/// A string whose single `@` has non-empty parts on both sides is a
/// well-formed email address.
pub proof fn lemma_email_single_at(s: Seq<char>, i: int)
    requires
        1 <= i,
        i + 1 < s.len(),
        s[i] == '@',
        forall|j: int| 0 <= j < s.len() && j != i ==> s[j] != '@',
    ensures
        email_ok(s),
{
    assert(is_email_sep(s, i));
}

} // verus!
