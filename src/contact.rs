//! Validation of contact-form submissions.

use vstd::prelude::*;

verus! {

/// Whether a code point has the Unicode `White_Space` property. These may
/// not appear anywhere in an email address.
pub open spec fn is_space_code(n: u32) -> bool {
    ||| 0x09 <= n <= 0x0D
    ||| n == 0x20
    ||| n == 0x85
    ||| n == 0xA0
    ||| n == 0x1680
    ||| 0x2000 <= n <= 0x200A
    ||| n == 0x2028
    ||| n == 0x2029
    ||| n == 0x202F
    ||| n == 0x205F
    ||| n == 0x3000
}

/// Whether a character is whitespace in the Unicode sense.
pub open spec fn is_space(c: char) -> bool {
    is_space_code(c as u32)
}

/// `s` has an `@` at position `k` and at no other position.
pub open spec fn sole_at_sign(s: Seq<char>, k: int) -> bool {
    &&& 0 <= k < s.len()
    &&& s[k] == '@'
    &&& forall|i: int| 0 <= i < s.len() && i != k ==> s[i] != '@'
}

/// An address of the shape `local-part@domain.tld`: no whitespace, exactly
/// one `@`, and at least one `.` somewhere after it.
pub open spec fn valid_email(s: Seq<char>) -> bool {
    &&& forall|i: int| 0 <= i < s.len() ==> !is_space(#[trigger] s[i])
    &&& exists|k: int|
        #[trigger] sole_at_sign(s, k) && exists|j: int| k < j < s.len() && s[j] == '.'
}

/// Why a submission was turned away.
#[derive(Clone, Copy, Debug, PartialEq, Eq, Structural)]
pub enum ValidationError {
    /// One of the three fields is empty.
    MissingField,
    /// The email field is not a plausible address.
    InvalidEmail,
}

/// The first rule that a submission breaks, if any: an empty field comes
/// before a malformed address.
pub open spec fn first_violation(
    name: Seq<char>,
    email: Seq<char>,
    message: Seq<char>,
) -> Option<ValidationError> {
    if name.len() == 0 || email.len() == 0 || message.len() == 0 {
        Some(ValidationError::MissingField)
    } else if !valid_email(email) {
        Some(ValidationError::InvalidEmail)
    } else {
        None
    }
}

impl ValidationError {
    /// The message shown to the visitor beside the form.
    pub fn text(&self) -> (r: &'static str)
        ensures
            *self == ValidationError::MissingField ==> r@ == "All fields are required"@,
            *self == ValidationError::InvalidEmail ==> r@ == "Invalid email address"@,
    {
        match self {
            ValidationError::MissingField => "All fields are required",
            ValidationError::InvalidEmail => "Invalid email address",
        }
    }
}

fn is_space_char(c: char) -> (r: bool)
    ensures
        r == is_space(c),
{
    let n = c as u32;
    (0x09 <= n && n <= 0x0D) || n == 0x20 || n == 0x85 || n == 0xA0 || n == 0x1680 || (0x2000
        <= n && n <= 0x200A) || n == 0x2028 || n == 0x2029 || n == 0x202F || n == 0x205F || n
        == 0x3000
}

/// Whether `email` is of the shape `local-part@domain.tld`.
pub fn is_valid_email(email: &str) -> (r: bool)
    ensures
        r == valid_email(email@),
{
    let s = Ghost(email@);
    let n = email.unicode_len();
    let mut seen_at = false;
    let mut at: usize = 0;
    let mut dot_after = false;
    let mut i: usize = 0;
    while i < n
        invariant
            n == s@.len(),
            s@ == email@,
            i <= n,
            forall|p: int| 0 <= p < i ==> !is_space(#[trigger] s@[p]),
            !seen_at ==> !dot_after,
            !seen_at ==> forall|p: int| 0 <= p < i ==> #[trigger] s@[p] != '@',
            seen_at ==> {
                &&& at < i
                &&& s@[at as int] == '@'
                &&& forall|p: int| 0 <= p < i && p != at ==> #[trigger] s@[p] != '@'
                &&& dot_after == exists|j: int| at < j < i && s@[j] == '.'
            },
        decreases n - i,
    {
        let c = email.get_char(i);
        assert(s@[i as int] == c);
        if is_space_char(c) {
            return false;
        }
        if c == '@' {
            if seen_at {
                proof {
                    assert forall|k: int| #[trigger] sole_at_sign(s@, k) implies false by {
                        if k != at {
                            assert(s@[at as int] == '@');
                        } else {
                            assert(s@[i as int] == '@');
                        }
                    }
                }
                return false;
            }
            seen_at = true;
            at = i;
        } else if c == '.' && seen_at {
            dot_after = true;
        }
        proof {
            if seen_at && c == '.' {
                assert(at < i && s@[i as int] == '.');
            }
            if seen_at && dot_after && c != '.' && c != '@' {
                let j = choose|j: int| at < j < i && s@[j] == '.';
                assert(at < j < i + 1 && s@[j] == '.');
            }
        }
        i = i + 1;
    }
    if !seen_at {
        proof {
            assert forall|k: int| #[trigger] sole_at_sign(s@, k) implies false by {
                assert(s@[k] == '@');
            }
        }
        false
    } else {
        proof {
            assert(sole_at_sign(s@, at as int));
            assert forall|k: int| #[trigger] sole_at_sign(s@, k) implies k == at by {
                if k != at {
                    assert(s@[at as int] == '@');
                }
            }
        }
        dot_after
    }
}

/// Checks a submission, reporting the first rule it breaks.
pub fn validate(name: &str, email: &str, message: &str) -> (r: Result<(), ValidationError>)
    ensures
        r is Ok <==> first_violation(name@, email@, message@) is None,
        r matches Err(e) ==> first_violation(name@, email@, message@) == Some(e),
{
    if name.is_empty() || email.is_empty() || message.is_empty() {
        Err(ValidationError::MissingField)
    } else if !is_valid_email(email) {
        Err(ValidationError::InvalidEmail)
    } else {
        Ok(())
    }
}

} // verus!
