//! Validation of user-supplied generation parameters.
//!
//! These checks run before any file of the output tree is computed, so a
//! rejected parameter never leaves partial output behind.

use vstd::prelude::*;

use crate::errors::ValidationError;

verus! {

/// A character a project name may hold: ASCII letters, digits, `-` and `_`.
pub open spec fn is_project_name_char(c: char) -> bool {
    (65 <= c as int && c as int <= 90)  // 'A'..='Z'
    || (97 <= c as int && c as int <= 122)  // 'a'..='z'
    || (48 <= c as int && c as int <= 57)  // '0'..='9'
    || c == '-'
    || c == '_'
}

/// A valid project name: nonempty, every character in `[A-Za-z0-9_-]`.
pub open spec fn valid_project_name(s: Seq<char>) -> bool {
    s.len() > 0 && forall|i: int| 0 <= i < s.len() ==> is_project_name_char(#[trigger] s[i])
}

/// Checks a project name: it must be nonempty and hold only ASCII letters,
/// digits, hyphens and underscores (which also rules out whitespace).
pub fn validate_project_name(name: &str) -> (r: Result<(), ValidationError>)
    ensures
        r is Ok <==> valid_project_name(name@),
        name@.len() == 0 ==> r == Result::<(), ValidationError>::Err(ValidationError::EmptyProjectName),
        r is Err && name@.len() > 0 ==> r == Result::<(), ValidationError>::Err(
            ValidationError::InvalidProjectNameChar,
        ),
{
    let n = name.unicode_len();
    if n == 0 {
        return Err(ValidationError::EmptyProjectName);
    }
    let mut i: usize = 0;
    while i < n
        invariant
            0 <= i <= n,
            n == name@.len(),
            forall|j: int| 0 <= j < i ==> is_project_name_char(#[trigger] name@[j]),
        decreases n - i,
    {
        let c = name.get_char(i);
        let u = c as u32;
        let ok = (65 <= u && u <= 90) || (97 <= u && u <= 122) || (48 <= u && u <= 57)
            || c == '-' || c == '_';
        if !ok {
            return Err(ValidationError::InvalidProjectNameChar);
        }
        i = i + 1;
    }
    Ok(())
}

/// Checks a port: the reserved range below 1024 is rejected; every port in
/// `[1024, 65535]` is accepted.
pub fn validate_port(port: u16) -> (r: Result<(), ValidationError>)
    ensures
        r is Ok <==> port >= 1024,
        r is Err ==> r == Result::<(), ValidationError>::Err(ValidationError::PortReserved),
{
    if port < 1024 {
        Err(ValidationError::PortReserved)
    } else {
        Ok(())
    }
}

/// A valid host: nonempty and at most 253 characters (the DNS name limit).
pub open spec fn valid_host(s: Seq<char>) -> bool {
    0 < s.len() <= 253
}

/// Checks a host name: it must be nonempty and no longer than 253
/// characters.
pub fn validate_host(host: &str) -> (r: Result<(), ValidationError>)
    ensures
        r is Ok <==> valid_host(host@),
        host@.len() == 0 ==> r == Result::<(), ValidationError>::Err(ValidationError::EmptyHost),
        host@.len() > 253 ==> r == Result::<(), ValidationError>::Err(ValidationError::HostTooLong),
{
    let n = host.unicode_len();
    if n == 0 {
        Err(ValidationError::EmptyHost)
    } else if n > 253 {
        Err(ValidationError::HostTooLong)
    } else {
        Ok(())
    }
}

} // verus!
