//! Namespace and hostname resolution policies.

use vstd::prelude::*;

verus! {

/// The namespace that is reported, given what the environment variable held
/// and what the mounted override file held (`None` where the variable was
/// unset, or the file unreadable):
/// - no variable: a fixed placeholder;
/// - an empty value: the empty value itself, as it is;
/// - a non-empty value: the file's contents where the file was readable,
///   else the value.
/// Every case yields a string; no input is an error.
pub open spec fn namespace_spec(env_val: Option<Seq<char>>, file_contents: Option<Seq<char>>) -> Seq<char> {
    match env_val {
        None => "?"@,
        Some(v) => {
            if v.len() == 0 {
                v
            } else {
                match file_contents {
                    Some(f) => f,
                    None => v,
                }
            }
        },
    }
}

/// Resolves the namespace from the environment value and the override file's
/// contents, by the policy of [`namespace_spec`].
pub fn get_namespace(env_val: Option<String>, file_contents: Option<String>) -> (r: String)
    ensures
        r@ == namespace_spec(env_val.deep_view(), file_contents.deep_view()),
{
    match env_val {
        None => String::from_str("?"),
        Some(v) => {
            if v.as_str().is_empty() {
                v
            } else {
                match file_contents {
                    Some(f) => f,
                    None => v,
                }
            }
        },
    }
}

/// Why no hostname could be resolved.
#[derive(Debug, PartialEq, Eq)]
pub enum HostnameError {
    /// The hostname variable was not set in the environment.
    Unset,
}

/// Resolves the hostname: the environment value exactly as it stands, and an
/// error where the variable is unset. The caller treats that error as fatal.
pub fn get_hostname(env_val: Option<String>) -> (r: Result<String, HostnameError>)
    ensures
        match env_val {
            Some(v) => r == Ok::<String, HostnameError>(v),
            None => r is Err,
        },
{
    match env_val {
        Some(v) => Ok(v),
        None => Err(HostnameError::Unset),
    }
}

} // verus!
