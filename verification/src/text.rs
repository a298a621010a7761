use vstd::prelude::*;
use vstd::string::*;

verus! {

/// How a boolean is printed with `{}`.
pub open spec fn bool_text(b: bool) -> Seq<char> {
    if b {
        "true"@
    } else {
        "false"@
    }
}

/// The text `{}` gives for a boolean.
pub fn bool_string(b: bool) -> (s: String)
    ensures
        s@ == bool_text(b),
{
    if b {
        String::from_str("true")
    } else {
        String::from_str("false")
    }
}

/// The status line of a user's wallet: whether it is open, and whether it
/// exists at all.
pub open spec fn status_text(is_opened: bool, is_initiated: bool) -> Seq<char> {
    "is opened: "@ + bool_text(is_opened) + "\nis_initiated"@ + bool_text(is_initiated)
}

/// Builds the status line of a user's wallet.
pub fn status_string(is_opened: bool, is_initiated: bool) -> (s: String)
    ensures
        s@ == status_text(is_opened, is_initiated),
{
    let mut s = String::from_str("is opened: ");
    let a = bool_string(is_opened);
    s.append(a.as_str());
    s.append("\nis_initiated");
    let b = bool_string(is_initiated);
    s.append(b.as_str());
    s
}

} // verus!
