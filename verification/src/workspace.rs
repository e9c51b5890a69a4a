//! Fresh names: the identifier of a report and the directory of a workspace.

use vstd::prelude::*;
use vstd::string::StringExecFns;

verus! {

/// Whether `c` is a digit or one of the letters `a` to `f`.
pub open spec fn is_lower_hex(c: char) -> bool {
    ('0' <= c && c <= '9') || ('a' <= c && c <= 'f')
}

/// Whether position `i` of a hyphenated identifier holds a hyphen.
pub open spec fn is_hyphen_position(i: int) -> bool {
    i == 8 || i == 13 || i == 18 || i == 23
}

/// The shape of a hyphenated identifier: 36 characters, hyphens after the
/// groups of 8, 4, 4 and 4 digits, lower-case hexadecimal digits elsewhere.
pub open spec fn is_uuid_text(s: Seq<char>) -> bool {
    &&& s.len() == 36
    &&& forall|i: int|
        #![trigger s[i]]
        0 <= i < 36 ==> if is_hyphen_position(i) {
            s[i] == '-'
        } else {
            is_lower_hex(s[i])
        }
}

/// The prefix that every workspace directory name starts with.
pub open spec fn workspace_prefix() -> Seq<char> {
    "work_"@
}

/// The directory name made from `token`.
pub open spec fn workspace_name_of(token: Seq<char>) -> Seq<char> {
    workspace_prefix() + token
}

/// The shape of a workspace directory name: the prefix, then a hyphenated
/// identifier.
pub open spec fn is_workspace_name(s: Seq<char>) -> bool {
    &&& s.len() == 41
    &&& s.subrange(0, 5) == workspace_prefix()
    &&& is_uuid_text(s.subrange(5, 41))
}

/// Calls `uuid::Uuid::new_v4` and formats the identifier with its `Display`
/// impl. Trusted: the text is the hyphenated lower-case form, 36 characters
/// with hyphens at positions 8, 13, 18 and 23. Which digits come out is left
/// open: they are drawn from the operating system's random source. (The call
/// panics if that source cannot be read.)
#[verifier::external_body]
pub(crate) fn fresh_uuid_text() -> (text: String)
    ensures
        is_uuid_text(text@),
{
    uuid::Uuid::new_v4().to_string()
}

/// The workspace directory name made from `token`.
pub fn workspace_name(token: &str) -> (name: String)
    ensures
        name@ == workspace_name_of(token@),
{
    let mut name = String::from_str("work_");
    name.append(token);
    name
}

/// A directory name for a new workspace. Each call draws a new identifier, so
/// two calls give different names but for a collision of 122 random bits.
pub fn fresh_workspace_name() -> (name: String)
    ensures
        is_workspace_name(name@),
{
    let token = fresh_uuid_text();
    let name = workspace_name(token.as_str());
    proof {
        lemma_workspace_name_shape(token@);
    }
    name
}

/// A name made from a hyphenated identifier has the shape of a workspace name,
/// and holds no path separator.
pub proof fn lemma_workspace_name_shape(token: Seq<char>)
    requires
        is_uuid_text(token),
    ensures
        is_workspace_name(workspace_name_of(token)),
        !workspace_name_of(token).contains('/'),
{
    reveal_strlit("work_");
    let name = workspace_name_of(token);
    assert(name.subrange(0, 5) =~= workspace_prefix());
    assert(name.subrange(5, 41) =~= token);
    assert forall|i: int| 0 <= i < name.len() implies name[i] != '/' by {
        if i >= 5 {
            assert(name[i] == token[i - 5]);
            if is_hyphen_position(i - 5) {
            } else {
                assert(is_lower_hex(token[i - 5]));
            }
        }
    }
}

} // verus!
