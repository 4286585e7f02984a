//! What a user may answer when asked whether a tool may run.

use vstd::prelude::*;

verus! {

/// The answer to the question whether a tool may run.
#[derive(Clone, Copy, Debug, PartialEq, Eq, Structural)]
pub enum Permission {
    AlwaysAllow,
    AllowOnce,
    Cancel,
    DenyOnce,
    AlwaysDeny,
}

/// What an answer is about.
#[derive(Clone, Copy, Debug, PartialEq, Eq, Structural)]
pub enum PrincipalType {
    Extension,
    Tool,
}

/// An answer, with what it is about.
#[derive(Clone, Copy, Debug, PartialEq, Eq, Structural)]
pub struct PermissionConfirmation {
    pub principal_type: PrincipalType,
    pub permission: Permission,
}

/// A standing decision on a tool, made by an answer that is to hold from now on.
#[derive(Clone, Copy, Debug, PartialEq, Eq, Structural)]
pub enum PermissionLevel {
    AlwaysAllow,
    NeverAllow,
}

impl Permission {
    /// Whether the answer lets the tool run.
    pub open spec fn allows(self) -> bool {
        self == Permission::AllowOnce || self == Permission::AlwaysAllow
    }

    /// Whether the answer lets the tool run.
    pub fn permits(self) -> (permitted: bool)
        ensures
            permitted == self.allows(),
            permitted <==> self is AllowOnce || self is AlwaysAllow,
    {
        self == Permission::AllowOnce || self == Permission::AlwaysAllow
    }

    /// The word by which the answer to a security finding is reported.
    pub open spec fn decision_word(self) -> Seq<char> {
        if self.allows() {
            "ALLOW"@
        } else {
            "BLOCK"@
        }
    }

    /// The word by which the answer to a security finding is reported.
    pub fn security_action(self) -> (action: &'static str)
        ensures
            action@ == self.decision_word(),
            self is AllowOnce || self is AlwaysAllow ==> action@ == "ALLOW"@,
            self is Cancel || self is DenyOnce || self is AlwaysDeny ==> action@ == "BLOCK"@,
    {
        match self {
            Permission::AllowOnce | Permission::AlwaysAllow => "ALLOW",
            _ => "BLOCK",
        }
    }
}

/// Of the five answers the two that allow let a tool run, and the other three do not. A security
/// finding is reported with the word for what the answer does.
pub proof fn allowing_answers_let_the_tool_run(permission: Permission)
    ensures
        permission is AllowOnce || permission is AlwaysAllow <==> permission.allows(),
        permission is Cancel || permission is DenyOnce || permission is AlwaysDeny
            <==> !permission.allows(),
        permission is AllowOnce || permission is AlwaysAllow <==> permission.decision_word()
            == "ALLOW"@,
        permission is Cancel || permission is DenyOnce || permission is AlwaysDeny
            <==> permission.decision_word() == "BLOCK"@,
{
    reveal_strlit("ALLOW");
    reveal_strlit("BLOCK");
    assert("ALLOW"@[0] != "BLOCK"@[0]);
}

} // verus!
