use vstd::prelude::*;
use crate::text::same_text;

verus! {

/// The role an account holds.
#[derive(Clone, Copy, Debug, PartialEq, Eq, Structural)]
pub enum Role {
    Teacher,
    Student,
    Admin,
}

/// The text a role is written as.
pub open spec fn role_name(r: Role) -> Seq<char> {
    match r {
        Role::Teacher => "Teacher"@,
        Role::Student => "Student"@,
        Role::Admin => "Admin"@,
    }
}

/// The role a stored text stands for; any text that names no role reads as `Student`.
pub open spec fn role_from_name(s: Seq<char>) -> Role {
    if s == "Teacher"@ {
        Role::Teacher
    } else if s == "Admin"@ {
        Role::Admin
    } else {
        Role::Student
    }
}

impl Role {
    /// The role's name, as it is stored and shown.
    pub fn to_string(&self) -> (s: String)
        ensures
            s@ == role_name(*self),
    {
        match self {
            Role::Teacher => "Teacher".to_owned(),
            Role::Student => "Student".to_owned(),
            Role::Admin => "Admin".to_owned(),
        }
    }

    /// Reads a stored role name; unknown names give `Student`.
    pub fn from_name(s: &str) -> (r: Role)
        ensures
            r == role_from_name(s@),
    {
        proof {
            lemma_role_literals();
        }
        if same_text(s, "Teacher") {
            Role::Teacher
        } else if same_text(s, "Student") {
            Role::Student
        } else if same_text(s, "Admin") {
            Role::Admin
        } else {
            Role::Student
        }
    }
}

impl From<String> for Role {
    fn from(s: String) -> (r: Role) {
        Role::from_name(s.as_str())
    }
}

impl vstd::std_specs::convert::FromSpecImpl<String> for Role {
    open spec fn obeys_from_spec() -> bool {
        true
    }

    open spec fn from_spec(v: String) -> Role {
        role_from_name(v@)
    }
}

proof fn lemma_role_literals()
    ensures
        "Teacher"@ != "Student"@,
        "Teacher"@ != "Admin"@,
        "Student"@ != "Admin"@,
{
    reveal_strlit("Teacher");
    reveal_strlit("Student");
    reveal_strlit("Admin");
    assert("Teacher"@[0] != "Student"@[0]);
    assert("Teacher"@.len() != "Admin"@.len());
    assert("Student"@.len() != "Admin"@.len());
}

/// Writing a role and reading it back gives the same role.
pub proof fn lemma_role_name_round_trip(r: Role)
    ensures
        role_from_name(role_name(r)) == r,
{
    lemma_role_literals();
}

/// Distinct roles are written differently.
pub proof fn lemma_role_names_distinct(r1: Role, r2: Role)
    ensures
        role_name(r1) == role_name(r2) <==> r1 == r2,
{
    lemma_role_name_round_trip(r1);
    lemma_role_name_round_trip(r2);
}

} // verus!
