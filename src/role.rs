use vstd::prelude::*;

verus! {

/// The origin of a piece of content.
#[derive(Debug, Clone, Copy, PartialEq, Eq, Structural)]
pub enum Role {
    User,
    Assistant,
}

impl Default for Role {
    fn default() -> (r: Self)
        ensures
            r == Role::User,
    {
        Role::User
    }
}

impl Role {
    /// Every role, users first.
    pub fn all() -> (r: Vec<Self>)
        ensures
            r@ == seq![Role::User, Role::Assistant],
    {
        vec![Role::User, Role::Assistant]
    }

    pub fn user() -> (r: Self)
        ensures
            r == Role::User,
    {
        Role::User
    }

    pub fn assistant() -> (r: Self)
        ensures
            r == Role::Assistant,
    {
        Role::Assistant
    }

    /// The role's name in lower case.
    pub fn get_name(&self) -> (r: &'static str)
        ensures
            *self == Role::User ==> r@ == seq!['u', 's', 'e', 'r'],
            *self == Role::Assistant ==> r@ == seq!['a', 's', 's', 'i', 's', 't', 'a', 'n', 't'],
    {
        proof {
            reveal_strlit("user");
            reveal_strlit("assistant");
        }
        match self {
            Role::User => "user",
            Role::Assistant => "assistant",
        }
    }
}

} // verus!
