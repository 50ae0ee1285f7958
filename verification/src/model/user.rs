//! The credential record, as the store keeps it and as it is handed in.

use vstd::prelude::*;
use super::view::opt_view;

verus! {

/// A stored user.
#[derive(Debug, Clone, PartialEq, Eq)]
pub struct User {
    pub id: i32,
    pub email: String,
    pub hashed_password: String,
    pub salt: String,
    pub full_name: Option<String>,
}

pub struct UserView {
    pub id: i32,
    pub email: Seq<char>,
    pub hashed_password: Seq<char>,
    pub salt: Seq<char>,
    pub full_name: Option<Seq<char>>,
}

impl View for User {
    type V = UserView;

    open spec fn view(&self) -> UserView {
        UserView {
            id: self.id,
            email: self.email@,
            hashed_password: self.hashed_password@,
            salt: self.salt@,
            full_name: opt_view(self.full_name),
        }
    }
}

impl UserView {
    /// The name to show for the user: the stored one, or the empty text.
    pub open spec fn display_name(self) -> Seq<char> {
        match self.full_name {
            Some(name) => name,
            None => Seq::empty(),
        }
    }
}

impl User {
    /// The name to show for the user: the stored one, or the empty text.
    pub fn into_display_name(self) -> (r: String)
        ensures
            r@ == self@.display_name(),
    {
        match self.full_name {
            Some(name) => name,
            None => String::new(),
        }
    }
}

/// A user about to be stored. The store assigns the id.
#[derive(Debug, Clone, Copy, PartialEq, Eq)]
pub struct NewUser<'a> {
    pub email: &'a str,
    pub hashed_password: &'a str,
    pub salt: &'a str,
    pub full_name: &'a str,
}

pub struct NewUserView {
    pub email: Seq<char>,
    pub hashed_password: Seq<char>,
    pub salt: Seq<char>,
    pub full_name: Seq<char>,
}

impl<'a> View for NewUser<'a> {
    type V = NewUserView;

    open spec fn view(&self) -> NewUserView {
        NewUserView {
            email: self.email@,
            hashed_password: self.hashed_password@,
            salt: self.salt@,
            full_name: self.full_name@,
        }
    }
}

} // verus!
