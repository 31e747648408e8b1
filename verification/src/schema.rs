//! The two entity kinds the core persists: content pages and
//! administrative users.
//!
//! Timestamps are carried as microseconds since the Unix epoch, and user
//! identifiers as the 128-bit value of their UUID; both are plain values
//! that contracts can speak about directly.

use vstd::prelude::*;

verus! {

/// A content page, uniquely identified by its `path`.
#[derive(Debug)]
pub struct Page {
    /// Unique, immutable identifier; by caller convention it begins with `/`.
    pub path: String,
    /// Creation instant, microseconds since the Unix epoch.
    pub created_at: i64,
    /// Identifier of the creating user; a weak reference, never owned.
    pub created_by: u128,
    /// Last-modification instant, microseconds since the Unix epoch.
    pub modified_at: i64,
    /// Identifier of the last modifying user; a weak reference.
    pub modified_by: u128,
    /// Whether the page is publicly visible.
    pub published: bool,
    /// Ordered list of lines placed in the rendered page head.
    pub metadata: Vec<String>,
    /// The page text.
    pub body: String,
}

/// The mathematical value of a [`Page`].
pub struct PageModel {
    pub path: Seq<char>,
    pub created_at: int,
    pub created_by: u128,
    pub modified_at: int,
    pub modified_by: u128,
    pub published: bool,
    pub metadata: Seq<Seq<char>>,
    pub body: Seq<char>,
}

impl View for Page {
    type V = PageModel;

    open spec fn view(&self) -> PageModel {
        PageModel {
            path: self.path@,
            created_at: self.created_at as int,
            created_by: self.created_by,
            modified_at: self.modified_at as int,
            modified_by: self.modified_by,
            published: self.published,
            metadata: self.metadata.deep_view(),
            body: self.body@,
        }
    }
}

impl DeepView for Page {
    type V = PageModel;

    open spec fn deep_view(&self) -> PageModel {
        self.view()
    }
}

impl Clone for Page {
    fn clone(&self) -> (r: Self)
        ensures
            r@ == self@,
    {
        Page {
            path: self.path.clone(),
            created_at: self.created_at,
            created_by: self.created_by,
            modified_at: self.modified_at,
            modified_by: self.modified_by,
            published: self.published,
            metadata: clone_lines(&self.metadata),
            body: self.body.clone(),
        }
    }
}

/// An administrative user, uniquely identified by `id`.
#[derive(Debug)]
pub struct AdminUser {
    /// Unique identifier: the 128-bit value of the user's UUID.
    pub id: u128,
    /// Login name.
    pub username: String,
    /// Whether the account may be used.
    pub enabled: bool,
    /// Contact address.
    pub email: String,
}

/// The mathematical value of an [`AdminUser`].
pub struct UserModel {
    pub id: u128,
    pub username: Seq<char>,
    pub enabled: bool,
    pub email: Seq<char>,
}

impl View for AdminUser {
    type V = UserModel;

    open spec fn view(&self) -> UserModel {
        UserModel {
            id: self.id,
            username: self.username@,
            enabled: self.enabled,
            email: self.email@,
        }
    }
}

impl DeepView for AdminUser {
    type V = UserModel;

    open spec fn deep_view(&self) -> UserModel {
        self.view()
    }
}

impl Clone for AdminUser {
    fn clone(&self) -> (r: Self)
        ensures
            r@ == self@,
    {
        AdminUser {
            id: self.id,
            username: self.username.clone(),
            enabled: self.enabled,
            email: self.email.clone(),
        }
    }
}

/// Copies a list of strings, keeping every line's characters.
fn clone_lines(lines: &Vec<String>) -> (r: Vec<String>)
    ensures
        r.deep_view() == lines.deep_view(),
{
    let mut r: Vec<String> = Vec::new();
    let mut i: usize = 0;
    while i < lines.len()
        invariant
            i <= lines.len(),
            r@.len() == i,
            forall|j: int| 0 <= j < i ==> r@[j]@ == #[trigger] lines@[j]@,
        decreases lines.len() - i,
    {
        r.push(lines[i].clone());
        i += 1;
    }
    proof {
        assert(r.deep_view() =~= lines.deep_view());
    }
    r
}

} // verus!
