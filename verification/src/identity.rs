//! The execution principal of a transient service, and how it is put on
//! the wire.
//!
//! The principal also decides which bus scope is contacted: the session
//! identity speaks to the per-user service manager, every other identity to
//! the privileged system one.

use crate::wire::{prop, Property, PropertyView, WireValue, WireValueView};
use vstd::prelude::*;

verus! {

#[derive(Debug)]
enum IdentityInner {
    Session,
    UserGroup(String, String),
    Dynamic,
}

/// The principal a transient service runs as.
#[derive(Debug)]
pub struct Identity(IdentityInner);

/// The mathematical shape of an [`Identity`].
pub enum IdentityView {
    /// The calling user, under the per-user service manager.
    Session,
    /// A fixed user and group, requested from the system service manager.
    UserGroup(Seq<char>, Seq<char>),
    /// An ephemeral principal allocated by the service manager.
    Dynamic,
}

impl View for Identity {
    type V = IdentityView;

    closed spec fn view(&self) -> IdentityView {
        match self.0 {
            IdentityInner::Session => IdentityView::Session,
            IdentityInner::UserGroup(u, g) => IdentityView::UserGroup(u.deep_view(), g.deep_view()),
            IdentityInner::Dynamic => IdentityView::Dynamic,
        }
    }
}

impl Identity {
    /// Run as the given user and group.  Requesting any principal other
    /// than the caller's own needs sufficient privilege on the system bus;
    /// the service manager, not this library, enforces that.
    pub fn user_group(u: &str, g: &str) -> (r: Self)
        ensures
            r@ == IdentityView::UserGroup(u@, g@),
    {
        Self(IdentityInner::UserGroup(u.to_owned(), g.to_owned()))
    }

    /// Run as an ephemeral principal allocated by the service manager.
    pub fn dynamic() -> (r: Self)
        ensures
            r@ == IdentityView::Dynamic,
    {
        Self(IdentityInner::Dynamic)
    }

    /// Run as the calling user, under the per-user service manager.
    pub fn session() -> (r: Self)
        ensures
            r@ == IdentityView::Session,
    {
        Self(IdentityInner::Session)
    }

    /// Run as the superuser.
    pub fn root() -> (r: Self)
        ensures
            r@ == IdentityView::UserGroup("root"@, "root"@),
    {
        Self::user_group("root", "root")
    }
}

/// Whether this identity speaks to the per-user service manager.
pub fn is_session(i: &Identity) -> (r: bool)
    ensures
        r == (i@ == IdentityView::Session),
{
    match i.0 {
        IdentityInner::Session => true,
        _ => false,
    }
}

/// The principal properties an identity adds to the wire list: none for
/// the session identity, a `(User, Group)` pair for a fixed principal, and
/// the ephemeral-principal flag for a dynamic one.
pub open spec fn identity_props(i: IdentityView) -> Seq<PropertyView> {
    match i {
        IdentityView::Session => Seq::empty(),
        IdentityView::UserGroup(u, g) => seq![
            prop("User"@, WireValueView::Str(u)),
            prop("Group"@, WireValueView::Str(g)),
        ],
        IdentityView::Dynamic => seq![prop("DynamicUser"@, WireValueView::Bool(true))],
    }
}

/// Render the identity's principal properties.
pub fn unit_properties(i: &Identity) -> (r: Vec<Property>)
    ensures
        r.deep_view() == identity_props(i@),
{
    match &i.0 {
        IdentityInner::Session => {
            let r: Vec<Property> = Vec::new();
            proof {
                assert(r.deep_view() =~= identity_props(i@));
            }
            r
        }
        IdentityInner::UserGroup(u, g) => {
            let mut r: Vec<Property> = Vec::new();
            r.push(Property { key: String::from_str("User"), value: WireValue::Str(u.clone()) });
            r.push(Property { key: String::from_str("Group"), value: WireValue::Str(g.clone()) });
            proof {
                assert(r.deep_view() =~= identity_props(i@));
            }
            r
        }
        IdentityInner::Dynamic => {
            let mut r: Vec<Property> = Vec::new();
            r.push(
                Property { key: String::from_str("DynamicUser"), value: WireValue::Bool(true) },
            );
            proof {
                assert(r.deep_view() =~= identity_props(i@));
            }
            r
        }
    }
}

} // verus!
