//! Role-based view resolution: a mapping from role tags to GUI containers,
//! and the lookup of the view a user should see.

use vstd::prelude::*;

use crate::auth::User;
use crate::gui::GUIContainer;

verus! {

/// A role-to-view mapping.
pub struct RoleViews {
    /// The mapping from role tag to view.
    pub map: vstd::hash_map::StringHashMap<GUIContainer>,
}

impl View for RoleViews {
    type V = Map<Seq<char>, GUIContainer>;

    /// The mapping viewed as a map from role tag to container.
    open spec fn view(&self) -> Map<Seq<char>, GUIContainer> {
        self.map@
    }
}

impl RoleViews {
    /// Creates an empty role-view map.
    pub fn new() -> (r: RoleViews)
        ensures
            r@ == Map::<Seq<char>, GUIContainer>::empty(),
    {
        RoleViews { map: vstd::hash_map::StringHashMap::new() }
    }

    /// Assigns a container to a role, replacing any earlier assignment.
    pub fn register_role_view(self, role: String, view: GUIContainer) -> (r: RoleViews)
        ensures
            r@ == self@.insert(role@, view),
    {
        let mut map = self.map;
        map.insert(role, view);
        RoleViews { map }
    }

    /// Resolves the view registered for the user's role.
    pub fn resolve(&self, user: &User) -> (r: Option<&GUIContainer>)
        ensures
            match r {
                Some(v) => self@.contains_key(user.role@) && *v == self@[user.role@],
                None => !self@.contains_key(user.role@),
            },
    {
        self.map.get(user.role.as_str())
    }

    /// Resolves the view for the user's role, falling back to a default.
    pub fn resolve_or_default<'a>(&'a self, user: &User, default: &'a GUIContainer) -> (r:
        &'a GUIContainer)
        ensures
            self@.contains_key(user.role@) ==> *r == self@[user.role@],
            !self@.contains_key(user.role@) ==> *r == *default,
    {
        match self.map.get(user.role.as_str()) {
            Some(v) => v,
            None => default,
        }
    }
}

} // verus!
