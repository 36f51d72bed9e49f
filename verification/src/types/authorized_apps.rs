//! Records of the applications that may act on an account.

use crate::codec::{field_is, field_ok, FromJson, read, store, ToJson};
use crate::json::{Json, JsonKind, JsonTree};
use crate::round_trip::{lemma_member_round_trip, RoundTrip};
use crate::types::link::LinkType;
use vstd::prelude::*;

verus! {

/// An application that the account has authorized.
#[derive(Debug, Clone)]
pub struct AuthorizedAppType {
    /// The identifier of the application.
    pub id: u64,
    /// The name of the application.
    pub name: String,
    /// What the application does.
    pub description: String,
    /// The users of the account that linked the application.
    pub users: Vec<String>,
    /// Links to related resources and schema documents.
    pub _links: Vec<LinkType>,
}

impl AuthorizedAppType {
    /// Whether this is the default application.
    pub open spec fn is_default(&self) -> bool {
        &&& self.id == 0
        &&& self.name@.len() == 0
        &&& self.description@.len() == 0
        &&& self.users@.len() == 0
        &&& self._links@.len() == 0
    }
}

impl Default for AuthorizedAppType {
    fn default() -> (r: Self)
        ensures
            r.is_default(),
    {
        AuthorizedAppType {
            id: 0,
            name: String::new(),
            description: String::new(),
            users: Vec::new(),
            _links: Vec::new(),
        }
    }
}

impl FromJson for AuthorizedAppType {
    /// An object; every member may be absent.
    open spec fn decodable(tree: JsonTree) -> bool {
        &&& tree is Object
        &&& field_ok::<u64>(tree, "id"@)
        &&& field_ok::<String>(tree, "name"@)
        &&& field_ok::<String>(tree, "description"@)
        &&& field_ok::<Vec<String>>(tree, "users"@)
        &&& field_ok::<Vec<LinkType>>(tree, "_links"@)
    }

    open spec fn decodes_to(tree: JsonTree, value: Self) -> bool {
        &&& field_is::<u64>(tree, "id"@, value.id)
        &&& field_is::<String>(tree, "name"@, value.name)
        &&& field_is::<String>(tree, "description"@, value.description)
        &&& field_is::<Vec<String>>(tree, "users"@, value.users)
        &&& field_is::<Vec<LinkType>>(tree, "_links"@, value._links)
    }

    open spec fn is_absent(value: Self) -> bool {
        value.is_default()
    }

    fn from_json(json: &Json) -> (r: Option<Self>) {
        if json.kind() != JsonKind::Object {
            return None;
        }
        let id = read::<u64>(json, "id")?;
        let name = read::<String>(json, "name")?;
        let description = read::<String>(json, "description")?;
        let users = read::<Vec<String>>(json, "users")?;
        let _links = read::<Vec<LinkType>>(json, "_links")?;
        Some(
            AuthorizedAppType {
                id,
                name,
                description,
                users,
                _links,
            },
        )
    }

    fn absent() -> (r: Self) {
        AuthorizedAppType::default()
    }
}

impl ToJson for AuthorizedAppType {
    open spec fn encoding(&self) -> JsonTree {
        let m = Map::<Seq<char>, JsonTree>::empty();
        let m = m.insert("id"@, self.id.encoding());
        let m = m.insert("name"@, self.name.encoding());
        let m = m.insert("description"@, self.description.encoding());
        let m = m.insert("users"@, self.users.encoding());
        let m = m.insert("_links"@, self._links.encoding());
        JsonTree::Object(m)
    }

    fn to_json(&self) -> (r: Json) {
        let mut json = Json::empty_object();
        store(&mut json, "id", &self.id);
        store(&mut json, "name", &self.name);
        store(&mut json, "description", &self.description);
        store(&mut json, "users", &self.users);
        store(&mut json, "_links", &self._links);
        json
    }
}

impl RoundTrip for AuthorizedAppType {
    /// Every member is writable.
    open spec fn writable(&self) -> bool {
        &&& self._links.writable()
    }

    proof fn lemma_round_trip(&self) {
        reveal_strlit("id");
        reveal_strlit("name");
        reveal_strlit("description");
        reveal_strlit("users");
        reveal_strlit("_links");
        assert("id"@.len() == 2);
        assert("name"@.len() == 4);
        assert("description"@.len() == 11);
        assert("users"@.len() == 5);
        assert("_links"@.len() == 6);
        let m0 = Map::<Seq<char>, JsonTree>::empty();
        let m1 = m0.insert("id"@, self.id.encoding());
        let m2 = m1.insert("name"@, self.name.encoding());
        let m3 = m2.insert("description"@, self.description.encoding());
        let m4 = m3.insert("users"@, self.users.encoding());
        let m5 = m4.insert("_links"@, self._links.encoding());
        let members = m5;
        assert(self.encoding() == JsonTree::Object(members));
        lemma_member_round_trip(members, "id"@, self.id);
        lemma_member_round_trip(members, "name"@, self.name);
        lemma_member_round_trip(members, "description"@, self.description);
        lemma_member_round_trip(members, "users"@, self.users);
        lemma_member_round_trip(members, "_links"@, self._links);
    }
}

/// One page of the authorized applications of an account.
#[derive(Debug, Clone)]
pub struct AuthorizedAppsType {
    /// The applications of this page.
    pub apps: Vec<AuthorizedAppType>,
    /// The number of applications that match, over all pages.
    pub total_items: u64,
    /// Links to related resources and schema documents.
    pub _links: Vec<LinkType>,
}

impl AuthorizedAppsType {
    /// Whether this is the default page.
    pub open spec fn is_default(&self) -> bool {
        &&& self.apps@.len() == 0
        &&& self.total_items == 0
        &&& self._links@.len() == 0
    }
}

impl Default for AuthorizedAppsType {
    fn default() -> (r: Self)
        ensures
            r.is_default(),
    {
        AuthorizedAppsType {
            apps: Vec::new(),
            total_items: 0,
            _links: Vec::new(),
        }
    }
}

impl FromJson for AuthorizedAppsType {
    /// An object; every member may be absent.
    open spec fn decodable(tree: JsonTree) -> bool {
        &&& tree is Object
        &&& field_ok::<Vec<AuthorizedAppType>>(tree, "apps"@)
        &&& field_ok::<u64>(tree, "total_items"@)
        &&& field_ok::<Vec<LinkType>>(tree, "_links"@)
    }

    open spec fn decodes_to(tree: JsonTree, value: Self) -> bool {
        &&& field_is::<Vec<AuthorizedAppType>>(tree, "apps"@, value.apps)
        &&& field_is::<u64>(tree, "total_items"@, value.total_items)
        &&& field_is::<Vec<LinkType>>(tree, "_links"@, value._links)
    }

    open spec fn is_absent(value: Self) -> bool {
        value.is_default()
    }

    fn from_json(json: &Json) -> (r: Option<Self>) {
        if json.kind() != JsonKind::Object {
            return None;
        }
        let apps = read::<Vec<AuthorizedAppType>>(json, "apps")?;
        let total_items = read::<u64>(json, "total_items")?;
        let _links = read::<Vec<LinkType>>(json, "_links")?;
        Some(
            AuthorizedAppsType {
                apps,
                total_items,
                _links,
            },
        )
    }

    fn absent() -> (r: Self) {
        AuthorizedAppsType::default()
    }
}

impl ToJson for AuthorizedAppsType {
    open spec fn encoding(&self) -> JsonTree {
        let m = Map::<Seq<char>, JsonTree>::empty();
        let m = m.insert("apps"@, self.apps.encoding());
        let m = m.insert("total_items"@, self.total_items.encoding());
        let m = m.insert("_links"@, self._links.encoding());
        JsonTree::Object(m)
    }

    fn to_json(&self) -> (r: Json) {
        let mut json = Json::empty_object();
        store(&mut json, "apps", &self.apps);
        store(&mut json, "total_items", &self.total_items);
        store(&mut json, "_links", &self._links);
        json
    }
}

impl RoundTrip for AuthorizedAppsType {
    /// Every member is writable.
    open spec fn writable(&self) -> bool {
        &&& self.apps.writable()
        &&& self._links.writable()
    }

    proof fn lemma_round_trip(&self) {
        reveal_strlit("apps");
        reveal_strlit("total_items");
        reveal_strlit("_links");
        assert("apps"@.len() == 4);
        assert("total_items"@.len() == 11);
        assert("_links"@.len() == 6);
        let m0 = Map::<Seq<char>, JsonTree>::empty();
        let m1 = m0.insert("apps"@, self.apps.encoding());
        let m2 = m1.insert("total_items"@, self.total_items.encoding());
        let m3 = m2.insert("_links"@, self._links.encoding());
        let members = m3;
        assert(self.encoding() == JsonTree::Object(members));
        lemma_member_round_trip(members, "apps"@, self.apps);
        lemma_member_round_trip(members, "total_items"@, self.total_items);
        lemma_member_round_trip(members, "_links"@, self._links);
    }
}

/// The tokens that linking an application gives.
#[derive(Debug, Clone)]
pub struct CreatedAuthorizedAppType {
    /// The access token.
    pub access_token: String,
    /// The viewer token.
    pub viewer_token: String,
}

impl CreatedAuthorizedAppType {
    /// Whether this is the default token pair.
    pub open spec fn is_default(&self) -> bool {
        &&& self.access_token@.len() == 0
        &&& self.viewer_token@.len() == 0
    }
}

impl Default for CreatedAuthorizedAppType {
    fn default() -> (r: Self)
        ensures
            r.is_default(),
    {
        CreatedAuthorizedAppType {
            access_token: String::new(),
            viewer_token: String::new(),
        }
    }
}

impl FromJson for CreatedAuthorizedAppType {
    /// An object; every member may be absent.
    open spec fn decodable(tree: JsonTree) -> bool {
        &&& tree is Object
        &&& field_ok::<String>(tree, "access_token"@)
        &&& field_ok::<String>(tree, "viewer_token"@)
    }

    open spec fn decodes_to(tree: JsonTree, value: Self) -> bool {
        &&& field_is::<String>(tree, "access_token"@, value.access_token)
        &&& field_is::<String>(tree, "viewer_token"@, value.viewer_token)
    }

    open spec fn is_absent(value: Self) -> bool {
        value.is_default()
    }

    fn from_json(json: &Json) -> (r: Option<Self>) {
        if json.kind() != JsonKind::Object {
            return None;
        }
        let access_token = read::<String>(json, "access_token")?;
        let viewer_token = read::<String>(json, "viewer_token")?;
        Some(
            CreatedAuthorizedAppType {
                access_token,
                viewer_token,
            },
        )
    }

    fn absent() -> (r: Self) {
        CreatedAuthorizedAppType::default()
    }
}

impl ToJson for CreatedAuthorizedAppType {
    open spec fn encoding(&self) -> JsonTree {
        let m = Map::<Seq<char>, JsonTree>::empty();
        let m = m.insert("access_token"@, self.access_token.encoding());
        let m = m.insert("viewer_token"@, self.viewer_token.encoding());
        JsonTree::Object(m)
    }

    fn to_json(&self) -> (r: Json) {
        let mut json = Json::empty_object();
        store(&mut json, "access_token", &self.access_token);
        store(&mut json, "viewer_token", &self.viewer_token);
        json
    }
}

impl RoundTrip for CreatedAuthorizedAppType {
    open spec fn writable(&self) -> bool {
        true
    }

    proof fn lemma_round_trip(&self) {
        reveal_strlit("access_token");
        reveal_strlit("viewer_token");
        assert("access_token"@.len() == 12);
        assert("viewer_token"@.len() == 12);
        assert("access_token"@[0] != "viewer_token"@[0]);
        let m0 = Map::<Seq<char>, JsonTree>::empty();
        let m1 = m0.insert("access_token"@, self.access_token.encoding());
        let m2 = m1.insert("viewer_token"@, self.viewer_token.encoding());
        let members = m2;
        assert(self.encoding() == JsonTree::Object(members));
        lemma_member_round_trip(members, "access_token"@, self.access_token);
        lemma_member_round_trip(members, "viewer_token"@, self.viewer_token);
    }
}

} // verus!
