//! Records of the account itself.

use crate::codec::{field_is, field_ok, FromJson, read, store, ToJson};
use crate::json::{Json, JsonKind, JsonTree};
use crate::round_trip::{lemma_member_round_trip, RoundTrip};
use crate::types::link::LinkType;
use vstd::prelude::*;

verus! {

/// The postal address of an account.
#[derive(Debug, Clone)]
pub struct ContactType {
    /// The company.
    pub company: String,
    /// The first line of the address.
    pub addr1: String,
    /// The second line of the address.
    pub addr2: String,
    /// The city.
    pub city: String,
    /// The state or province.
    pub state: String,
    /// The postal code.
    pub zip: String,
    /// The country.
    pub country: String,
}

impl ContactType {
    /// Whether this is the default contact.
    pub open spec fn is_default(&self) -> bool {
        &&& self.company@.len() == 0
        &&& self.addr1@.len() == 0
        &&& self.addr2@.len() == 0
        &&& self.city@.len() == 0
        &&& self.state@.len() == 0
        &&& self.zip@.len() == 0
        &&& self.country@.len() == 0
    }
}

impl Default for ContactType {
    fn default() -> (r: Self)
        ensures
            r.is_default(),
    {
        ContactType {
            company: String::new(),
            addr1: String::new(),
            addr2: String::new(),
            city: String::new(),
            state: String::new(),
            zip: String::new(),
            country: String::new(),
        }
    }
}

impl FromJson for ContactType {
    /// An object; every member may be absent.
    open spec fn decodable(tree: JsonTree) -> bool {
        &&& tree is Object
        &&& field_ok::<String>(tree, "company"@)
        &&& field_ok::<String>(tree, "addr1"@)
        &&& field_ok::<String>(tree, "addr2"@)
        &&& field_ok::<String>(tree, "city"@)
        &&& field_ok::<String>(tree, "state"@)
        &&& field_ok::<String>(tree, "zip"@)
        &&& field_ok::<String>(tree, "country"@)
    }

    open spec fn decodes_to(tree: JsonTree, value: Self) -> bool {
        &&& field_is::<String>(tree, "company"@, value.company)
        &&& field_is::<String>(tree, "addr1"@, value.addr1)
        &&& field_is::<String>(tree, "addr2"@, value.addr2)
        &&& field_is::<String>(tree, "city"@, value.city)
        &&& field_is::<String>(tree, "state"@, value.state)
        &&& field_is::<String>(tree, "zip"@, value.zip)
        &&& field_is::<String>(tree, "country"@, value.country)
    }

    open spec fn is_absent(value: Self) -> bool {
        value.is_default()
    }

    fn from_json(json: &Json) -> (r: Option<Self>) {
        if json.kind() != JsonKind::Object {
            return None;
        }
        let company = read::<String>(json, "company")?;
        let addr1 = read::<String>(json, "addr1")?;
        let addr2 = read::<String>(json, "addr2")?;
        let city = read::<String>(json, "city")?;
        let state = read::<String>(json, "state")?;
        let zip = read::<String>(json, "zip")?;
        let country = read::<String>(json, "country")?;
        Some(
            ContactType {
                company,
                addr1,
                addr2,
                city,
                state,
                zip,
                country,
            },
        )
    }

    fn absent() -> (r: Self) {
        ContactType::default()
    }
}

impl ToJson for ContactType {
    open spec fn encoding(&self) -> JsonTree {
        let m = Map::<Seq<char>, JsonTree>::empty();
        let m = m.insert("company"@, self.company.encoding());
        let m = m.insert("addr1"@, self.addr1.encoding());
        let m = m.insert("addr2"@, self.addr2.encoding());
        let m = m.insert("city"@, self.city.encoding());
        let m = m.insert("state"@, self.state.encoding());
        let m = m.insert("zip"@, self.zip.encoding());
        let m = m.insert("country"@, self.country.encoding());
        JsonTree::Object(m)
    }

    fn to_json(&self) -> (r: Json) {
        let mut json = Json::empty_object();
        store(&mut json, "company", &self.company);
        store(&mut json, "addr1", &self.addr1);
        store(&mut json, "addr2", &self.addr2);
        store(&mut json, "city", &self.city);
        store(&mut json, "state", &self.state);
        store(&mut json, "zip", &self.zip);
        store(&mut json, "country", &self.country);
        json
    }
}

impl RoundTrip for ContactType {
    open spec fn writable(&self) -> bool {
        true
    }

    proof fn lemma_round_trip(&self) {
        reveal_strlit("company");
        reveal_strlit("addr1");
        reveal_strlit("addr2");
        reveal_strlit("city");
        reveal_strlit("state");
        reveal_strlit("zip");
        reveal_strlit("country");
        assert("company"@.len() == 7);
        assert("addr1"@.len() == 5);
        assert("addr2"@.len() == 5);
        assert("city"@.len() == 4);
        assert("state"@.len() == 5);
        assert("zip"@.len() == 3);
        assert("country"@.len() == 7);
        assert("company"@[2] != "country"@[2]);
        assert("addr1"@[4] != "addr2"@[4]);
        assert("addr1"@[0] != "state"@[0]);
        assert("addr2"@[0] != "state"@[0]);
        let m0 = Map::<Seq<char>, JsonTree>::empty();
        let m1 = m0.insert("company"@, self.company.encoding());
        let m2 = m1.insert("addr1"@, self.addr1.encoding());
        let m3 = m2.insert("addr2"@, self.addr2.encoding());
        let m4 = m3.insert("city"@, self.city.encoding());
        let m5 = m4.insert("state"@, self.state.encoding());
        let m6 = m5.insert("zip"@, self.zip.encoding());
        let m7 = m6.insert("country"@, self.country.encoding());
        let members = m7;
        assert(self.encoding() == JsonTree::Object(members));
        lemma_member_round_trip(members, "company"@, self.company);
        lemma_member_round_trip(members, "addr1"@, self.addr1);
        lemma_member_round_trip(members, "addr2"@, self.addr2);
        lemma_member_round_trip(members, "city"@, self.city);
        lemma_member_round_trip(members, "state"@, self.state);
        lemma_member_round_trip(members, "zip"@, self.zip);
        lemma_member_round_trip(members, "country"@, self.country);
    }
}

/// The account that a key belongs to, as the root of the API describes it.
#[derive(Debug, Clone)]
pub struct ApiRootType {
    /// The identifier of the account.
    pub account_id: String,
    /// The name of the account.
    pub account_name: String,
    /// The email address of the account's owner.
    pub email: String,
    /// The role of the user that the key belongs to.
    pub role: String,
    /// The postal address of the account.
    pub contact: ContactType,
    /// Whether the account has the Pro features.
    pub pro_enabled: bool,
    /// When the account was last logged in to.
    pub last_login: String,
    /// The number of subscribers over all lists.
    pub total_subscribers: u64,
    /// Links to related resources and schema documents.
    pub _links: Vec<LinkType>,
}

impl ApiRootType {
    /// Whether this is the default account.
    pub open spec fn is_default(&self) -> bool {
        &&& self.account_id@.len() == 0
        &&& self.account_name@.len() == 0
        &&& self.email@.len() == 0
        &&& self.role@.len() == 0
        &&& self.contact.is_default()
        &&& !self.pro_enabled
        &&& self.last_login@.len() == 0
        &&& self.total_subscribers == 0
        &&& self._links@.len() == 0
    }
}

impl Default for ApiRootType {
    fn default() -> (r: Self)
        ensures
            r.is_default(),
    {
        ApiRootType {
            account_id: String::new(),
            account_name: String::new(),
            email: String::new(),
            role: String::new(),
            contact: ContactType::default(),
            pro_enabled: false,
            last_login: String::new(),
            total_subscribers: 0,
            _links: Vec::new(),
        }
    }
}

impl FromJson for ApiRootType {
    /// An object; every member may be absent.
    open spec fn decodable(tree: JsonTree) -> bool {
        &&& tree is Object
        &&& field_ok::<String>(tree, "account_id"@)
        &&& field_ok::<String>(tree, "account_name"@)
        &&& field_ok::<String>(tree, "email"@)
        &&& field_ok::<String>(tree, "role"@)
        &&& field_ok::<ContactType>(tree, "contact"@)
        &&& field_ok::<bool>(tree, "pro_enabled"@)
        &&& field_ok::<String>(tree, "last_login"@)
        &&& field_ok::<u64>(tree, "total_subscribers"@)
        &&& field_ok::<Vec<LinkType>>(tree, "_links"@)
    }

    open spec fn decodes_to(tree: JsonTree, value: Self) -> bool {
        &&& field_is::<String>(tree, "account_id"@, value.account_id)
        &&& field_is::<String>(tree, "account_name"@, value.account_name)
        &&& field_is::<String>(tree, "email"@, value.email)
        &&& field_is::<String>(tree, "role"@, value.role)
        &&& field_is::<ContactType>(tree, "contact"@, value.contact)
        &&& field_is::<bool>(tree, "pro_enabled"@, value.pro_enabled)
        &&& field_is::<String>(tree, "last_login"@, value.last_login)
        &&& field_is::<u64>(tree, "total_subscribers"@, value.total_subscribers)
        &&& field_is::<Vec<LinkType>>(tree, "_links"@, value._links)
    }

    open spec fn is_absent(value: Self) -> bool {
        value.is_default()
    }

    fn from_json(json: &Json) -> (r: Option<Self>) {
        if json.kind() != JsonKind::Object {
            return None;
        }
        let account_id = read::<String>(json, "account_id")?;
        let account_name = read::<String>(json, "account_name")?;
        let email = read::<String>(json, "email")?;
        let role = read::<String>(json, "role")?;
        let contact = read::<ContactType>(json, "contact")?;
        let pro_enabled = read::<bool>(json, "pro_enabled")?;
        let last_login = read::<String>(json, "last_login")?;
        let total_subscribers = read::<u64>(json, "total_subscribers")?;
        let _links = read::<Vec<LinkType>>(json, "_links")?;
        Some(
            ApiRootType {
                account_id,
                account_name,
                email,
                role,
                contact,
                pro_enabled,
                last_login,
                total_subscribers,
                _links,
            },
        )
    }

    fn absent() -> (r: Self) {
        ApiRootType::default()
    }
}

impl ToJson for ApiRootType {
    open spec fn encoding(&self) -> JsonTree {
        let m = Map::<Seq<char>, JsonTree>::empty();
        let m = m.insert("account_id"@, self.account_id.encoding());
        let m = m.insert("account_name"@, self.account_name.encoding());
        let m = m.insert("email"@, self.email.encoding());
        let m = m.insert("role"@, self.role.encoding());
        let m = m.insert("contact"@, self.contact.encoding());
        let m = m.insert("pro_enabled"@, self.pro_enabled.encoding());
        let m = m.insert("last_login"@, self.last_login.encoding());
        let m = m.insert("total_subscribers"@, self.total_subscribers.encoding());
        let m = m.insert("_links"@, self._links.encoding());
        JsonTree::Object(m)
    }

    fn to_json(&self) -> (r: Json) {
        let mut json = Json::empty_object();
        store(&mut json, "account_id", &self.account_id);
        store(&mut json, "account_name", &self.account_name);
        store(&mut json, "email", &self.email);
        store(&mut json, "role", &self.role);
        store(&mut json, "contact", &self.contact);
        store(&mut json, "pro_enabled", &self.pro_enabled);
        store(&mut json, "last_login", &self.last_login);
        store(&mut json, "total_subscribers", &self.total_subscribers);
        store(&mut json, "_links", &self._links);
        json
    }
}

impl RoundTrip for ApiRootType {
    /// Every member is writable.
    open spec fn writable(&self) -> bool {
        &&& self.contact.writable()
        &&& self._links.writable()
    }

    proof fn lemma_round_trip(&self) {
        reveal_strlit("account_id");
        reveal_strlit("account_name");
        reveal_strlit("email");
        reveal_strlit("role");
        reveal_strlit("contact");
        reveal_strlit("pro_enabled");
        reveal_strlit("last_login");
        reveal_strlit("total_subscribers");
        reveal_strlit("_links");
        assert("account_id"@.len() == 10);
        assert("account_name"@.len() == 12);
        assert("email"@.len() == 5);
        assert("role"@.len() == 4);
        assert("contact"@.len() == 7);
        assert("pro_enabled"@.len() == 11);
        assert("last_login"@.len() == 10);
        assert("total_subscribers"@.len() == 17);
        assert("_links"@.len() == 6);
        assert("account_id"@[0] != "last_login"@[0]);
        let m0 = Map::<Seq<char>, JsonTree>::empty();
        let m1 = m0.insert("account_id"@, self.account_id.encoding());
        let m2 = m1.insert("account_name"@, self.account_name.encoding());
        let m3 = m2.insert("email"@, self.email.encoding());
        let m4 = m3.insert("role"@, self.role.encoding());
        let m5 = m4.insert("contact"@, self.contact.encoding());
        let m6 = m5.insert("pro_enabled"@, self.pro_enabled.encoding());
        let m7 = m6.insert("last_login"@, self.last_login.encoding());
        let m8 = m7.insert("total_subscribers"@, self.total_subscribers.encoding());
        let m9 = m8.insert("_links"@, self._links.encoding());
        let members = m9;
        assert(self.encoding() == JsonTree::Object(members));
        lemma_member_round_trip(members, "account_id"@, self.account_id);
        lemma_member_round_trip(members, "account_name"@, self.account_name);
        lemma_member_round_trip(members, "email"@, self.email);
        lemma_member_round_trip(members, "role"@, self.role);
        lemma_member_round_trip(members, "contact"@, self.contact);
        lemma_member_round_trip(members, "pro_enabled"@, self.pro_enabled);
        lemma_member_round_trip(members, "last_login"@, self.last_login);
        lemma_member_round_trip(members, "total_subscribers"@, self.total_subscribers);
        lemma_member_round_trip(members, "_links"@, self._links);
    }
}

} // verus!
