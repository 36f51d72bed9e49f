//! E-commerce figures of a campaign.

use crate::codec::{field_is, field_ok, FromJson, read, store, ToJson};
use crate::decimal::Decimal;
use crate::json::{Json, JsonKind, JsonTree};
use crate::round_trip::{lemma_member_round_trip, RoundTrip};
use vstd::prelude::*;

verus! {

/// E-commerce figures of a campaign.
#[derive(Debug, Clone)]
pub struct ECommerceReportType {
    /// The number of orders that the campaign led to.
    pub total_orders: u64,
    /// The sum of all order totals, nothing deducted.
    pub total_spent: Decimal,
    /// The sum of all order totals without shipping and tax.
    pub total_revenue: Decimal,
    /// The currency of the amounts.
    pub currency_code: String,
}

impl ECommerceReportType {
    /// Whether this is the default report.
    pub open spec fn is_default(&self) -> bool {
        &&& self.total_orders == 0
        &&& self.total_spent.is_zero()
        &&& self.total_revenue.is_zero()
        &&& self.currency_code@.len() == 0
    }
}

impl Default for ECommerceReportType {
    fn default() -> (r: Self)
        ensures
            r.is_default(),
    {
        ECommerceReportType {
            total_orders: 0,
            total_spent: Decimal::default(),
            total_revenue: Decimal::default(),
            currency_code: String::new(),
        }
    }
}

impl FromJson for ECommerceReportType {
    /// An object; every member may be absent.
    open spec fn decodable(tree: JsonTree) -> bool {
        &&& tree is Object
        &&& field_ok::<u64>(tree, "total_orders"@)
        &&& field_ok::<Decimal>(tree, "total_spent"@)
        &&& field_ok::<Decimal>(tree, "total_revenue"@)
        &&& field_ok::<String>(tree, "currency_code"@)
    }

    open spec fn decodes_to(tree: JsonTree, value: Self) -> bool {
        &&& field_is::<u64>(tree, "total_orders"@, value.total_orders)
        &&& field_is::<Decimal>(tree, "total_spent"@, value.total_spent)
        &&& field_is::<Decimal>(tree, "total_revenue"@, value.total_revenue)
        &&& field_is::<String>(tree, "currency_code"@, value.currency_code)
    }

    open spec fn is_absent(value: Self) -> bool {
        value.is_default()
    }

    fn from_json(json: &Json) -> (r: Option<Self>) {
        if json.kind() != JsonKind::Object {
            return None;
        }
        let total_orders = read::<u64>(json, "total_orders")?;
        let total_spent = read::<Decimal>(json, "total_spent")?;
        let total_revenue = read::<Decimal>(json, "total_revenue")?;
        let currency_code = read::<String>(json, "currency_code")?;
        Some(
            ECommerceReportType {
                total_orders,
                total_spent,
                total_revenue,
                currency_code,
            },
        )
    }

    fn absent() -> (r: Self) {
        ECommerceReportType::default()
    }
}

impl ToJson for ECommerceReportType {
    open spec fn encoding(&self) -> JsonTree {
        let m = Map::<Seq<char>, JsonTree>::empty();
        let m = m.insert("total_orders"@, self.total_orders.encoding());
        let m = m.insert("total_spent"@, self.total_spent.encoding());
        let m = m.insert("total_revenue"@, self.total_revenue.encoding());
        let m = m.insert("currency_code"@, self.currency_code.encoding());
        JsonTree::Object(m)
    }

    fn to_json(&self) -> (r: Json) {
        let mut json = Json::empty_object();
        store(&mut json, "total_orders", &self.total_orders);
        store(&mut json, "total_spent", &self.total_spent);
        store(&mut json, "total_revenue", &self.total_revenue);
        store(&mut json, "currency_code", &self.currency_code);
        json
    }
}

impl RoundTrip for ECommerceReportType {
    /// Every member is writable.
    open spec fn writable(&self) -> bool {
        &&& self.total_spent.writable()
        &&& self.total_revenue.writable()
    }

    proof fn lemma_round_trip(&self) {
        reveal_strlit("total_orders");
        reveal_strlit("total_spent");
        reveal_strlit("total_revenue");
        reveal_strlit("currency_code");
        assert("total_orders"@.len() == 12);
        assert("total_spent"@.len() == 11);
        assert("total_revenue"@.len() == 13);
        assert("currency_code"@.len() == 13);
        assert("total_revenue"@[0] != "currency_code"@[0]);
        let m0 = Map::<Seq<char>, JsonTree>::empty();
        let m1 = m0.insert("total_orders"@, self.total_orders.encoding());
        let m2 = m1.insert("total_spent"@, self.total_spent.encoding());
        let m3 = m2.insert("total_revenue"@, self.total_revenue.encoding());
        let m4 = m3.insert("currency_code"@, self.currency_code.encoding());
        let members = m4;
        assert(self.encoding() == JsonTree::Object(members));
        lemma_member_round_trip(members, "total_orders"@, self.total_orders);
        lemma_member_round_trip(members, "total_spent"@, self.total_spent);
        lemma_member_round_trip(members, "total_revenue"@, self.total_revenue);
        lemma_member_round_trip(members, "currency_code"@, self.currency_code);
    }
}

} // verus!
