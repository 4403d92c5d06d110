use vstd::prelude::*;
use vstd::hash_map::StringHashMap;
use crate::config::Config;
use crate::text::{
    ascii_lowercase, chars_eq_str, str_eq, string_of, to_ascii_lowercase, trim, trimmed,
};

verus! {

/// The subscription tiers, from the free tier upward.
#[derive(Clone, Copy, Debug, PartialEq, Eq, Structural, Hash)]
pub enum PlanId {
    Free,
    Starter,
    Pro,
    Business,
    Enterprise,
}

/// The name under which a plan is stored and sent.
pub open spec fn plan_name(plan_id: PlanId) -> Seq<char> {
    match plan_id {
        PlanId::Free => "free"@,
        PlanId::Starter => "starter"@,
        PlanId::Pro => "pro"@,
        PlanId::Business => "business"@,
        PlanId::Enterprise => "enterprise"@,
    }
}

impl PlanId {
    pub fn as_str(self) -> (name: &'static str)
        ensures
            name@ == plan_name(self),
    {
        match self {
            PlanId::Free => "free",
            PlanId::Starter => "starter",
            PlanId::Pro => "pro",
            PlanId::Business => "business",
            PlanId::Enterprise => "enterprise",
        }
    }
}

/// What a plan grants: the number of units per month, `None` meaning no cap.
#[derive(Clone, Copy, Debug, PartialEq)]
pub struct PlanDefinition {
    pub monthly_units: Option<i64>,
}

/// The monthly cap of each plan; `None` is unlimited.
pub open spec fn monthly_units_of(plan_id: PlanId) -> Option<i64> {
    match plan_id {
        PlanId::Free => Some(400i64),
        PlanId::Starter => Some(5_000i64),
        PlanId::Pro => Some(25_000i64),
        PlanId::Business => Some(100_000i64),
        PlanId::Enterprise => None,
    }
}

pub fn plan_definition(plan_id: PlanId) -> (def: PlanDefinition)
    ensures
        def.monthly_units == monthly_units_of(plan_id),
{
    match plan_id {
        PlanId::Free => PlanDefinition { monthly_units: Some(400) },
        PlanId::Starter => PlanDefinition { monthly_units: Some(5_000) },
        PlanId::Pro => PlanDefinition { monthly_units: Some(25_000) },
        PlanId::Business => PlanDefinition { monthly_units: Some(100_000) },
        PlanId::Enterprise => PlanDefinition { monthly_units: None },
    }
}

/// The text that an optional string stands for: nothing is the empty text.
pub open spec fn text_or_empty(value: Option<&str>) -> Seq<char> {
    match value {
        Some(v) => v@,
        None => Seq::empty(),
    }
}

/// The plan that a stored plan name means: the name is trimmed and read
/// without regard to the case of ASCII letters, and whatever names no paid
/// plan means the free plan.
pub open spec fn plan_of_name(name: Seq<char>) -> PlanId {
    let key = ascii_lowercase(trim(name));
    if key == "starter"@ {
        PlanId::Starter
    } else if key == "pro"@ {
        PlanId::Pro
    } else if key == "business"@ {
        PlanId::Business
    } else if key == "enterprise"@ {
        PlanId::Enterprise
    } else {
        PlanId::Free
    }
}

pub fn resolve_plan_id(plan: Option<&str>) -> (plan_id: PlanId)
    ensures
        plan_id == plan_of_name(text_or_empty(plan)),
{
    let name = match plan {
        Some(p) => trimmed(p),
        None => {
            assert(trim(Seq::<char>::empty()) == Seq::<char>::empty());
            Vec::new()
        },
    };
    let key = to_ascii_lowercase(&name);
    if chars_eq_str(&key, "starter") {
        PlanId::Starter
    } else if chars_eq_str(&key, "pro") {
        PlanId::Pro
    } else if chars_eq_str(&key, "business") {
        PlanId::Business
    } else if chars_eq_str(&key, "enterprise") {
        PlanId::Enterprise
    } else {
        PlanId::Free
    }
}

/// The subscription states in which the subscribed plan counts:
/// `active` and `trialing`, spelled so.
pub open spec fn is_active_status(status: Seq<char>) -> bool {
    status == "active"@ || status == "trialing"@
}

pub fn is_subscription_active(status: Option<&str>) -> (active: bool)
    ensures
        active == match status {
            Some(s) => is_active_status(s@),
            None => false,
        },
{
    match status {
        Some(s) => str_eq(s, "active") || str_eq(s, "trialing"),
        None => false,
    }
}

/// The name of a plan means that plan again.
pub proof fn lemma_plan_name_resolves(plan_id: PlanId)
    ensures
        plan_of_name(plan_name(plan_id)) == plan_id,
{
    reveal_strlit("free");
    reveal_strlit("starter");
    reveal_strlit("pro");
    reveal_strlit("business");
    reveal_strlit("enterprise");
    let name = plan_name(plan_id);
    assert(!crate::text::is_whitespace(name[0]));
    assert(!crate::text::is_whitespace(name.last()));
    assert(trim(name) == name);
    assert(ascii_lowercase(name) =~= name);
}

/// The table from a price identifier of the payment provider to a plan.
/// A later entry for an identifier replaces an earlier one.
pub struct PriceMap {
    by_price_id: StringHashMap<PlanId>,
}

/// The table after one more identifier was offered for it: an identifier
/// that is absent or blank changes nothing.
pub open spec fn with_price(
    table: Map<Seq<char>, PlanId>,
    price_id: Option<String>,
    plan_id: PlanId,
) -> Map<Seq<char>, PlanId> {
    match price_id {
        Some(id) => if trim(id@).len() > 0 {
            table.insert(trim(id@), plan_id)
        } else {
            table
        },
        None => table,
    }
}

/// What a lookup in a table gives.
pub open spec fn lookup(table: Map<Seq<char>, PlanId>, key: Seq<char>) -> Option<PlanId> {
    if table.contains_key(key) {
        Some(table[key])
    } else {
        None
    }
}

impl View for PriceMap {
    type V = Map<Seq<char>, PlanId>;

    closed spec fn view(&self) -> Map<Seq<char>, PlanId> {
        self.by_price_id@
    }
}

impl PriceMap {
    /// The table without entries.
    pub fn new() -> (table: PriceMap)
        ensures
            table@ == Map::<Seq<char>, PlanId>::empty(),
    {
        PriceMap { by_price_id: StringHashMap::new() }
    }

    /// The table of the four configured price identifiers.
    pub open spec fn from_config_spec(config: Config) -> Map<Seq<char>, PlanId> {
        with_price(
            with_price(
                with_price(
                    with_price(Map::empty(), config.stripe_price_id_starter, PlanId::Starter),
                    config.stripe_price_id_pro,
                    PlanId::Pro,
                ),
                config.stripe_price_id_business,
                PlanId::Business,
            ),
            config.stripe_price_id_enterprise,
            PlanId::Enterprise,
        )
    }

    pub fn from_config(config: &Config) -> (table: PriceMap)
        ensures
            table@ == PriceMap::from_config_spec(*config),
    {
        let mut table = PriceMap::new();
        insert_price(&mut table, config.stripe_price_id_starter.clone(), PlanId::Starter);
        insert_price(&mut table, config.stripe_price_id_pro.clone(), PlanId::Pro);
        insert_price(&mut table, config.stripe_price_id_business.clone(), PlanId::Business);
        insert_price(&mut table, config.stripe_price_id_enterprise.clone(), PlanId::Enterprise);
        table
    }

    /// The plan of a price identifier: the identifier is trimmed, and one
    /// that is absent, blank or unknown has no plan.
    pub fn get_plan_for_price_id(&self, price_id: Option<&str>) -> (plan_id: Option<PlanId>)
        ensures
            plan_id == match price_id {
                Some(id) => if trim(id@).len() == 0 {
                    None
                } else {
                    lookup(self@, trim(id@))
                },
                None => None,
            },
    {
        let key = match price_id {
            Some(id) => trimmed(id),
            None => {
                return None;
            },
        };
        if key.len() == 0 {
            return None;
        }
        let name = string_of(&key);
        match self.by_price_id.get(name.as_str()) {
            Some(plan_id) => Some(*plan_id),
            None => None,
        }
    }
}

/// Enters a price identifier for a plan, unless it is absent or blank.
pub fn insert_price(map: &mut PriceMap, price_id: Option<String>, plan_id: PlanId)
    ensures
        final(map)@ == with_price(old(map)@, price_id, plan_id),
{
    if let Some(id) = price_id {
        let key = trimmed(id.as_str());
        if key.len() > 0 {
            map.by_price_id.insert(string_of(&key), plan_id);
        }
    }
}

} // verus!
