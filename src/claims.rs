//! Claims: typed (property, value) pairs attached to entities, and the edit
//! requests that carry them to the write API.
use vstd::prelude::*;
use crate::bridge::{trim_text, trimmed};

verus! {

/// Datatype of a property of the store.
#[derive(Debug, Clone, Copy, PartialEq, Eq, Structural)]
pub enum PropertyDataType {
    String,
    Url,
    Item,
    Coord,
}

impl PropertyDataType {
    /// The name the write API gives to the datatype.
    pub open spec fn wire_name(self) -> Seq<char> {
        match self {
            PropertyDataType::String => "string"@,
            PropertyDataType::Item => "wikibase-item"@,
            PropertyDataType::Url => "url"@,
            PropertyDataType::Coord => "globe-coordinate"@,
        }
    }

    pub fn to_string(&self) -> (r: String)
        ensures
            r@ == self.wire_name(),
    {
        match self {
            PropertyDataType::String => "string".to_owned(),
            PropertyDataType::Item => "wikibase-item".to_owned(),
            PropertyDataType::Url => "url".to_owned(),
            PropertyDataType::Coord => "globe-coordinate".to_owned(),
        }
    }
}

/// Kind of entity to create: an item, or a property of some datatype.
#[derive(Debug, Clone, Copy, PartialEq, Eq, Structural)]
pub enum ObjectType {
    Item,
    Property(PropertyDataType),
}

impl ObjectType {
    /// The name the write API gives to the kind of entity.
    pub open spec fn wire_name(self) -> Seq<char> {
        match self {
            ObjectType::Item => "item"@,
            ObjectType::Property(_) => "property"@,
        }
    }

    pub fn to_string(&self) -> (r: String)
        ensures
            r@ == self.wire_name(),
    {
        match self {
            ObjectType::Item => "item".to_owned(),
            ObjectType::Property(_) => "property".to_owned(),
        }
    }
}

/// A typed claim value. Coordinates are in millionths of a degree, the
/// precision the store is given.
#[derive(Debug, Clone)]
pub enum PropertyValue {
    String(String),
    Item(String),
    Coord { latitude_e6: i64, longitude_e6: i64 },
}

impl PropertyValue {
    /// The text of a string value, or the identifier of an item value.
    pub open spec fn text(self) -> Seq<char> {
        match self {
            PropertyValue::String(s) => s@,
            PropertyValue::Item(s) => s@,
            PropertyValue::Coord { .. } => Seq::empty(),
        }
    }

    pub fn value(&self) -> (r: &str)
        requires
            !(self is Coord),
        ensures
            r@ == self.text(),
    {
        match self {
            PropertyValue::String(e) => e.as_str(),
            PropertyValue::Item(e) => e.as_str(),
            PropertyValue::Coord { .. } => "",
        }
    }
}

/// A claim to attach to an entity.
#[derive(Debug, Clone)]
pub struct Claim {
    pub property: String,
    pub value: PropertyValue,
}

/// `c` claims the string `value` for `property`.
pub open spec fn is_string_claim(c: Claim, property: Seq<char>, value: Seq<char>) -> bool {
    &&& c.property@ == property
    &&& c.value is String
    &&& c.value.text() == value
}

/// `c` claims a link to the item `id` for `property`.
pub open spec fn is_item_claim(c: Claim, property: Seq<char>, id: Seq<char>) -> bool {
    &&& c.property@ == property
    &&& c.value is Item
    &&& c.value.text() == id
}

/// A claim of `value` for `property`.
pub fn claim(property: &str, value: PropertyValue) -> (r: Option<Claim>)
    ensures
        r is Some,
        r.unwrap().property@ == property@,
        r.unwrap().value == value,
{
    Some(Claim { property: property.to_owned(), value })
}

/// A string claim from an already trimmed value: none when the value is empty,
/// since the store refuses empty strings.
pub fn claim_from_trimmed(property: &str, value: &str) -> (r: Option<Claim>)
    ensures
        r is None <==> value@.len() == 0,
        r is Some ==> is_string_claim(r.unwrap(), property@, value@),
{
    if value.is_empty() {
        None
    } else {
        claim(property, PropertyValue::String(value.to_owned()))
    }
}

/// A string claim of the trimmed `value`; none when nothing but white space is
/// left.
pub fn claim_string(property: &str, value: &str) -> (r: Option<Claim>)
    ensures
        r is None <==> trimmed(value@).len() == 0,
        r is Some ==> is_string_claim(r.unwrap(), property@, trimmed(value@)),
{
    let value = trim_text(value);
    claim_from_trimmed(property, value.as_str())
}

/// A claim linking to the item `id`.
pub fn claim_item(property: &str, id: &str) -> (r: Option<Claim>)
    ensures
        r is Some,
        is_item_claim(r.unwrap(), property@, id@),
{
    claim(property, PropertyValue::Item(id.to_owned()))
}

/// A claim of a geographic coordinate.
pub fn claim_coord(property: &str, longitude_e6: i64, latitude_e6: i64) -> (r: Option<Claim>)
    ensures
        r is Some,
        r.unwrap().property@ == property@,
        r.unwrap().value == (PropertyValue::Coord { latitude_e6, longitude_e6 }),
{
    claim(property, PropertyValue::Coord { latitude_e6, longitude_e6 })
}

/// The claims that are present, in order.
pub open spec fn somes(s: Seq<Option<Claim>>) -> Seq<Claim>
    decreases s.len(),
{
    if s.len() == 0 {
        Seq::empty()
    } else {
        match s[0] {
            Some(c) => seq![c] + somes(s.drop_first()),
            None => somes(s.drop_first()),
        }
    }
}

/// Drops the absent claims, keeping the order of the others.
pub fn submitted_claims(claims: Vec<Option<Claim>>) -> (r: Vec<Claim>)
    ensures
        r@ == somes(claims@),
{
    let ghost all = claims@;
    let mut rest = claims;
    let mut out: Vec<Claim> = Vec::new();
    while rest.len() > 0
        invariant
            out@ + somes(rest@) == somes(all),
        decreases rest.len(),
    {
        let ghost before = rest@;
        let c = rest.remove(0);
        assert(rest@ =~= before.drop_first());
        match c {
            Some(x) => {
                assert(out@.push(x) + somes(rest@) =~= out@ + (seq![x] + somes(rest@)));
                out.push(x);
            },
            None => {},
        }
    }
    assert(out@ + somes(rest@) =~= out@);
    out
}

/// What an edit applies to: a new entity of some kind, or an existing one.
#[derive(Debug, Clone)]
pub enum EditTarget {
    New(ObjectType),
    Existing(String),
}

/// One call of the write API: the entity, its English label when one is set,
/// the claims to write, and whether the entity's former claims are cleared first.
#[derive(Debug, Clone)]
pub struct EditRequest {
    pub target: EditTarget,
    pub label: Option<String>,
    pub claims: Vec<Claim>,
    pub clear: bool,
}

/// The request creating an entity with `label` and the present `claims`.
pub fn create_request(object_type: ObjectType, label: &str, claims: Vec<Option<Claim>>) -> (r:
    EditRequest)
    ensures
        r.target == EditTarget::New(object_type),
        r.label is Some,
        r.label.unwrap()@ == label@,
        r.claims@ == somes(claims@),
        !r.clear,
{
    EditRequest {
        target: EditTarget::New(object_type),
        label: Some(label.to_owned()),
        claims: submitted_claims(claims),
        clear: false,
    }
}

/// The request adding the present `claims` to those of the entity `entity_id`.
pub fn add_claims(entity_id: &str, claims: Vec<Option<Claim>>) -> (r: EditRequest)
    ensures
        r.target is Existing,
        r.target->Existing_0@ == entity_id@,
        r.label is None,
        r.claims@ == somes(claims@),
        !r.clear,
{
    update_request(entity_id, claims, false)
}

/// The request replacing all claims of the entity `entity_id` by the present
/// `claims`.
pub fn override_object_claims(entity_id: &str, claims: Vec<Option<Claim>>) -> (r: EditRequest)
    ensures
        r.target is Existing,
        r.target->Existing_0@ == entity_id@,
        r.label is None,
        r.claims@ == somes(claims@),
        r.clear,
{
    update_request(entity_id, claims, true)
}

/// The request writing the present `claims` on the entity `entity_id`; with
/// `replace_existing` its former claims are cleared first, otherwise the
/// claims are added.
pub fn update_request(entity_id: &str, claims: Vec<Option<Claim>>, replace_existing: bool) -> (r:
    EditRequest)
    ensures
        r.target is Existing,
        r.target->Existing_0@ == entity_id@,
        r.label is None,
        r.claims@ == somes(claims@),
        r.clear == replace_existing,
{
    EditRequest {
        target: EditTarget::Existing(entity_id.to_owned()),
        label: None,
        claims: submitted_claims(claims),
        clear: replace_existing,
    }
}

} // verus!

verus! {

/// What a claim states: a text, a link to an entity, or a coordinate, each
/// for a property.
pub enum ClaimModel {
    Text(Seq<char>, Seq<char>),
    Link(Seq<char>, Seq<char>),
    Coord(Seq<char>, i64, i64),
}

impl Claim {
    pub open spec fn model(self) -> ClaimModel {
        match self.value {
            PropertyValue::String(s) => ClaimModel::Text(self.property@, s@),
            PropertyValue::Item(s) => ClaimModel::Link(self.property@, s@),
            PropertyValue::Coord { latitude_e6, longitude_e6 } => ClaimModel::Coord(
                self.property@,
                latitude_e6,
                longitude_e6,
            ),
        }
    }
}

/// What a list of claims states.
pub open spec fn models(s: Seq<Claim>) -> Seq<ClaimModel> {
    s.map_values(|c: Claim| c.model())
}

/// What `claim_string(property, value)` states once absent claims are dropped.
pub open spec fn string_claim_model(property: Seq<char>, value: Seq<char>) -> Seq<ClaimModel> {
    if trimmed(value).len() == 0 {
        Seq::empty()
    } else {
        seq![ClaimModel::Text(property, trimmed(value))]
    }
}

/// What an optional claim states.
pub open spec fn opt_model(c: Option<Claim>) -> Seq<ClaimModel> {
    match c {
        Some(x) => seq![x.model()],
        None => Seq::empty(),
    }
}

/// What the present claims of a list state.
pub proof fn lemma_models_somes(s: Seq<Option<Claim>>)
    ensures
        models(somes(s)) == (if s.len() == 0 {
            Seq::<ClaimModel>::empty()
        } else {
            opt_model(s[0]) + models(somes(s.drop_first()))
        }),
{
    if s.len() > 0 {
        match s[0] {
            Some(c) => {
                assert(models(seq![c] + somes(s.drop_first())) =~= seq![c.model()] + models(
                    somes(s.drop_first()),
                ));
            },
            None => {
                assert(opt_model(s[0]) + models(somes(s.drop_first())) =~= models(
                    somes(s.drop_first()),
                ));
            },
        }
    } else {
        assert(models(somes(s)) =~= Seq::<ClaimModel>::empty());
    }
}

} // verus!
