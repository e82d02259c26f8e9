//! The entities an import writes: data sources, routes and stops.
use vstd::prelude::*;
use vstd::string::*;
use crate::bridge::now_text;
use crate::claims::{
    Claim, ClaimModel, EditRequest, EditTarget, ObjectType, claim_item, claim_string,
    create_request, lemma_models_somes, models, opt_model, somes, string_claim_model,
    update_request,
};
use crate::known_entities::{EntitiesId, LocationType, RouteType};

verus! {

/// A route of the feed, as the import reads it.
#[derive(Debug, Clone)]
pub struct FeedRoute {
    pub id: String,
    pub short_name: String,
    pub long_name: String,
    pub route_type: RouteType,
}

/// A stop of the feed, as the import reads it.
#[derive(Debug, Clone)]
pub struct FeedStop {
    pub id: String,
    pub name: String,
    pub location_type: LocationType,
    pub parent_station: Option<String>,
}

/// A trip of the feed: its route and the stops its stop times visit.
#[derive(Debug, Clone)]
pub struct FeedTrip {
    pub route_id: String,
    pub stop_ids: Vec<String>,
}

/// Format label of the imported files.
pub const FILE_FORMAT: &'static str = "GTFS";

/// The name a route is known by: its long name, or its short name when the
/// long one is empty.
pub open spec fn preferred_name(route: FeedRoute) -> Seq<char> {
    if route.long_name@.len() > 0 {
        route.long_name@
    } else {
        route.short_name@
    }
}

/// Label of a route entity: mode, name and producer.
pub open spec fn route_label_spec(route: FeedRoute, producer_name: Seq<char>) -> Seq<char> {
    route.route_type.name_spec() + " "@ + preferred_name(route) + " ("@ + producer_name + ")"@
}

pub fn route_label(route: &FeedRoute, producer_name: &str) -> (r: String)
    ensures
        r@ == route_label_spec(*route, producer_name@),
{
    let mut s = route.route_type.name().to_owned();
    s.append(" ");
    if route.long_name.as_str().is_empty() {
        s.append(route.short_name.as_str());
    } else {
        s.append(route.long_name.as_str());
    }
    s.append(" (");
    s.append(producer_name);
    s.append(")");
    s
}

/// What a new route entity states: it is a route, its feed identifier, its
/// data source, its names (when not blank) and its physical mode.
pub open spec fn route_claims_spec(e: EntitiesId, route: FeedRoute, data_source_id: Seq<char>) -> Seq<
    ClaimModel,
> {
    seq![ClaimModel::Link(e.properties.instance_of@, e.items.route@)] + string_claim_model(
        e.properties.gtfs_id@,
        route.id@,
    ) + seq![ClaimModel::Link(e.properties.data_source@, data_source_id)] + string_claim_model(
        e.properties.gtfs_short_name@,
        route.short_name@,
    ) + string_claim_model(e.properties.gtfs_long_name@, route.long_name@) + seq![
        ClaimModel::Link(e.properties.has_physical_mode@, e.physical_mode_spec(route.route_type)),
    ]
}

proof fn lemma_models_of_six(s: Seq<Option<Claim>>)
    requires
        s.len() == 6,
    ensures
        models(somes(s)) == opt_model(s[0]) + opt_model(s[1]) + opt_model(s[2]) + opt_model(s[3])
            + opt_model(s[4]) + opt_model(s[5]),
{
    let s1 = s.drop_first();
    let s2 = s1.drop_first();
    let s3 = s2.drop_first();
    let s4 = s3.drop_first();
    let s5 = s4.drop_first();
    let s6 = s5.drop_first();
    lemma_models_somes(s);
    lemma_models_somes(s1);
    lemma_models_somes(s2);
    lemma_models_somes(s3);
    lemma_models_somes(s4);
    lemma_models_somes(s5);
    lemma_models_somes(s6);
    assert(models(somes(s)) =~= opt_model(s[0]) + opt_model(s[1]) + opt_model(s[2]) + opt_model(
        s[3],
    ) + opt_model(s[4]) + opt_model(s[5]));
}

/// The string claim's model, from the contract of `claim_string`.
pub proof fn lemma_string_claim(c: Option<Claim>, property: Seq<char>, value: Seq<char>)
    requires
        c is None <==> crate::bridge::trimmed(value).len() == 0,
        c is Some ==> crate::claims::is_string_claim(c.unwrap(), property, crate::bridge::trimmed(value)),
    ensures
        opt_model(c) == string_claim_model(property, value),
{
}

/// The request creating the entity of a feed route, labelled with its mode,
/// name and producer.
pub fn insert_route(e: &EntitiesId, route: &FeedRoute, data_source_id: &str, producer_name: &str) -> (r:
    EditRequest)
    ensures
        r.target == EditTarget::New(ObjectType::Item),
        r.label is Some,
        r.label.unwrap()@ == route_label_spec(*route, producer_name@),
        models(r.claims@) == route_claims_spec(*e, *route, data_source_id@),
        !r.clear,
{
    let label = route_label(route, producer_name);
    let c0 = claim_item(e.properties.instance_of.as_str(), e.items.route.as_str());
    let c1 = claim_string(e.properties.gtfs_id.as_str(), route.id.as_str());
    let c2 = claim_item(e.properties.data_source.as_str(), data_source_id);
    let c3 = claim_string(e.properties.gtfs_short_name.as_str(), route.short_name.as_str());
    let c4 = claim_string(e.properties.gtfs_long_name.as_str(), route.long_name.as_str());
    let c5 = claim_item(e.properties.has_physical_mode.as_str(), e.physical_mode(route.route_type));
    proof {
        lemma_string_claim(c1, e.properties.gtfs_id@, route.id@);
        lemma_string_claim(c3, e.properties.gtfs_short_name@, route.short_name@);
        lemma_string_claim(c4, e.properties.gtfs_long_name@, route.long_name@);
    }
    let claims = vec![c0, c1, c2, c3, c4, c5];
    proof {
        lemma_models_of_six(claims@);
        assert(opt_model(c0) =~= seq![ClaimModel::Link(e.properties.instance_of@, e.items.route@)]);
        assert(opt_model(c2) =~= seq![ClaimModel::Link(e.properties.data_source@, data_source_id@)]);
        assert(opt_model(c5) =~= seq![ClaimModel::Link(e.properties.has_physical_mode@, e.physical_mode_spec(route.route_type))]);
    }
    create_request(ObjectType::Item, label.as_str(), claims)
}


proof fn lemma_models_of_four(s: Seq<Option<Claim>>)
    requires
        s.len() == 4,
    ensures
        models(somes(s)) == opt_model(s[0]) + opt_model(s[1]) + opt_model(s[2]) + opt_model(s[3]),
{
    let s1 = s.drop_first();
    let s2 = s1.drop_first();
    let s3 = s2.drop_first();
    let s4 = s3.drop_first();
    lemma_models_somes(s);
    lemma_models_somes(s1);
    lemma_models_somes(s2);
    lemma_models_somes(s3);
    lemma_models_somes(s4);
    assert(models(somes(s)) =~= opt_model(s[0]) + opt_model(s[1]) + opt_model(s[2]) + opt_model(
        s[3],
    ));
}

proof fn lemma_models_of_five(s: Seq<Option<Claim>>)
    requires
        s.len() == 5,
    ensures
        models(somes(s)) == opt_model(s[0]) + opt_model(s[1]) + opt_model(s[2]) + opt_model(s[3])
            + opt_model(s[4]),
{
    lemma_models_somes(s);
    lemma_models_of_four(s.drop_first());
    assert(models(somes(s)) =~= opt_model(s[0]) + opt_model(s[1]) + opt_model(s[2]) + opt_model(
        s[3],
    ) + opt_model(s[4]));
}

/// What a stop entity states: its kind, its feed identifier, its data source
/// and its name (when not blank).
pub open spec fn stop_claims_spec(e: EntitiesId, stop: FeedStop, data_source_id: Seq<char>) -> Seq<
    ClaimModel,
> {
    seq![ClaimModel::Link(e.properties.instance_of@, e.location_type_spec(stop.location_type))]
        + string_claim_model(e.properties.gtfs_id@, stop.id@) + seq![
        ClaimModel::Link(e.properties.data_source@, data_source_id),
    ] + string_claim_model(e.properties.gtfs_name@, stop.name@)
}

fn stop_claims(e: &EntitiesId, stop: &FeedStop, data_source_id: &str) -> (r: Vec<Option<Claim>>)
    ensures
        models(somes(r@)) == stop_claims_spec(*e, *stop, data_source_id@),
{
    let c0 = claim_item(e.properties.instance_of.as_str(), e.location_type(stop.location_type));
    let c1 = claim_string(e.properties.gtfs_id.as_str(), stop.id.as_str());
    let c2 = claim_item(e.properties.data_source.as_str(), data_source_id);
    let c3 = claim_string(e.properties.gtfs_name.as_str(), stop.name.as_str());
    proof {
        lemma_string_claim(c1, e.properties.gtfs_id@, stop.id@);
        lemma_string_claim(c3, e.properties.gtfs_name@, stop.name@);
    }
    let claims = vec![c0, c1, c2, c3];
    proof {
        lemma_models_of_four(claims@);
        assert(opt_model(c0) =~= seq![ClaimModel::Link(e.properties.instance_of@, e.location_type_spec(stop.location_type))]);
        assert(opt_model(c2) =~= seq![ClaimModel::Link(e.properties.data_source@, data_source_id@)]);
    }
    claims
}

/// The request creating the entity of a feed stop, labelled with its name.
pub fn insert_stop(e: &EntitiesId, stop: &FeedStop, data_source_id: &str) -> (r: EditRequest)
    ensures
        r.target == EditTarget::New(ObjectType::Item),
        r.label is Some,
        r.label.unwrap()@ == stop.name@,
        models(r.claims@) == stop_claims_spec(*e, *stop, data_source_id@),
        !r.clear,
{
    let claims = stop_claims(e, stop, data_source_id);
    create_request(ObjectType::Item, stop.name.as_str(), claims)
}

/// The request refreshing the entity `stop_id` of a feed stop: its former
/// claims are cleared and those of a new stop entity written.
pub fn update_stop(e: &EntitiesId, stop_id: &str, stop: &FeedStop, data_source_id: &str) -> (r:
    EditRequest)
    ensures
        r.target is Existing,
        r.target->Existing_0@ == stop_id@,
        r.label is None,
        models(r.claims@) == stop_claims_spec(*e, *stop, data_source_id@),
        r.clear,
{
    let claims = stop_claims(e, stop, data_source_id);
    update_request(stop_id, claims, true)
}

/// Label of the data source of an import by `producer` at `imported_at`.
pub open spec fn data_source_label(producer: Seq<char>, imported_at: Seq<char>) -> Seq<char> {
    "Data source for "@ + producer + " - imported "@ + imported_at
}

/// What a data source states: its producer, the file's path, its format, the
/// tool's version and, when known, the file's checksum (blank texts left out).
pub open spec fn data_source_claims_spec(
    e: EntitiesId,
    sha_256: Option<Seq<char>>,
    producer: Seq<char>,
    path: Seq<char>,
    tool_version: Seq<char>,
) -> Seq<ClaimModel> {
    seq![ClaimModel::Link(e.properties.produced_by@, producer)] + string_claim_model(
        e.properties.source@,
        path,
    ) + string_claim_model(e.properties.file_format@, FILE_FORMAT@) + string_claim_model(
        e.properties.tool_version@,
        tool_version,
    ) + match sha_256 {
        Some(h) => string_claim_model(e.properties.sha_256@, h),
        None => Seq::empty(),
    }
}

/// The request creating the data source of one import, made at `imported_at`.
pub fn data_source_request(
    e: &EntitiesId,
    sha_256: &Option<String>,
    producer: &str,
    path: &str,
    tool_version: &str,
    imported_at: &str,
) -> (r: EditRequest)
    ensures
        r.target == EditTarget::New(ObjectType::Item),
        r.label is Some,
        r.label.unwrap()@ == data_source_label(producer@, imported_at@),
        models(r.claims@) == data_source_claims_spec(
            *e,
            crate::bridge::opt_view(*sha_256),
            producer@,
            path@,
            tool_version@,
        ),
        !r.clear,
{
    let mut label = "Data source for ".to_owned();
    label.append(producer);
    label.append(" - imported ");
    label.append(imported_at);
    let c0 = claim_item(e.properties.produced_by.as_str(), producer);
    let c1 = claim_string(e.properties.source.as_str(), path);
    let c2 = claim_string(e.properties.file_format.as_str(), FILE_FORMAT);
    let c3 = claim_string(e.properties.tool_version.as_str(), tool_version);
    let c4 = match sha_256 {
        Some(h) => claim_string(e.properties.sha_256.as_str(), h.as_str()),
        None => None,
    };
    proof {
        lemma_string_claim(c1, e.properties.source@, path@);
        lemma_string_claim(c2, e.properties.file_format@, FILE_FORMAT@);
        lemma_string_claim(c3, e.properties.tool_version@, tool_version@);
        match sha_256 {
            Some(h) => lemma_string_claim(c4, e.properties.sha_256@, h@),
            None => {},
        }
    }
    let claims = vec![c0, c1, c2, c3, c4];
    proof {
        lemma_models_of_five(claims@);
        assert(opt_model(c0) =~= seq![ClaimModel::Link(e.properties.produced_by@, producer@)]);
    }
    create_request(ObjectType::Item, label.as_str(), claims)
}

/// The request creating the data source of an import made now. Every import
/// creates a data source of its own, also when the same file was imported
/// before.
pub fn insert_data_source(
    e: &EntitiesId,
    sha_256: &Option<String>,
    producer: &str,
    path: &str,
    tool_version: &str,
) -> (r: EditRequest)
    ensures
        r.target == EditTarget::New(ObjectType::Item),
        r.label is Some,
        exists|t: Seq<char>| r.label.unwrap()@ == data_source_label(producer@, t),
        models(r.claims@) == data_source_claims_spec(
            *e,
            crate::bridge::opt_view(*sha_256),
            producer@,
            path@,
            tool_version@,
        ),
        !r.clear,
{
    let now = now_text();
    data_source_request(e, sha_256, producer, path, tool_version, now.as_str())
}

} // verus!
