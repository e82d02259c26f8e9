//! Import orchestration: what to do with each feed route and stop once the
//! store has been searched, and which relations to write afterwards.
use vstd::prelude::*;
use vstd::string::*;
use crate::bridge::opt_view;
use crate::claims::{ClaimModel, EditRequest, claim_item, models, update_request};
use crate::ids::last_segment;
use crate::known_entities::EntitiesId;
use crate::sparql::{QueryError, Row, select_query, single_match, single_match_spec, route_query, stop_query};
use crate::text::{find_value, lookup, same_text, views};
use crate::writer::{
    FeedRoute, FeedStop, FeedTrip, insert_route, insert_stop, route_claims_spec, route_label_spec,
    stop_claims_spec, update_stop,
};

verus! {

/// Store identifiers of feed entities, by feed identifier.
#[derive(Debug, Clone)]
pub struct IdMapping {
    pub feed_ids: Vec<String>,
    pub store_ids: Vec<String>,
}

impl IdMapping {
    pub open spec fn wf(self) -> bool {
        self.feed_ids.len() == self.store_ids.len()
    }

    /// The store identifier recorded for `feed_id`.
    pub open spec fn get_spec(self, feed_id: Seq<char>) -> Option<Seq<char>> {
        lookup(views(self.feed_ids@), views(self.store_ids@), feed_id)
    }

    pub fn new() -> (r: IdMapping)
        ensures
            r.wf(),
            forall|k: Seq<char>| r.get_spec(k) is None,
    {
        IdMapping { feed_ids: Vec::new(), store_ids: Vec::new() }
    }

    pub fn get(&self, feed_id: &str) -> (r: Option<String>)
        ensures
            opt_view(r) == self.get_spec(feed_id@),
    {
        find_value(&self.feed_ids, &self.store_ids, feed_id)
    }

    /// Records `store_id` for `feed_id`; a feed identifier recorded before keeps
    /// its first store identifier.
    pub fn insert(&mut self, feed_id: String, store_id: String)
        requires
            old(self).wf(),
        ensures
            final(self).wf(),
            forall|k: Seq<char>|
                #![trigger final(self).get_spec(k)]
                final(self).get_spec(k) == (if old(self).get_spec(k) is Some {
                    old(self).get_spec(k)
                } else if k == feed_id@ {
                    Some(store_id@)
                } else {
                    None
                }),
    {
        let ghost k0 = views(self.feed_ids@);
        let ghost v0 = views(self.store_ids@);
        let ghost fk = feed_id@;
        let ghost sv = store_id@;
        self.feed_ids.push(feed_id);
        self.store_ids.push(store_id);
        proof {
            assert(views(self.feed_ids@) =~= k0.push(fk));
            assert(views(self.store_ids@) =~= v0.push(sv));
            assert forall|k: Seq<char>| #[trigger] lookup(k0.push(fk), v0.push(sv), k) == (if lookup(
                k0,
                v0,
                k,
            ) is Some {
                lookup(k0, v0, k)
            } else if k == fk {
                Some(sv)
            } else {
                None
            }) by {
                lemma_lookup_push(k0, v0, fk, sv, k);
            }
        }
    }
}

proof fn lemma_lookup_push(
    keys: Seq<Seq<char>>,
    vals: Seq<Seq<char>>,
    k: Seq<char>,
    v: Seq<char>,
    x: Seq<char>,
)
    requires
        keys.len() == vals.len(),
    ensures
        lookup(keys.push(k), vals.push(v), x) == (if lookup(keys, vals, x) is Some {
            lookup(keys, vals, x)
        } else if x == k {
            Some(v)
        } else {
            None
        }),
    decreases keys.len(),
{
    if keys.len() > 0 {
        assert(keys.push(k).drop_first() =~= keys.drop_first().push(k));
        assert(vals.push(v).drop_first() =~= vals.drop_first().push(v));
        assert(keys.push(k)[0] == keys[0]);
        assert(vals.push(v)[0] == vals[0]);
        lemma_lookup_push(keys.drop_first(), vals.drop_first(), k, v, x);
    } else {
        assert(keys.push(k).drop_first() =~= Seq::<Seq<char>>::empty());
        assert(vals.push(v).drop_first() =~= Seq::<Seq<char>>::empty());
        assert(keys.push(k)[0] == k);
        assert(vals.push(v)[0] == v);
        assert(lookup(Seq::<Seq<char>>::empty(), Seq::<Seq<char>>::empty(), x) is None);
        assert(lookup(keys, vals, x) is None);
    }
}

/// What to do with a feed route after the search for it.
#[derive(Debug, Clone)]
pub enum RouteAction {
    /// No entity found: create one with this request.
    Create(EditRequest),
    /// One entity found: keep it as it is.
    Reuse(String),
}

/// What to do with a feed stop after the search for it.
#[derive(Debug, Clone)]
pub enum StopAction {
    /// No entity found: create one with this request.
    Create(EditRequest),
    /// One entity found: keep it as it is.
    Skip(String),
    /// One entity found: refresh its claims with this request.
    Update(String, EditRequest),
}

/// The variables a route search projects.
pub fn route_search_vars() -> (r: Vec<String>)
    ensures
        views(r@) == seq!["?route"@, "?routeLabel"@, "?gtfs_id"@],
{
    let r = vec!["?route".to_owned(), "?routeLabel".to_owned(), "?gtfs_id".to_owned()];
    assert(views(r@) =~= seq!["?route"@, "?routeLabel"@, "?gtfs_id"@]);
    r
}

/// The variables a stop search projects.
pub fn stop_search_vars() -> (r: Vec<String>)
    ensures
        views(r@) == seq!["?stop"@, "?stopLabel"@, "?stopName"@, "?gtfs_id"@],
{
    let r = vec![
        "?stop".to_owned(),
        "?stopLabel".to_owned(),
        "?stopName".to_owned(),
        "?gtfs_id".to_owned(),
    ];
    assert(views(r@) =~= seq!["?stop"@, "?stopLabel"@, "?stopName"@, "?gtfs_id"@]);
    r
}

/// The query searching the route entity of the producer with a feed identifier.
pub fn find_route_query(e: &EntitiesId, producer_id: &str, gtfs_id: &str) -> (r: String)
    ensures
        r@ == crate::sparql::select_text(
            seq!["?route"@, "?routeLabel"@, "?gtfs_id"@],
            crate::sparql::route_pattern(*e, producer_id@, gtfs_id@),
        ),
{
    let vars = route_search_vars();
    let pattern = route_query(e, producer_id, gtfs_id);
    select_query(&vars, pattern.as_str())
}

/// The query searching the stop entity of the producer for a feed stop.
pub fn find_stop_query(e: &EntitiesId, producer_id: &str, stop: &FeedStop) -> (r: String)
    ensures
        r@ == crate::sparql::select_text(
            seq!["?stop"@, "?stopLabel"@, "?stopName"@, "?gtfs_id"@],
            crate::sparql::stop_pattern(*e, producer_id@, stop.id@, stop.location_type),
        ),
{
    let vars = stop_search_vars();
    let pattern = stop_query(e, producer_id, stop.id.as_str(), stop.location_type);
    select_query(&vars, pattern.as_str())
}

/// The text of the error for an entity found several times.
pub open spec fn duplicate_text(kind: Seq<char>, gtfs_id: Seq<char>) -> Seq<char> {
    kind + " "@ + gtfs_id + " exists many times. Something is not right"@
}

fn duplicate_message(kind: &str, gtfs_id: &str) -> (r: String)
    ensures
        r@ == duplicate_text(kind@, gtfs_id@),
{
    let mut s = kind.to_owned();
    s.append(" ");
    s.append(gtfs_id);
    s.append(" exists many times. Something is not right");
    s
}

/// The search for a route found nothing, so the route entity is created.
pub open spec fn creates_route(rows: Seq<Row>) -> bool {
    single_match_spec(rows, "route"@) == Some(None::<Seq<char>>)
}

/// The search for a stop found nothing, so the stop entity is created.
pub open spec fn creates_stop(rows: Seq<Row>) -> bool {
    single_match_spec(rows, "stop"@) == Some(None::<Seq<char>>)
}

/// Decides on a feed route from the rows of its search: none found gives the
/// creation of a route entity, one found is kept, several are the error
/// `Duplicate`.
pub fn route_action(
    e: &EntitiesId,
    route: &FeedRoute,
    rows: &Vec<Row>,
    data_source_id: &str,
    producer_name: &str,
) -> (r: Result<RouteAction, QueryError>)
    ensures
        (r is Ok && r->Ok_0 is Create) <==> creates_route(rows@),
        match single_match_spec(rows@, "route"@) {
            None => r is Err && r->Err_0 is Duplicate && r->Err_0->Duplicate_0@ == duplicate_text(
                "Route"@,
                route.id@,
            ),
            Some(Some(id)) => r is Ok && r->Ok_0 is Reuse && r->Ok_0->Reuse_0@ == id,
            Some(None) => r is Ok && r->Ok_0 is Create && {
                let req = r->Ok_0->Create_0;
                &&& req.target == crate::claims::EditTarget::New(crate::claims::ObjectType::Item)
                &&& req.label is Some
                &&& req.label.unwrap()@ == route_label_spec(*route, producer_name@)
                &&& models(req.claims@) == route_claims_spec(*e, *route, data_source_id@)
                &&& !req.clear
            },
        },
{
    let what = duplicate_message("Route", route.id.as_str());
    match single_match(rows, "route", what.as_str()) {
        Err(err) => Err(err),
        Ok(None) => Ok(RouteAction::Create(insert_route(e, route, data_source_id, producer_name))),
        Ok(Some(id)) => Ok(RouteAction::Reuse(id)),
    }
}

/// Decides on a feed stop from the rows of its search: none found gives the
/// creation of a stop entity; one found is kept, or refreshed when
/// `override_existing` is set; several are the error `Duplicate`.
pub fn stop_action(
    e: &EntitiesId,
    stop: &FeedStop,
    rows: &Vec<Row>,
    data_source_id: &str,
    override_existing: bool,
) -> (r: Result<StopAction, QueryError>)
    ensures
        (r is Ok && r->Ok_0 is Create) <==> creates_stop(rows@),
        match single_match_spec(rows@, "stop"@) {
            None => r is Err && r->Err_0 is Duplicate && r->Err_0->Duplicate_0@ == duplicate_text(
                "Stop"@,
                stop.id@,
            ),
            Some(Some(id)) => r is Ok && if override_existing {
                r->Ok_0 is Update && r->Ok_0->Update_0@ == id && {
                    let req = r->Ok_0->Update_1;
                    &&& req.target is Existing
                    &&& req.target->Existing_0@ == id
                    &&& models(req.claims@) == stop_claims_spec(*e, *stop, data_source_id@)
                    &&& req.clear
                }
            } else {
                r->Ok_0 is Skip && r->Ok_0->Skip_0@ == id
            },
            Some(None) => r is Ok && r->Ok_0 is Create && {
                let req = r->Ok_0->Create_0;
                &&& req.target == crate::claims::EditTarget::New(crate::claims::ObjectType::Item)
                &&& req.label is Some
                &&& req.label.unwrap()@ == stop.name@
                &&& models(req.claims@) == stop_claims_spec(*e, *stop, data_source_id@)
                &&& !req.clear
            },
        },
{
    let what = duplicate_message("Stop", stop.id.as_str());
    match single_match(rows, "stop", what.as_str()) {
        Err(err) => Err(err),
        Ok(None) => Ok(StopAction::Create(insert_stop(e, stop, data_source_id))),
        Ok(Some(id)) => if override_existing {
            let req = update_stop(e, id.as_str(), stop, data_source_id);
            Ok(StopAction::Update(id, req))
        } else {
            Ok(StopAction::Skip(id))
        },
    }
}

/// A `part_of` relation to write, between store identifiers: from a stop to
/// its parent station, or from a stop to a route that serves it.
#[derive(Debug, Clone)]
pub struct Link {
    pub from: String,
    pub to: String,
}

/// `links` holds a relation from `from` to `to`.
pub open spec fn has_link(links: Seq<Link>, from: Seq<char>, to: Seq<char>) -> bool {
    exists|j: int| 0 <= j < links.len() && #[trigger] links[j].from@ == from && links[j].to@ == to
}

proof fn lemma_has_link_push(links: Seq<Link>, l: Link, from: Seq<char>, to: Seq<char>)
    requires
        has_link(links, from, to),
    ensures
        has_link(links.push(l), from, to),
{
    let j = choose|j: int| 0 <= j < links.len() && #[trigger] links[j].from@ == from && links[j].to@ == to;
    assert(links.push(l)[j] == links[j]);
}

/// Whether `links` holds a relation from `from` to `to`.
pub fn contains_link(links: &Vec<Link>, from: &str, to: &str) -> (r: bool)
    ensures
        r == has_link(links@, from@, to@),
{
    let mut i: usize = 0;
    while i < links.len()
        invariant
            i <= links.len(),
            forall|j: int| 0 <= j < i ==> !(#[trigger] links@[j].from@ == from@ && links@[j].to@ == to@),
        decreases links.len() - i,
    {
        if same_text(links[i].from.as_str(), from) && same_text(links[i].to.as_str(), to) {
            return true;
        }
        i = i + 1;
    }
    false
}

/// The stop `k` of `stops` has a parent station, and both have store
/// identifiers: `child` and `parent`.
pub open spec fn parent_pair(
    stops: Seq<FeedStop>,
    mapping: IdMapping,
    k: int,
    child: Seq<char>,
    parent: Seq<char>,
) -> bool {
    &&& 0 <= k < stops.len()
    &&& stops[k].parent_station is Some
    &&& mapping.get_spec(stops[k].parent_station.unwrap()@) == Some(parent)
    &&& mapping.get_spec(stops[k].id@) == Some(child)
}

/// `l` relates a stop of `stops` to its parent station.
pub open spec fn from_parent(stops: Seq<FeedStop>, mapping: IdMapping, l: Link) -> bool {
    exists|k: int| #[trigger] parent_pair(stops, mapping, k, l.from@, l.to@)
}

/// The containment relations of the feed: for each stop with a parent station,
/// from the stop's entity to the station's, when both are known. Stops whose
/// own or parent entity is unknown are left out.
pub fn insert_stop_relations(stops: &Vec<FeedStop>, mapping: &IdMapping) -> (r: Vec<Link>)
    ensures
        r@.len() <= stops@.len(),
        forall|k: int, child: Seq<char>, parent: Seq<char>|
            #[trigger] parent_pair(stops@, *mapping, k, child, parent) ==> has_link(r@, child, parent),
        forall|j: int| 0 <= j < r@.len() ==> #[trigger] from_parent(stops@, *mapping, r@[j]),
{
    let mut out: Vec<Link> = Vec::new();
    let mut i: usize = 0;
    while i < stops.len()
        invariant
            i <= stops.len(),
            out@.len() <= i,
            forall|k: int, child: Seq<char>, parent: Seq<char>|
                #[trigger] parent_pair(stops@, *mapping, k, child, parent) && k < i ==> has_link(
                    out@,
                    child,
                    parent,
                ),
            forall|j: int| 0 <= j < out@.len() ==> #[trigger] from_parent(stops@, *mapping, out@[j]),
        decreases stops.len() - i,
    {
        let stop = &stops[i];
        if let Some(parent_id) = &stop.parent_station {
            let parent = mapping.get(parent_id.as_str());
            let child = mapping.get(stop.id.as_str());
            if let (Some(p), Some(c)) = (parent, child) {
                let ghost before = out@;
                let l = Link { from: c, to: p };
                let ghost lv = l;
                out.push(l);
                proof {
                    assert(parent_pair(stops@, *mapping, i as int, lv.from@, lv.to@));
                    assert forall|k: int, ch: Seq<char>, pa: Seq<char>|
                        #[trigger] parent_pair(stops@, *mapping, k, ch, pa) && k < i + 1 implies has_link(
                            out@,
                            ch,
                            pa,
                        ) by {
                        if k < i {
                            lemma_has_link_push(before, lv, ch, pa);
                        } else {
                            assert(out@[before.len() as int] == lv);
                        }
                    }
                    assert forall|j: int| 0 <= j < out@.len() implies #[trigger] from_parent(stops@, *mapping, out@[j]) by {
                        if j < before.len() {
                            assert(out@[j] == before[j]);
                        } else {
                            assert(parent_pair(stops@, *mapping, i as int, out@[j].from@, out@[j].to@));
                        }
                    }
                }
            }
        }
        i = i + 1;
    }
    out
}

/// Stop `s` of trip `t` has the store identifier `stop`, and the trip's
/// route has the store identifier `route`.
pub open spec fn served_pair(
    trips: Seq<FeedTrip>,
    stop_mapping: IdMapping,
    route_mapping: IdMapping,
    t: int,
    s: int,
    stop: Seq<char>,
    route: Seq<char>,
) -> bool {
    &&& 0 <= t < trips.len()
    &&& 0 <= s < trips[t].stop_ids@.len()
    &&& route_mapping.get_spec(trips[t].route_id@) == Some(route)
    &&& stop_mapping.get_spec(trips[t].stop_ids@[s]@) == Some(stop)
}

/// `l` relates a stop visited by a trip of `trips` to the trip's route.
pub open spec fn from_trip(
    trips: Seq<FeedTrip>,
    stop_mapping: IdMapping,
    route_mapping: IdMapping,
    l: Link,
) -> bool {
    exists|t: int, s: int| #[trigger]
        served_pair(trips, stop_mapping, route_mapping, t, s, l.from@, l.to@)
}

/// No relation appears twice.
pub open spec fn distinct_links(links: Seq<Link>) -> bool {
    forall|i: int, j: int|
        #![trigger links[i], links[j]]
        0 <= i < j < links.len() ==> !(links[i].from@ == links[j].from@ && links[i].to@
            == links[j].to@)
}

/// The service relations of the feed: once for each stop visited by a trip
/// of a route, from the stop's entity to the route's, when both are known.
/// Stops or routes whose entity is unknown are left out.
pub fn insert_stop_route_relations(
    trips: &Vec<FeedTrip>,
    stop_mapping: &IdMapping,
    route_mapping: &IdMapping,
) -> (r: Vec<Link>)
    ensures
        distinct_links(r@),
        forall|t: int, s: int, stop: Seq<char>, route: Seq<char>|
            #[trigger] served_pair(trips@, *stop_mapping, *route_mapping, t, s, stop, route)
                ==> has_link(r@, stop, route),
        forall|j: int| 0 <= j < r@.len() ==> #[trigger] from_trip(trips@, *stop_mapping, *route_mapping, r@[j]),
{
    let mut out: Vec<Link> = Vec::new();
    let mut t: usize = 0;
    while t < trips.len()
        invariant
            t <= trips.len(),
            distinct_links(out@),
            forall|t2: int, s: int, stop: Seq<char>, route: Seq<char>|
                #[trigger] served_pair(trips@, *stop_mapping, *route_mapping, t2, s, stop, route)
                    && t2 < t ==> has_link(out@, stop, route),
            forall|j: int| 0 <= j < out@.len() ==> #[trigger] from_trip(trips@, *stop_mapping, *route_mapping, out@[j]),
        decreases trips.len() - t,
    {
        let trip = &trips[t];
        match route_mapping.get(trip.route_id.as_str()) {
            None => {
                assert forall|t2: int, s: int, stop: Seq<char>, route: Seq<char>|
                    #[trigger] served_pair(trips@, *stop_mapping, *route_mapping, t2, s, stop, route)
                        && t2 < t + 1 implies has_link(out@, stop, route) by {
                    if t2 == t {
                        assert(false);
                    }
                }
            },
            Some(route_id) => {
                let mut s: usize = 0;
                while s < trip.stop_ids.len()
                    invariant
                        t < trips.len(),
                        *trip == trips@[t as int],
                        route_mapping.get_spec(trip.route_id@) == Some(route_id@),
                        s <= trip.stop_ids.len(),
                        distinct_links(out@),
                        forall|t2: int, s2: int, stop: Seq<char>, route: Seq<char>|
                            #[trigger] served_pair(trips@, *stop_mapping, *route_mapping, t2, s2, stop, route)
                                && (t2 < t || (t2 == t && s2 < s)) ==> has_link(out@, stop, route),
                        forall|j: int| 0 <= j < out@.len() ==> #[trigger] from_trip(trips@, *stop_mapping, *route_mapping, out@[j]),
                    decreases trip.stop_ids.len() - s,
                {
                    match stop_mapping.get(trip.stop_ids[s].as_str()) {
                        None => {
                            assert forall|t2: int, s2: int, stop: Seq<char>, route: Seq<char>|
                                #[trigger] served_pair(trips@, *stop_mapping, *route_mapping, t2, s2, stop, route)
                                    && (t2 < t || (t2 == t && s2 < s + 1)) implies has_link(out@, stop, route) by {
                                if t2 == t && s2 == s {
                                    assert(false);
                                }
                            }
                        },
                        Some(stop_id) => {
                            if contains_link(&out, stop_id.as_str(), route_id.as_str()) {
                                assert forall|t2: int, s2: int, stop: Seq<char>, route: Seq<char>|
                                    #[trigger] served_pair(trips@, *stop_mapping, *route_mapping, t2, s2, stop, route)
                                        && (t2 < t || (t2 == t && s2 < s + 1)) implies has_link(out@, stop, route) by {
                                }
                            } else {
                                let ghost before = out@;
                                let l = Link { from: stop_id, to: route_id.clone() };
                                let ghost lv = l;
                                out.push(l);
                                proof {
                                    assert(served_pair(trips@, *stop_mapping, *route_mapping, t as int, s as int, lv.from@, lv.to@));
                                    assert(out@[before.len() as int] == lv);
                                    assert forall|t2: int, s2: int, stop: Seq<char>, route: Seq<char>|
                                        #[trigger] served_pair(trips@, *stop_mapping, *route_mapping, t2, s2, stop, route)
                                            && (t2 < t || (t2 == t && s2 < s + 1)) implies has_link(out@, stop, route) by {
                                        if t2 < t || (t2 == t && s2 < s) {
                                            lemma_has_link_push(before, lv, stop, route);
                                        }
                                    }
                                    assert forall|j: int| 0 <= j < out@.len() implies #[trigger] from_trip(trips@, *stop_mapping, *route_mapping, out@[j]) by {
                                        if j < before.len() {
                                            assert(out@[j] == before[j]);
                                        } else {
                                            assert(served_pair(trips@, *stop_mapping, *route_mapping, t as int, s as int, out@[j].from@, out@[j].to@));
                                        }
                                    }
                                    assert forall|i: int, j: int| #![trigger out@[i], out@[j]] 0 <= i < j < out@.len() implies !(out@[i].from@ == out@[j].from@
                                        && out@[i].to@ == out@[j].to@) by {
                                        if j == before.len() {
                                            assert(out@[i] == before[i]);
                                            if out@[i].from@ == out@[j].from@ && out@[i].to@ == out@[j].to@ {
                                                assert(has_link(before, lv.from@, lv.to@));
                                            }
                                        } else {
                                            assert(out@[i] == before[i]);
                                            assert(out@[j] == before[j]);
                                        }
                                    }
                                }
                            }
                        },
                    }
                    s = s + 1;
                }
            },
        }
        t = t + 1;
    }
    out
}

/// The request writing one relation: a `part_of` claim on the entity the
/// relation starts from, added to its other claims.
pub fn part_of_request(e: &EntitiesId, link: &Link) -> (r: EditRequest)
    ensures
        r.target is Existing,
        r.target->Existing_0@ == link.from@,
        models(r.claims@) == seq![ClaimModel::Link(e.properties.part_of@, link.to@)],
        !r.clear,
{
    let c = claim_item(e.properties.part_of.as_str(), link.to.as_str());
    let claims = vec![c];
    let r = update_request(link.from.as_str(), claims, false);
    proof {
        crate::claims::lemma_models_somes(claims@);
        crate::claims::lemma_models_somes(claims@.drop_first());
        assert(models(r.claims@) =~= seq![ClaimModel::Link(e.properties.part_of@, link.to@)]);
    }
    r
}

/// Importing a feed again duplicates no route or stop. Once the store holds
/// the entity that the first import created, the search for it returns that
/// entity: the route or stop is then kept (or, for a stop in update mode,
/// refreshed in place) under the identifier the row names, and nothing is
/// created.
pub proof fn lemma_reimport_creates_no_duplicates(rows: Seq<Row>, var: Seq<char>, url: Seq<char>)
    requires
        rows.len() == 1,
        rows[0].binding(var) == Some(url),
    ensures
        single_match_spec(rows, var) == Some(Some(last_segment(url))),
        var == "route"@ ==> !creates_route(rows),
        var == "stop"@ ==> !creates_stop(rows),
{
}

} // verus!
