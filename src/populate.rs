//! Bootstrap: the schema every import needs, created when missing and found
//! again when present, so that any number of runs agree on its identifiers.
//!
//! The schema is a fixed list of elements. The marker property comes first; it
//! is found by its label. Every other element carries the marker with its
//! symbolic name. A property whose label is taken is the property that holds
//! it; an item is searched by its marker before it is created.
use vstd::prelude::*;
use vstd::string::*;
use crate::api::ApiError;
use crate::bridge::{snake_case, snake_case_of};
use crate::claims::{
    Claim, ClaimModel, EditRequest, ObjectType, PropertyDataType, claim_item, claim_string,
    create_request, lemma_models_somes, models, opt_model, somes, string_claim_model,
};
use crate::ids::last_segment;
use crate::known_entities::{EntitiesId, Items, Properties};
use crate::sparql::{QueryError, Row, select_query, select_text};
use crate::text::views;

verus! {

/// Number of schema elements.
pub const SCHEMA_LEN: usize = 33;

/// Labels of the schema elements, in creation order.
pub open spec fn schema_labels() -> Seq<Seq<char>> {
    seq!["Topo tools id"@, "GTFS id"@, "Instance of"@, "Producer"@, "Physical mode"@, "Produced by"@, "GTFS short name"@, "GTFS long name"@, "GTFS name"@, "Has physical mode"@, "First seen in"@, "Data source"@, "Source"@, "File format"@, "sha_256"@, "Tool version"@, "Part of"@, "Connecting line"@, "Coordinate location"@, "Route"@, "Tramway"@, "Subway"@, "Railway"@, "Bus"@, "Ferry"@, "Cable car"@, "Gondola"@, "Funicular"@, "Stop point"@, "Stop area"@, "Stop entrance"@, "Stop generic node"@, "Stop boarding area"@]
}

/// Label of schema element `i`.
pub open spec fn schema_label(i: int) -> Seq<char> {
    schema_labels()[i]
}

fn schema_label_exec(i: usize) -> (r: &'static str)
    requires
        i < SCHEMA_LEN,
    ensures
        r@ == schema_label(i as int),
{
    match i {
        0 => "Topo tools id",
        1 => "GTFS id",
        2 => "Instance of",
        3 => "Producer",
        4 => "Physical mode",
        5 => "Produced by",
        6 => "GTFS short name",
        7 => "GTFS long name",
        8 => "GTFS name",
        9 => "Has physical mode",
        10 => "First seen in",
        11 => "Data source",
        12 => "Source",
        13 => "File format",
        14 => "sha_256",
        15 => "Tool version",
        16 => "Part of",
        17 => "Connecting line",
        18 => "Coordinate location",
        19 => "Route",
        20 => "Tramway",
        21 => "Subway",
        22 => "Railway",
        23 => "Bus",
        24 => "Ferry",
        25 => "Cable car",
        26 => "Gondola",
        27 => "Funicular",
        28 => "Stop point",
        29 => "Stop area",
        30 => "Stop entrance",
        31 => "Stop generic node",
        32 => "Stop boarding area",
        _ => "",
    }
}

/// Kinds of the schema elements, in creation order.
pub open spec fn schema_kinds() -> Seq<ObjectType> {
    seq![ObjectType::Property(PropertyDataType::String), ObjectType::Property(PropertyDataType::String), ObjectType::Property(PropertyDataType::Item), ObjectType::Item, ObjectType::Item, ObjectType::Property(PropertyDataType::Item), ObjectType::Property(PropertyDataType::String), ObjectType::Property(PropertyDataType::String), ObjectType::Property(PropertyDataType::String), ObjectType::Property(PropertyDataType::Item), ObjectType::Property(PropertyDataType::Item), ObjectType::Property(PropertyDataType::Item), ObjectType::Property(PropertyDataType::String), ObjectType::Property(PropertyDataType::String), ObjectType::Property(PropertyDataType::String), ObjectType::Property(PropertyDataType::String), ObjectType::Property(PropertyDataType::Item), ObjectType::Property(PropertyDataType::Item), ObjectType::Property(PropertyDataType::Coord), ObjectType::Item, ObjectType::Item, ObjectType::Item, ObjectType::Item, ObjectType::Item, ObjectType::Item, ObjectType::Item, ObjectType::Item, ObjectType::Item, ObjectType::Item, ObjectType::Item, ObjectType::Item, ObjectType::Item, ObjectType::Item]
}

/// Kind of schema element `i`.
pub open spec fn schema_kind(i: int) -> ObjectType {
    schema_kinds()[i]
}

fn schema_kind_exec(i: usize) -> (r: ObjectType)
    requires
        i < SCHEMA_LEN,
    ensures
        r == schema_kind(i as int),
{
    match i {
        0 => ObjectType::Property(PropertyDataType::String),
        1 => ObjectType::Property(PropertyDataType::String),
        2 => ObjectType::Property(PropertyDataType::Item),
        3 => ObjectType::Item,
        4 => ObjectType::Item,
        5 => ObjectType::Property(PropertyDataType::Item),
        6 => ObjectType::Property(PropertyDataType::String),
        7 => ObjectType::Property(PropertyDataType::String),
        8 => ObjectType::Property(PropertyDataType::String),
        9 => ObjectType::Property(PropertyDataType::Item),
        10 => ObjectType::Property(PropertyDataType::Item),
        11 => ObjectType::Property(PropertyDataType::Item),
        12 => ObjectType::Property(PropertyDataType::String),
        13 => ObjectType::Property(PropertyDataType::String),
        14 => ObjectType::Property(PropertyDataType::String),
        15 => ObjectType::Property(PropertyDataType::String),
        16 => ObjectType::Property(PropertyDataType::Item),
        17 => ObjectType::Property(PropertyDataType::Item),
        18 => ObjectType::Property(PropertyDataType::Coord),
        19 => ObjectType::Item,
        20 => ObjectType::Item,
        21 => ObjectType::Item,
        22 => ObjectType::Item,
        23 => ObjectType::Item,
        24 => ObjectType::Item,
        25 => ObjectType::Item,
        26 => ObjectType::Item,
        27 => ObjectType::Item,
        28 => ObjectType::Item,
        29 => ObjectType::Item,
        30 => ObjectType::Item,
        31 => ObjectType::Item,
        32 => ObjectType::Item,
        _ => ObjectType::Item,
    }
}

/// Physical modes: items that are instances of the physical mode class.
pub open spec fn is_mode(i: int) -> bool {
    20 <= i < 28
}

/// Stop kinds.
pub open spec fn is_stop_kind(i: int) -> bool {
    28 <= i < 33
}

/// Feed code of a physical mode or stop kind.
pub open spec fn schema_code(i: int) -> Seq<char> {
    if is_mode(i) {
        seq!["0"@, "1"@, "2"@, "3"@, "4"@, "5"@, "6"@, "7"@][i - 20]
    } else if is_stop_kind(i) {
        seq!["0"@, "1"@, "2"@, "3"@, "4"@][i - 28]
    } else {
        Seq::empty()
    }
}

fn schema_code_exec(i: usize) -> (r: &'static str)
    requires
        20 <= i < SCHEMA_LEN,
    ensures
        r@ == schema_code(i as int),
{
    match i {
        20 => "0",
        21 => "1",
        22 => "2",
        23 => "3",
        24 => "4",
        25 => "5",
        26 => "6",
        27 => "7",
        28 => "0",
        29 => "1",
        30 => "2",
        31 => "3",
        32 => "4",
        _ => "",
    }
}

/// `e` gives each schema element the identifier found or created for it.
pub open spec fn populated(ids: Seq<Seq<char>>, e: EntitiesId) -> bool {
    &&& e.properties.topo_id_id@ == ids[0]
    &&& e.properties.gtfs_id@ == ids[1]
    &&& e.properties.instance_of@ == ids[2]
    &&& e.properties.produced_by@ == ids[5]
    &&& e.properties.gtfs_short_name@ == ids[6]
    &&& e.properties.gtfs_long_name@ == ids[7]
    &&& e.properties.gtfs_name@ == ids[8]
    &&& e.properties.has_physical_mode@ == ids[9]
    &&& e.properties.first_seen_in@ == ids[10]
    &&& e.properties.data_source@ == ids[11]
    &&& e.properties.source@ == ids[12]
    &&& e.properties.file_format@ == ids[13]
    &&& e.properties.sha_256@ == ids[14]
    &&& e.properties.tool_version@ == ids[15]
    &&& e.properties.part_of@ == ids[16]
    &&& e.properties.connecting_line@ == ids[17]
    &&& e.properties.coordinate_location@ == ids[18]
    &&& e.items.producer@ == ids[3]
    &&& e.items.physical_mode@ == ids[4]
    &&& e.items.route@ == ids[19]
    &&& e.items.tramway@ == ids[20]
    &&& e.items.subway@ == ids[21]
    &&& e.items.railway@ == ids[22]
    &&& e.items.bus@ == ids[23]
    &&& e.items.ferry@ == ids[24]
    &&& e.items.cable_car@ == ids[25]
    &&& e.items.gondola@ == ids[26]
    &&& e.items.funicular@ == ids[27]
    &&& e.items.stop_point@ == ids[28]
    &&& e.items.stop_area@ == ids[29]
    &&& e.items.stop_entrance@ == ids[30]
    &&& e.items.stop_generic_node@ == ids[31]
    &&& e.items.stop_boarding_area@ == ids[32]
}

fn schema_entities(ids: &Vec<String>) -> (r: EntitiesId)
    requires
        ids.len() == SCHEMA_LEN,
    ensures
        populated(views(ids@), r),
{
    EntitiesId {
        properties: Properties {
            topo_id_id: ids[0].clone(),
            gtfs_id: ids[1].clone(),
            instance_of: ids[2].clone(),
            produced_by: ids[5].clone(),
            gtfs_short_name: ids[6].clone(),
            gtfs_long_name: ids[7].clone(),
            gtfs_name: ids[8].clone(),
            has_physical_mode: ids[9].clone(),
            first_seen_in: ids[10].clone(),
            data_source: ids[11].clone(),
            source: ids[12].clone(),
            file_format: ids[13].clone(),
            sha_256: ids[14].clone(),
            tool_version: ids[15].clone(),
            part_of: ids[16].clone(),
            connecting_line: ids[17].clone(),
            coordinate_location: ids[18].clone(),
        },
        items: Items {
            producer: ids[3].clone(),
            physical_mode: ids[4].clone(),
            route: ids[19].clone(),
            tramway: ids[20].clone(),
            subway: ids[21].clone(),
            railway: ids[22].clone(),
            bus: ids[23].clone(),
            ferry: ids[24].clone(),
            cable_car: ids[25].clone(),
            gondola: ids[26].clone(),
            funicular: ids[27].clone(),
            stop_point: ids[28].clone(),
            stop_area: ids[29].clone(),
            stop_entrance: ids[30].clone(),
            stop_generic_node: ids[31].clone(),
            stop_boarding_area: ids[32].clone(),
        },
    }
}

/// What creating schema element `i` claims, given the identifiers of the
/// elements before it: physical modes are instances of the physical mode class
/// and carry their feed code, stop kinds carry theirs, and every element but
/// the marker property carries the marker with its symbolic name.
pub open spec fn element_claims(ids: Seq<Seq<char>>, i: int) -> Seq<ClaimModel> {
    let topo = string_claim_model(ids[0], snake_case_of(schema_label(i)));
    if i == 0 {
        Seq::empty()
    } else if is_mode(i) {
        seq![ClaimModel::Link(ids[2], ids[4])] + string_claim_model(ids[1], schema_code(i)) + topo
    } else if is_stop_kind(i) {
        string_claim_model(ids[1], schema_code(i)) + topo
    } else {
        topo
    }
}

/// The pattern finding the items whose marker is `topo_id`.
pub open spec fn item_pattern(topo_id_id: Seq<char>, topo_id: Seq<char>) -> Seq<char> {
    "?item wdt:"@ + topo_id_id + " \""@ + topo_id + "\"."@
}

/// The request creating schema element `i`.
fn element_request(ids: &Vec<String>, i: usize) -> (r: EditRequest)
    requires
        i == ids.len(),
        i < SCHEMA_LEN,
    ensures
        r.target == crate::claims::EditTarget::New(schema_kind(i as int)),
        r.label is Some,
        r.label.unwrap()@ == schema_label(i as int),
        models(r.claims@) == element_claims(views(ids@), i as int),
        !r.clear,
{
    let label = schema_label_exec(i);
    let kind = schema_kind_exec(i);
    if i == 0 {
        let claims: Vec<Option<Claim>> = Vec::new();
        proof {
            lemma_models_somes(claims@);
        }
        return create_request(kind, label, claims);
    }
    let topo = snake_case(label);
    let t = claim_string(ids[0].as_str(), topo.as_str());
    let ghost v = views(ids@);
    proof {
        assert(opt_model(t) == string_claim_model(v[0], snake_case_of(schema_label(i as int))));
    }
    if 20 <= i && i < 28 {
        let c0 = claim_item(ids[2].as_str(), ids[4].as_str());
        let c1 = claim_string(ids[1].as_str(), schema_code_exec(i));
        let claims = vec![c0, c1, t];
        proof {
            let s = claims@;
            lemma_models_somes(s);
            lemma_models_somes(s.drop_first());
            lemma_models_somes(s.drop_first().drop_first());
            lemma_models_somes(s.drop_first().drop_first().drop_first());
            assert(opt_model(c0) =~= seq![ClaimModel::Link(v[2], v[4])]);
            assert(opt_model(c1) == string_claim_model(v[1], schema_code(i as int)));
            assert(models(somes(s)) =~= opt_model(c0) + opt_model(c1) + opt_model(t));
        }
        create_request(kind, label, claims)
    } else if 28 <= i {
        let c1 = claim_string(ids[1].as_str(), schema_code_exec(i));
        let claims = vec![c1, t];
        proof {
            let s = claims@;
            lemma_models_somes(s);
            lemma_models_somes(s.drop_first());
            lemma_models_somes(s.drop_first().drop_first());
            assert(opt_model(c1) == string_claim_model(v[1], schema_code(i as int)));
            assert(models(somes(s)) =~= opt_model(c1) + opt_model(t));
        }
        create_request(kind, label, claims)
    } else {
        let claims = vec![t];
        proof {
            let s = claims@;
            lemma_models_somes(s);
            lemma_models_somes(s.drop_first());
            assert(models(somes(s)) =~= opt_model(t));
        }
        create_request(kind, label, claims)
    }
}

/// The query searching the item of schema element `i` by its marker.
fn element_search(ids: &Vec<String>, i: usize) -> (r: String)
    requires
        0 < i == ids.len(),
        i < SCHEMA_LEN,
    ensures
        r@ == select_text(seq!["?item"@], item_pattern(ids@[0]@, snake_case_of(schema_label(i as int)))),
{
    let topo = snake_case(schema_label_exec(i));
    let mut p = "?item wdt:".to_owned();
    p.append(ids[0].as_str());
    p.append(" \"");
    p.append(topo.as_str());
    p.append("\".");
    let vars = vec!["?item".to_owned()];
    assert(views(vars@) =~= seq!["?item"@]);
    select_query(&vars, p.as_str())
}

/// Progress of a bootstrap: the identifiers of the elements settled so far,
/// and whether the next element, an item, has been searched without success.
#[derive(Debug, Clone)]
pub struct Populator {
    pub ids: Vec<String>,
    pub searched: bool,
}

impl Populator {
    pub open spec fn wf(self) -> bool {
        &&& self.ids.len() <= SCHEMA_LEN
        &&& self.searched ==> self.ids.len() < SCHEMA_LEN && schema_kind(self.ids.len() as int) is Item
    }

    /// A bootstrap that has settled nothing yet.
    pub fn new() -> (r: Populator)
        ensures
            r.wf(),
            r.ids@.len() == 0,
            !r.searched,
    {
        Populator { ids: Vec::new(), searched: false }
    }
}

/// What the store answered to the last action of a bootstrap.
#[derive(Debug)]
pub enum PopulateEvent {
    /// Nothing yet: the bootstrap begins or resumes.
    Start,
    /// The answer to a creation.
    Created(Result<String, ApiError>),
    /// The rows of a search.
    Found(Vec<Row>),
}

/// What a bootstrap asks for next.
#[derive(Debug, Clone)]
pub enum PopulateAction {
    /// Create an element with this request.
    Create(EditRequest),
    /// Run this query, projecting `?item`.
    Search(String),
    /// Every element is settled.
    Done(EntitiesId),
}

/// Why a bootstrap stopped.
#[derive(Debug, Clone)]
pub enum BootstrapError {
    Api(ApiError),
    Query(QueryError),
    /// An answer that does not fit the last action.
    UnexpectedEvent,
}

/// The settled identifiers and search flag after `event`, or `None` when the
/// bootstrap stops.
pub open spec fn absorb(ids: Seq<Seq<char>>, searched: bool, event: PopulateEvent) -> Option<
    (Seq<Seq<char>>, bool),
> {
    let i = ids.len() as int;
    match event {
        PopulateEvent::Start => Some((ids, searched)),
        PopulateEvent::Created(res) => if i >= SCHEMA_LEN {
            None
        } else if schema_kind(i) is Property {
            match res {
                Ok(id) => Some((ids.push(id@), false)),
                Err(ApiError::PropertyAlreadyExists { id, .. }) => Some((ids.push(id@), false)),
                Err(_) => None,
            }
        } else if searched {
            match res {
                Ok(id) => Some((ids.push(id@), false)),
                Err(_) => None,
            }
        } else {
            None
        },
        PopulateEvent::Found(rows) => if i >= SCHEMA_LEN || i == 0 || schema_kind(i) is Property
            || searched {
            None
        } else if rows@.len() == 0 {
            Some((ids, true))
        } else if rows@.len() == 1 {
            match rows@[0].binding("item"@) {
                Some(url) => Some((ids.push(last_segment(url)), false)),
                None => Some((ids, true)),
            }
        } else {
            None
        },
    }
}

/// `action` is what a bootstrap with settled identifiers `ids` and search flag
/// `searched` asks for.
pub open spec fn next_action(ids: Seq<Seq<char>>, searched: bool, action: PopulateAction) -> bool {
    let i = ids.len() as int;
    if i == SCHEMA_LEN {
        action is Done && populated(ids, action->Done_0)
    } else if schema_kind(i) is Property || searched {
        action is Create && {
            let req = action->Create_0;
            &&& req.target == crate::claims::EditTarget::New(schema_kind(i))
            &&& req.label is Some
            &&& req.label.unwrap()@ == schema_label(i)
            &&& models(req.claims@) == element_claims(ids, i)
            &&& !req.clear
        }
    } else {
        action is Search && action->Search_0@ == select_text(
            seq!["?item"@],
            item_pattern(ids[0], snake_case_of(schema_label(i))),
        )
    }
}

/// One step of a bootstrap: takes in the store's answer to the last action and
/// says what to do next. A property whose label is taken settles on the
/// property holding it; an item found once by its marker settles on that item,
/// and one not found is created. Any other failure, several items with one
/// marker, or an answer that does not fit stops the bootstrap.
pub fn initial_populate(state: &mut Populator, event: PopulateEvent) -> (r: Result<
    PopulateAction,
    BootstrapError,
>)
    requires
        old(state).wf(),
    ensures
        final(state).wf(),
        match absorb(views(old(state).ids@), old(state).searched, event) {
            None => r is Err,
            Some((ids, searched)) => {
                &&& r is Ok
                &&& views(final(state).ids@) == ids
                &&& final(state).searched == searched
                &&& next_action(ids, searched, r->Ok_0)
            },
        },
{
    let i = state.ids.len();
    let ghost ids0 = views(state.ids@);
    match event {
        PopulateEvent::Start => {},
        PopulateEvent::Created(res) => {
            if i >= SCHEMA_LEN {
                return Err(BootstrapError::UnexpectedEvent);
            }
            let kind = schema_kind_exec(i);
            let is_property = match kind {
                ObjectType::Property(_) => true,
                ObjectType::Item => false,
            };
            if !is_property && !state.searched {
                return Err(BootstrapError::UnexpectedEvent);
            }
            let id = match res {
                Ok(id) => id,
                Err(ApiError::PropertyAlreadyExists { label, id }) => {
                    if !is_property {
                        return Err(BootstrapError::Api(ApiError::PropertyAlreadyExists { label, id }));
                    }
                    id
                },
                Err(e) => {
                    return Err(BootstrapError::Api(e));
                },
            };
            let ghost idv = id@;
            state.ids.push(id);
            state.searched = false;
            assert(views(state.ids@) =~= ids0.push(idv));
        },
        PopulateEvent::Found(rows) => {
            if i >= SCHEMA_LEN || i == 0 || state.searched {
                return Err(BootstrapError::UnexpectedEvent);
            }
            let kind = schema_kind_exec(i);
            if let ObjectType::Property(_) = kind {
                return Err(BootstrapError::UnexpectedEvent);
            }
            if rows.len() == 0 {
                state.searched = true;
            } else if rows.len() == 1 {
                match rows[0].get("item") {
                    Some(url) => {
                        let id = crate::ids::read_id_from_url(url.as_str()).unwrap();
                        let ghost idv = id@;
                        state.ids.push(id);
                        assert(views(state.ids@) =~= ids0.push(idv));
                    },
                    None => {
                        state.searched = true;
                    },
                }
            } else {
                let topo = snake_case(schema_label_exec(i));
                let mut m = "entity ".to_owned();
                m.append(topo.as_str());
                m.append(" already exists");
                return Err(BootstrapError::Query(QueryError::Duplicate(m)));
            }
        },
    }
    let n = state.ids.len();
    if n == SCHEMA_LEN {
        return Ok(PopulateAction::Done(schema_entities(&state.ids)));
    }
    let kind = schema_kind_exec(n);
    let is_property = match kind {
        ObjectType::Property(_) => true,
        ObjectType::Item => false,
    };
    if is_property || state.searched {
        Ok(PopulateAction::Create(element_request(&state.ids, n)))
    } else {
        Ok(PopulateAction::Search(element_search(&state.ids, n)))
    }
}

/// Where a bootstrap with settled identifiers `ids` ends up after `events`.
pub open spec fn run(ids: Seq<Seq<char>>, searched: bool, events: Seq<PopulateEvent>) -> Option<
    (Seq<Seq<char>>, bool),
>
    decreases events.len(),
{
    if events.len() == 0 {
        Some((ids, searched))
    } else {
        match absorb(ids, searched, events[0]) {
            None => None,
            Some((next, s)) => run(next, s, events.drop_first()),
        }
    }
}

/// `event` is the store citing `id` for schema element `i`: the property it
/// creates or whose label it reports as taken, or the single item it finds with
/// that marker.
pub open spec fn cites(event: PopulateEvent, i: int, id: Seq<char>) -> bool {
    if schema_kind(i) is Property {
        match event {
            PopulateEvent::Created(Ok(x)) => x@ == id,
            PopulateEvent::Created(Err(ApiError::PropertyAlreadyExists { id: x, .. })) => x@ == id,
            _ => false,
        }
    } else {
        match event {
            PopulateEvent::Found(rows) => rows@.len() == 1 && match rows@[0].binding("item"@) {
                Some(url) => last_segment(url) == id,
                None => false,
            },
            _ => false,
        }
    }
}

proof fn lemma_run_from(schema: Seq<Seq<char>>, events: Seq<PopulateEvent>, k: int)
    requires
        0 <= k <= SCHEMA_LEN,
        schema.len() == SCHEMA_LEN,
        events.len() == SCHEMA_LEN,
        forall|i: int| 0 <= i < SCHEMA_LEN ==> #[trigger] cites(events[i], i, schema[i]),
    ensures
        run(schema.take(k), false, events.skip(k)) == Some((schema, false)),
    decreases SCHEMA_LEN - k,
{
    if k == SCHEMA_LEN {
        assert(schema.take(k) =~= schema);
        assert(events.skip(k) =~= Seq::<PopulateEvent>::empty());
    } else {
        lemma_run_from(schema, events, k + 1);
        let ids = schema.take(k);
        assert(cites(events[k], k, schema[k]));
        assert(ids.push(schema[k]) =~= schema.take(k + 1));
        assert(events.skip(k).drop_first() =~= events.skip(k + 1));
        assert(events.skip(k)[0] == events[k]);
        assert(absorb(ids, false, events[k]) == Some((schema.take(k + 1), false)));
    }
}

/// Bootstrap is idempotent. Against a store that already holds the schema with
/// identifiers `schema` (as a first bootstrap left it), every element is
/// answered by citing its identifier, and the bootstrap settles on exactly
/// `schema` again, creating nothing.
pub proof fn lemma_bootstrap_idempotent(schema: Seq<Seq<char>>, events: Seq<PopulateEvent>)
    requires
        schema.len() == SCHEMA_LEN,
        events.len() == SCHEMA_LEN,
        forall|i: int| 0 <= i < SCHEMA_LEN ==> #[trigger] cites(events[i], i, schema[i]),
    ensures
        run(Seq::empty(), false, events) == Some((schema, false)),
{
    lemma_run_from(schema, events, 0);
    assert(schema.take(0) =~= Seq::<Seq<char>>::empty());
    assert(events.skip(0) =~= events);
}

} // verus!
