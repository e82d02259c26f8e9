use transit_topo::claims::{EditRequest, EditTarget, PropertyValue};
use transit_topo::importer::{
    find_route_query, insert_stop_relations, insert_stop_route_relations, part_of_request,
    route_action, stop_action, IdMapping, RouteAction, StopAction,
};
use transit_topo::known_entities::{discovered_name_list, EntitiesId, LocationType, RouteType};
use transit_topo::sparql::{
    producer_label, resolve_topo_rows, select_query, single_match, topo_id_query, QueryError, Row,
};
use transit_topo::writer::{data_source_request, insert_data_source, FeedRoute, FeedStop, FeedTrip};

/// A registry where each discovered element `name` has the identifier `X_<name>`.
fn registry() -> EntitiesId {
    let ids: Vec<String> = discovered_name_list().iter().map(|n| format!("X_{}", n)).collect();
    EntitiesId::from_ids("P100", &ids)
}

fn row(var: &str, value: &str) -> Row {
    Row { vars: vec![var.to_string()], values: vec![value.to_string()] }
}

fn claim_texts(r: &EditRequest) -> Vec<(String, String)> {
    r.claims
        .iter()
        .map(|c| match &c.value {
            PropertyValue::String(s) => (c.property.clone(), format!("\"{}\"", s)),
            PropertyValue::Item(s) => (c.property.clone(), s.clone()),
            PropertyValue::Coord { .. } => (c.property.clone(), "coord".to_string()),
        })
        .collect()
}

fn pairs(v: &[(&str, &str)]) -> Vec<(String, String)> {
    v.iter().map(|(a, b)| (a.to_string(), b.to_string())).collect()
}

fn bullfrog_route(short_name: &str) -> FeedRoute {
    FeedRoute {
        id: "AB".to_string(),
        short_name: short_name.to_string(),
        long_name: "Airport - Bullfrog".to_string(),
        route_type: RouteType::Bus,
    }
}

#[test]
fn new_route_is_created_with_label_and_claims() {
    let e = registry();
    let r = route_action(&e, &bullfrog_route("AB"), &vec![], "Q20", "bob the bus mapper").unwrap();
    let req = match r {
        RouteAction::Create(req) => req,
        RouteAction::Reuse(_) => panic!("expected a creation"),
    };
    assert_eq!(req.label.as_deref(), Some("Bus Airport - Bullfrog (bob the bus mapper)"));
    assert!(matches!(req.target, EditTarget::New(_)));
    assert_eq!(
        claim_texts(&req),
        pairs(&[
            ("X_instance_of", "X_route"),
            ("X_gtfs_id", "\"AB\""),
            ("X_data_source", "Q20"),
            ("X_gtfs_short_name", "\"AB\""),
            ("X_gtfs_long_name", "\"Airport - Bullfrog\""),
            ("X_has_physical_mode", "X_bus"),
        ])
    );
}

#[test]
fn empty_short_name_is_not_claimed() {
    let e = registry();
    let r = route_action(&e, &bullfrog_route(""), &vec![], "Q20", "bob").unwrap();
    let req = match r {
        RouteAction::Create(req) => req,
        RouteAction::Reuse(_) => panic!("expected a creation"),
    };
    let texts = claim_texts(&req);
    assert_eq!(texts.len(), 5);
    assert!(texts.iter().all(|(p, v)| p != "X_gtfs_short_name" && v != "\"\""));
}

#[test]
fn route_label_falls_back_to_short_name() {
    let e = registry();
    let route = FeedRoute {
        id: "T1".to_string(),
        short_name: "T1".to_string(),
        long_name: String::new(),
        route_type: RouteType::Tramway,
    };
    let req = match route_action(&e, &route, &vec![], "Q20", "city").unwrap() {
        RouteAction::Create(req) => req,
        RouteAction::Reuse(_) => panic!("expected a creation"),
    };
    assert_eq!(req.label.as_deref(), Some("Tramway T1 (city)"));
    assert_eq!(claim_texts(&req).last().unwrap().1, "X_tramway");
}

#[test]
fn found_route_is_reused() {
    let e = registry();
    let rows = vec![row("route", "http://wiki/entity/Q77")];
    match route_action(&e, &bullfrog_route("AB"), &rows, "Q20", "bob").unwrap() {
        RouteAction::Reuse(id) => assert_eq!(id, "Q77"),
        RouteAction::Create(_) => panic!("expected reuse"),
    }
}

#[test]
fn missing_entity_is_not_found_not_error() {
    assert_eq!(single_match(&vec![], "route", "x"), Ok(None));
}

fn stop(id: &str, kind: LocationType, parent: Option<&str>) -> FeedStop {
    FeedStop {
        id: id.to_string(),
        name: format!("{} name", id),
        location_type: kind,
        parent_station: parent.map(|p| p.to_string()),
    }
}

#[test]
fn duplicated_stop_is_an_error() {
    let e = registry();
    let rows = vec![row("stop", "http://wiki/entity/Q1"), row("stop", "http://wiki/entity/Q2")];
    let r = stop_action(&e, &stop("STAGECOACH", LocationType::StopPoint, None), &rows, "Q20", false);
    match r {
        Err(QueryError::Duplicate(m)) => {
            assert_eq!(m, "Stop STAGECOACH exists many times. Something is not right")
        }
        _ => panic!("expected a duplicate error"),
    }
}

#[test]
fn stop_actions() {
    let e = registry();
    let s = stop("BEATTY_AIRPORT", LocationType::StationEntrance, None);
    match stop_action(&e, &s, &vec![], "Q20", false).unwrap() {
        StopAction::Create(req) => {
            assert_eq!(req.label.as_deref(), Some("BEATTY_AIRPORT name"));
            assert_eq!(
                claim_texts(&req),
                pairs(&[
                    ("X_instance_of", "X_stop_entrance"),
                    ("X_gtfs_id", "\"BEATTY_AIRPORT\""),
                    ("X_data_source", "Q20"),
                    ("X_gtfs_name", "\"BEATTY_AIRPORT name\""),
                ])
            );
        }
        _ => panic!("expected a creation"),
    }
    let rows = vec![row("stop", "http://wiki/entity/Q5")];
    assert!(matches!(stop_action(&e, &s, &rows, "Q20", false).unwrap(), StopAction::Skip(id) if id == "Q5"));
    match stop_action(&e, &s, &rows, "Q21", true).unwrap() {
        StopAction::Update(id, req) => {
            assert_eq!(id, "Q5");
            assert!(req.clear);
            assert!(matches!(&req.target, EditTarget::Existing(t) if t == "Q5"));
            assert_eq!(claim_texts(&req)[2], ("X_data_source".to_string(), "Q21".to_string()));
        }
        _ => panic!("expected an update"),
    }
}

#[test]
fn mapping_keeps_first_identifier() {
    let mut m = IdMapping::new();
    m.insert("A".to_string(), "Q1".to_string());
    m.insert("B".to_string(), "Q2".to_string());
    m.insert("A".to_string(), "Q3".to_string());
    assert_eq!(m.get("A"), Some("Q1".to_string()));
    assert_eq!(m.get("B"), Some("Q2".to_string()));
    assert_eq!(m.get("C"), None);
}

#[test]
fn containment_links_child_to_parent() {
    let e = registry();
    let stops = vec![
        stop("STATION", LocationType::StopArea, None),
        stop("PLATFORM", LocationType::StopPoint, Some("STATION")),
        stop("ORPHAN", LocationType::StopPoint, Some("UNKNOWN")),
    ];
    let mut m = IdMapping::new();
    m.insert("STATION".to_string(), "Q10".to_string());
    m.insert("PLATFORM".to_string(), "Q11".to_string());
    m.insert("ORPHAN".to_string(), "Q12".to_string());
    let links = insert_stop_relations(&stops, &m);
    assert_eq!(links.len(), 1);
    assert_eq!((links[0].from.as_str(), links[0].to.as_str()), ("Q11", "Q10"));
    let req = part_of_request(&e, &links[0]);
    assert!(matches!(&req.target, EditTarget::Existing(t) if t == "Q11"));
    assert!(!req.clear);
    assert_eq!(claim_texts(&req), pairs(&[("X_part_of", "Q10")]));
}

#[test]
fn service_links_each_served_stop_once() {
    let trips = vec![
        FeedTrip { route_id: "AB".to_string(), stop_ids: vec!["S1".to_string(), "S2".to_string()] },
        FeedTrip { route_id: "AB".to_string(), stop_ids: vec!["S2".to_string(), "S3".to_string()] },
        FeedTrip { route_id: "ZZ".to_string(), stop_ids: vec!["S1".to_string()] },
    ];
    let mut stops = IdMapping::new();
    stops.insert("S1".to_string(), "Q1".to_string());
    stops.insert("S2".to_string(), "Q2".to_string());
    let mut routes = IdMapping::new();
    routes.insert("AB".to_string(), "Q9".to_string());
    let links = insert_stop_route_relations(&trips, &stops, &routes);
    let got: Vec<(String, String)> = links.iter().map(|l| (l.from.clone(), l.to.clone())).collect();
    assert_eq!(got, pairs(&[("Q1", "Q9"), ("Q2", "Q9")]));
}

#[test]
fn data_source_claims_and_label() {
    let e = registry();
    let r = data_source_request(&e, &Some("abc".to_string()), "Q12345", "feed.zip", "v1.2", "2020-01-01");
    assert_eq!(r.label.as_deref(), Some("Data source for Q12345 - imported 2020-01-01"));
    assert_eq!(
        claim_texts(&r),
        pairs(&[
            ("X_produced_by", "Q12345"),
            ("X_source", "\"feed.zip\""),
            ("X_file_format", "\"GTFS\""),
            ("X_tool_version", "\"v1.2\""),
            ("X_sha_256", "\"abc\""),
        ])
    );
    let now = insert_data_source(&e, &None, "Q12345", "feed.zip", "v1.2");
    assert!(now.label.unwrap().starts_with("Data source for Q12345 - imported "));
    assert_eq!(now.claims.len(), 4);
}

#[test]
fn queries_are_built_from_the_registry() {
    let e = registry();
    let q = find_route_query(&e, "Q12345", "AB");
    assert_eq!(
        q,
        "SELECT ?route ?routeLabel ?gtfs_id WHERE { ?route wdt:X_instance_of wd:X_route. ?route wdt:X_gtfs_id \"AB\". ?route wdt:X_data_source ?data_source. ?data_source wdt:X_produced_by wd:Q12345. SERVICE wikibase:label { bd:serviceParam wikibase:language \"en\". } }"
    );
    assert_eq!(topo_id_query("P100", "bus"), "?item_id wdt:P100 'bus'");
    assert_eq!(
        select_query(&vec!["?x".to_string()], "?x ?p ?o."),
        "SELECT ?x WHERE { ?x ?p ?o. SERVICE wikibase:label { bd:serviceParam wikibase:language \"en\". } }"
    );
}

#[test]
fn schema_rows_resolve_to_one_identifier() {
    assert_eq!(resolve_topo_rows(&vec![row("item_id", "http://w/entity/Q3")], "bus"), Ok("Q3".to_string()));
    assert_eq!(resolve_topo_rows(&vec![], "bus"), Err(QueryError::TopoIdNotFound("bus".to_string())));
    assert_eq!(
        resolve_topo_rows(&vec![row("item_id", "a/Q1"), row("item_id", "a/Q2")], "bus"),
        Err(QueryError::DuplicatedTopoId("bus".to_string()))
    );
    assert_eq!(producer_label(&vec![row("label", "bob")], "Q1"), Ok(Some("bob".to_string())));
    assert_eq!(producer_label(&vec![], "Q1"), Ok(None));
}

#[test]
fn registry_maps_modes_and_stop_kinds() {
    let e = registry();
    assert_eq!(e.physical_mode(RouteType::Bus), "X_bus");
    assert_eq!(e.physical_mode(RouteType::CableCar), "X_cable_car");
    assert_eq!(e.physical_mode(RouteType::Other(42)), "X_bus");
    assert_eq!(e.location_type(LocationType::BoardingArea), "X_stop_boarding_area");
    assert_eq!(e.location_type(LocationType::Unknown(9)), "X_stop_point");
    assert_eq!(e.property_id("topo_id_id"), Some("P100".to_string()));
    assert_eq!(e.property_id("part_of"), Some("X_part_of".to_string()));
    assert_eq!(e.item_id("ferry"), Some("X_ferry".to_string()));
    assert_eq!(e.item_id("nothing"), None);
}

#[test]
fn each_import_creates_its_own_data_source() {
    let e = registry();
    for _ in 0..2 {
        let r = insert_data_source(&e, &Some("abc".to_string()), "Q12345", "feed.zip", "v1");
        assert!(matches!(r.target, EditTarget::New(_)));
        assert_eq!(r.claims.len(), 5);
    }
}

#[test]
fn reimport_reuses_route_and_stop() {
    let e = registry();
    let route_rows = vec![row("route", "http://wiki/entity/Q30")];
    assert!(matches!(
        route_action(&e, &bullfrog_route("AB"), &route_rows, "Q21", "bob").unwrap(),
        RouteAction::Reuse(id) if id == "Q30"
    ));
    let stop_rows = vec![row("stop", "http://wiki/entity/Q31")];
    let s = stop("BULLFROG", LocationType::GenericNode, None);
    assert!(matches!(
        stop_action(&e, &s, &stop_rows, "Q21", false).unwrap(),
        StopAction::Skip(id) if id == "Q31"
    ));
}
