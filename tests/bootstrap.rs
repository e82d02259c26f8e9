use transit_topo::api::ApiError;
use transit_topo::claims::{EditRequest, EditTarget, ObjectType, PropertyDataType, PropertyValue};
use transit_topo::known_entities::EntitiesId;
use transit_topo::populate::{
    initial_populate, PopulateAction, PopulateEvent, Populator, SCHEMA_LEN,
};
use transit_topo::sparql::Row;

fn item_row(id: &str) -> Row {
    Row { vars: vec!["item".to_string()], values: vec![format!("http://wiki/entity/{}", id)] }
}

/// Runs a bootstrap against a store that creates whatever is asked, numbering
/// the new entities, unless `existing` is set, in which case everything is
/// reported as present already. Returns the registry and the number of
/// creations.
fn bootstrap(existing: bool) -> (EntitiesId, usize) {
    let mut state = Populator::new();
    let mut event = PopulateEvent::Start;
    let mut created = 0;
    for _ in 0..200 {
        let action = initial_populate(&mut state, event).unwrap();
        let n = state.ids.len();
        event = match action {
            PopulateAction::Done(e) => return (e, created),
            PopulateAction::Create(req) => {
                let id = format!("E{}", n);
                match req.target {
                    EditTarget::New(ObjectType::Property(_)) if existing => {
                        PopulateEvent::Created(Err(ApiError::PropertyAlreadyExists {
                            label: req.label.unwrap(),
                            id,
                        }))
                    }
                    _ => {
                        created += 1;
                        PopulateEvent::Created(Ok(id))
                    }
                }
            }
            PopulateAction::Search(_) => {
                if existing {
                    PopulateEvent::Found(vec![item_row(&format!("E{}", n))])
                } else {
                    PopulateEvent::Found(vec![])
                }
            }
        };
    }
    panic!("bootstrap did not finish");
}

#[test]
fn bootstrap_twice_gives_same_registry() {
    let (first, created_first) = bootstrap(false);
    let (second, created_second) = bootstrap(true);
    assert_eq!(created_first, SCHEMA_LEN);
    assert_eq!(created_second, 0);
    assert_eq!(format!("{:?}", first), format!("{:?}", second));
    assert_eq!(first.properties.topo_id_id, "E0");
    assert_eq!(first.properties.gtfs_id, "E1");
    assert_eq!(first.items.bus, "E23");
    assert_eq!(first.items.stop_boarding_area, "E32");
}

fn start() -> (Populator, EditRequest) {
    let mut state = Populator::new();
    match initial_populate(&mut state, PopulateEvent::Start).unwrap() {
        PopulateAction::Create(req) => (state, req),
        _ => panic!("expected a creation"),
    }
}

#[test]
fn marker_property_comes_first_without_claims() {
    let (_, req) = start();
    assert_eq!(req.label.as_deref(), Some("Topo tools id"));
    assert!(matches!(req.target, EditTarget::New(ObjectType::Property(PropertyDataType::String))));
    assert!(req.claims.is_empty());
}

#[test]
fn properties_carry_the_marker() {
    let (mut state, _) = start();
    let next = initial_populate(&mut state, PopulateEvent::Created(Ok("P100".to_string()))).unwrap();
    match next {
        PopulateAction::Create(req) => {
            assert_eq!(req.label.as_deref(), Some("GTFS id"));
            assert_eq!(req.claims.len(), 1);
            assert_eq!(req.claims[0].property, "P100");
            assert!(matches!(&req.claims[0].value, PropertyValue::String(s) if s == "gtfs_id"));
        }
        _ => panic!("expected a creation"),
    }
}

#[test]
fn item_is_searched_by_marker() {
    let (mut state, _) = start();
    for id in ["P100", "P200", "P300"] {
        initial_populate(&mut state, PopulateEvent::Created(Ok(id.to_string()))).unwrap();
    }
    // the fourth element is an item: it was asked to be searched
    assert_eq!(state.ids.len(), 3);
    let mut again = state.clone();
    match initial_populate(&mut again, PopulateEvent::Start).unwrap() {
        PopulateAction::Search(q) => assert!(q.contains("?item wdt:P100 \"producer\".")),
        _ => panic!("expected a search"),
    }
}

#[test]
fn failures_stop_the_bootstrap() {
    let (mut state, _) = start();
    let r = initial_populate(
        &mut state,
        PopulateEvent::Created(Err(ApiError::GenericError("down".to_string()))),
    );
    assert!(r.is_err());
    let (mut state, _) = start();
    assert!(initial_populate(&mut state, PopulateEvent::Found(vec![])).is_err());
}

#[test]
fn several_items_with_one_marker_stop_the_bootstrap() {
    let (mut state, _) = start();
    for id in ["P100", "P200", "P300"] {
        initial_populate(&mut state, PopulateEvent::Created(Ok(id.to_string()))).unwrap();
    }
    let r = initial_populate(&mut state, PopulateEvent::Found(vec![item_row("Q1"), item_row("Q2")]));
    assert!(r.is_err());
}
