use transit_topo::discovery::{discover_known_entities, Discovery, DiscoveryAction};
use transit_topo::known_entities::discovered_name_list;
use transit_topo::sparql::{QueryError, Row};

fn row(url: &str) -> Row {
    Row { vars: vec!["item_id".to_string()], values: vec![url.to_string()] }
}

#[test]
fn discovery_finds_each_element_in_turn() {
    let names = discovered_name_list();
    let mut state = Discovery::new("P100");
    let mut rows = None;
    let mut asked = Vec::new();
    let entities = loop {
        match discover_known_entities(&mut state, rows).unwrap() {
            DiscoveryAction::Done(e) => break e,
            DiscoveryAction::Query(q) => {
                asked.push(q);
                let name = &names[asked.len() - 1];
                rows = Some(vec![row(&format!("http://wiki/entity/id_{}", name))]);
            }
        }
    };
    assert_eq!(asked.len(), names.len());
    assert!(asked[0].contains("?item_id wdt:P100 'physical_mode'"));
    assert_eq!(entities.properties.topo_id_id, "P100");
    assert_eq!(entities.items.bus, "id_bus");
    assert_eq!(entities.properties.coordinate_location, "id_coordinate_location");
}

#[test]
fn discovery_needs_exactly_one_element() {
    let mut state = Discovery::new("P100");
    discover_known_entities(&mut state, None).unwrap();
    let mut missing = state.clone();
    assert_eq!(
        discover_known_entities(&mut missing, Some(vec![])).unwrap_err(),
        QueryError::TopoIdNotFound("physical_mode".to_string())
    );
    assert_eq!(
        discover_known_entities(&mut state, Some(vec![row("a/Q1"), row("a/Q2")])).unwrap_err(),
        QueryError::DuplicatedTopoId("physical_mode".to_string())
    );
}
