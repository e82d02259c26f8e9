use transit_topo::claims::{ObjectType, PropertyDataType, PropertyValue};
use transit_topo::cli::{
    api_claim, create_entity, parse_claims, search, search_ids, unique_search, ClaimExpr,
    EntityDecision, EntityType, ToolError,
};
use transit_topo::known_entities::{discovered_name_list, EntitiesId};
use transit_topo::sparql::Row;

fn registry() -> EntitiesId {
    let ids: Vec<String> = discovered_name_list().iter().map(|n| format!("X_{}", n)).collect();
    EntitiesId::from_ids("P100", &ids)
}

fn strings(v: &[&str]) -> Vec<String> {
    v.iter().map(|s| s.to_string()).collect()
}

fn item_row(url: &str) -> Row {
    Row { vars: vec!["item".to_string()], values: vec![url.to_string()] }
}

#[test]
fn claims_resolve_schema_names() {
    let e = registry();
    let c = parse_claims(&strings(&["@instance_of=@producer", "P420=a=b", "rdfs:label=\"x\""]), &e).unwrap();
    assert_eq!((c[0].property.as_str(), c[0].value.as_str()), ("X_instance_of", "wd:X_producer"));
    assert_eq!((c[1].property.as_str(), c[1].value.as_str()), ("P420=a", "b"));
    assert_eq!((c[2].property.as_str(), c[2].value.as_str()), ("rdfs:label", "\"x\""));
    let unknown = parse_claims(&strings(&["@nothing=@nowhere"]), &e).unwrap();
    assert_eq!((unknown[0].property.as_str(), unknown[0].value.as_str()), ("@nothing", "@nowhere"));
}

#[test]
fn bad_claim_is_reported() {
    let e = registry();
    assert_eq!(
        parse_claims(&strings(&["P100=a", "no equal sign"]), &e).unwrap_err(),
        ToolError::UnparsableClaim("no equal sign".to_string())
    );
}

#[test]
fn search_needs_claims() {
    assert_eq!(search(&vec![], &registry()), Err(ToolError::NoClaims));
}

#[test]
fn search_query_namespaces_plain_properties() {
    let q = search(&strings(&["@gtfs_id=\"AB\"", "rdfs:label=\"Bus\"@en"]), &registry()).unwrap();
    assert!(q.starts_with("SELECT ?item WHERE { ?item wdt:X_gtfs_id \"AB\"; rdfs:label \"Bus\"@en. SERVICE"));
}

#[test]
fn search_ids_skip_rows_without_item() {
    let rows = vec![
        item_row("http://w/entity/Q1"),
        Row { vars: vec!["other".to_string()], values: vec!["x".to_string()] },
        item_row("http://w/entity/Q2"),
    ];
    assert_eq!(search_ids(&rows), strings(&["Q1", "Q2"]));
}

#[test]
fn api_claims_drop_namespaces() {
    let item = api_claim(&ClaimExpr { property: "wdt:P600".to_string(), value: "wd:Q16".to_string() }).unwrap();
    assert_eq!(item.property, "P600");
    assert!(matches!(&item.value, PropertyValue::Item(i) if i == "Q16"));
    let url = api_claim(&ClaimExpr { property: "P900".to_string(), value: "<http://a.b/c>".to_string() }).unwrap();
    assert!(matches!(&url.value, PropertyValue::String(s) if s == "http://a.b/c"));
}

#[test]
fn existing_entity_is_returned() {
    let e = registry();
    let rows = vec![item_row("http://w/entity/Q8")];
    let d = create_entity(EntityType::Item, "bob", &strings(&["@instance_of=@producer"]), &vec![], &e, &rows);
    assert!(matches!(d, Ok(EntityDecision::Existing(id)) if id == "Q8"));
    let two = vec![item_row("a/Q1"), item_row("a/Q2")];
    let d = create_entity(EntityType::Item, "bob", &vec![], &vec![], &e, &two);
    assert_eq!(d.unwrap_err(), ToolError::TooManyEntities);
}

#[test]
fn missing_entity_is_created_with_all_claims() {
    let e = registry();
    let d = create_entity(
        EntityType::UrlProperty,
        "Homepage",
        &strings(&["@instance_of=@producer"]),
        &strings(&["P300=<http://x>"]),
        &e,
        &vec![],
    )
    .unwrap();
    match d {
        EntityDecision::Create(req) => {
            assert!(matches!(
                req.target,
                transit_topo::claims::EditTarget::New(ObjectType::Property(PropertyDataType::Url))
            ));
            assert_eq!(req.label.as_deref(), Some("Homepage"));
            assert_eq!(req.claims.len(), 2);
            assert_eq!(req.claims[0].property, "P300");
            assert_eq!(req.claims[1].property, "X_instance_of");
            assert!(matches!(&req.claims[1].value, PropertyValue::Item(i) if i == "X_producer"));
        }
        EntityDecision::Existing(_) => panic!("expected a creation"),
    }
}

#[test]
fn unique_search_query() {
    let q = unique_search("bob", &strings(&["@instance_of=@producer"]), &registry()).unwrap();
    assert!(q.contains("?item rdfs:label \"bob\"@en; wdt:X_instance_of wd:X_producer."));
}

#[test]
fn entity_types_map_to_object_types() {
    assert_eq!(EntityType::Item.get_object_type(), ObjectType::Item);
    assert_eq!(EntityType::StringProperty.get_object_type(), ObjectType::Property(PropertyDataType::String));
    assert_eq!(EntityType::ItemProperty.get_object_type(), ObjectType::Property(PropertyDataType::Item));
    assert_eq!(EntityType::UrlProperty.get_object_type(), ObjectType::Property(PropertyDataType::Url));
}
