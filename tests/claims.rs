use transit_topo::claims::{
    claim_coord, claim_item, claim_string, create_request, submitted_claims, update_request,
    Claim, EditTarget, ObjectType, PropertyDataType, PropertyValue,
};
use transit_topo::ids::read_id_from_url;
use transit_topo::text::{join, replace_all};

fn text_of(c: &Claim) -> (String, String) {
    (c.property.clone(), c.value.value().to_string())
}

#[test]
fn id_is_last_path_segment() {
    assert_eq!(read_id_from_url("http://wiki/entity/Q42"), Some("Q42".to_string()));
    assert_eq!(read_id_from_url("Q7"), Some("Q7".to_string()));
    assert_eq!(read_id_from_url("http://wiki/entity/"), Some("".to_string()));
}

#[test]
fn string_claim_is_trimmed() {
    let c = claim_string("P300", "  AB \n").unwrap();
    assert_eq!(text_of(&c), ("P300".to_string(), "AB".to_string()));
    assert!(matches!(c.value, PropertyValue::String(_)));
}

#[test]
fn empty_string_claim_is_dropped() {
    assert!(claim_string("P400", "").is_none());
    assert!(claim_string("P400", "   ").is_none());
}

#[test]
fn item_and_coord_claims() {
    let c = claim_item("P200", "Q9").unwrap();
    assert_eq!(text_of(&c), ("P200".to_string(), "Q9".to_string()));
    assert!(matches!(c.value, PropertyValue::Item(_)));
    let g = claim_coord("P170", 2_350_000, 48_850_000).unwrap();
    assert!(matches!(
        g.value,
        PropertyValue::Coord { latitude_e6: 48_850_000, longitude_e6: 2_350_000 }
    ));
}

#[test]
fn absent_claims_are_not_submitted() {
    let claims = vec![claim_string("P100", "a"), claim_string("P200", " "), claim_item("P300", "Q1")];
    let kept = submitted_claims(claims);
    assert_eq!(kept.len(), 2);
    assert_eq!(text_of(&kept[0]), ("P100".to_string(), "a".to_string()));
    assert_eq!(text_of(&kept[1]), ("P300".to_string(), "Q1".to_string()));
}

#[test]
fn requests_carry_target_label_and_clear_flag() {
    let r = create_request(
        ObjectType::Property(PropertyDataType::Coord),
        "Coordinate location",
        vec![claim_string("P100", "coordinate_location")],
    );
    assert!(matches!(r.target, EditTarget::New(ObjectType::Property(PropertyDataType::Coord))));
    assert_eq!(r.label.as_deref(), Some("Coordinate location"));
    assert_eq!(r.claims.len(), 1);
    assert!(!r.clear);
    let u = update_request("Q5", vec![claim_item("P600", "Q7"), None], true);
    assert!(matches!(&u.target, EditTarget::Existing(id) if id == "Q5"));
    assert!(u.label.is_none());
    assert_eq!(u.claims.len(), 1);
    assert!(u.clear);
}

#[test]
fn wire_names() {
    assert_eq!(PropertyDataType::String.to_string(), "string");
    assert_eq!(PropertyDataType::Item.to_string(), "wikibase-item");
    assert_eq!(PropertyDataType::Url.to_string(), "url");
    assert_eq!(PropertyDataType::Coord.to_string(), "globe-coordinate");
    assert_eq!(ObjectType::Item.to_string(), "item");
    assert_eq!(ObjectType::Property(PropertyDataType::Url).to_string(), "property");
}

#[test]
fn replace_and_join() {
    assert_eq!(replace_all("wdt:P100 wdt:P200", "wdt:", ""), "P100 P200");
    assert_eq!(replace_all("<http://a>", "<", ""), "http://a>");
    assert_eq!(replace_all("aaa", "aa", "b"), "ba");
    assert_eq!(join(&vec!["?a".to_string(), "?b".to_string()], " "), "?a ?b");
    assert_eq!(join(&vec![], " "), "");
}
