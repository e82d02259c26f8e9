use transit_topo::api::{
    conflict_id, create_result, ApiError, ApiResponse, ApiResponseContent, Error, InsertEntity,
    Message,
};
use transit_topo::entity::{read_entity, RawEntity};

fn error_response(info: &str, messages: Vec<Message>) -> ApiResponse {
    ApiResponse {
        content: ApiResponseContent::Error(Error {
            code: "modification-failed".to_string(),
            info: info.to_string(),
            messages,
        }),
    }
}

fn conflict(params: Vec<&str>) -> Message {
    Message {
        name: "wikibase-validator-label-conflict".to_string(),
        parameters: params.into_iter().map(|p| p.to_string()).collect(),
    }
}

#[test]
fn created_entity_gives_its_id() {
    let r = ApiResponse { content: ApiResponseContent::Entity(InsertEntity { id: "P120".to_string() }) };
    assert_eq!(create_result(r, "GTFS id"), Ok("P120".to_string()));
}

#[test]
fn label_conflict_names_existing_entity() {
    let r = error_response(
        "conflict",
        vec![conflict(vec!["GTFS id", "en", "[[Property:P300|P300]]"])],
    );
    assert_eq!(
        create_result(r, "GTFS id"),
        Err(ApiError::PropertyAlreadyExists { label: "GTFS id".to_string(), id: "P300".to_string() })
    );
}

#[test]
fn unparsable_conflict_is_generic_error() {
    let r = error_response("label taken", vec![conflict(vec!["GTFS id", "en", "no link here"])]);
    assert_eq!(
        create_result(r, "GTFS id"),
        Err(ApiError::GenericError("conflict while inserting: label taken".to_string()))
    );
    let r = error_response("label taken", vec![conflict(vec![])]);
    assert_eq!(
        create_result(r, "GTFS id"),
        Err(ApiError::GenericError("conflict while inserting: label taken".to_string()))
    );
}

#[test]
fn other_error_is_generic_error() {
    let other = Message { name: "some-other".to_string(), parameters: vec!["[[Item:Q1|Q1]]".to_string()] };
    let r = error_response("bad token", vec![other]);
    assert_eq!(
        create_result(r, "x"),
        Err(ApiError::GenericError("Error while inserting: bad token".to_string()))
    );
}

#[test]
fn conflict_id_reads_last_parameter() {
    assert_eq!(conflict_id(&conflict(vec!["[[Item:Q1|Q1]]", "[[Item:Q2|Q2]]"])), Some("Q2".to_string()));
    assert_eq!(conflict_id(&conflict(vec![])), None);
}

#[test]
fn error_for_status_turns_error_answer_into_error() {
    let ok = ApiResponse { content: ApiResponseContent::Entity(InsertEntity { id: "Q1".to_string() }) };
    assert!(ok.error_for_status().is_ok());
    let err = error_response("no such entity", vec![]);
    match err.error_for_status() {
        Err(ApiError::GenericError(m)) => {
            assert_eq!(m, "Api error 'modification-failed': no such entity ")
        }
        _ => panic!("expected a generic error"),
    }
}

#[test]
fn entity_entries_are_checked() {
    assert!(matches!(read_entity("Q1", None), Err(ApiError::GenericError(_))));
    let missing = RawEntity { id: "Q1".to_string(), claims: None, english_label: None, missing: true };
    assert_eq!(read_entity("Q1", Some(missing)).unwrap_err(), ApiError::EntityNotFound("Q1".to_string()));
    let unlabelled =
        RawEntity { id: "Q1".to_string(), claims: Some(vec![]), english_label: None, missing: false };
    assert!(matches!(read_entity("Q1", Some(unlabelled)), Err(ApiError::GenericError(_))));
    let good = RawEntity {
        id: "Q1".to_string(),
        claims: Some(vec![]),
        english_label: Some("Bus".to_string()),
        missing: false,
    };
    let e = read_entity("Q1", Some(good)).unwrap();
    assert_eq!(e.label, "Bus");
    assert_eq!(e.id, "Q1");
}
