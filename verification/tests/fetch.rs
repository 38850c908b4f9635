use stargate_randomizer::FetchError;
use stargate_randomizer::FetchOutcome;
use stargate_randomizer::decode_episode;
use stargate_randomizer::interpret_response;

#[test]
fn success_reply_yields_the_record() {
    let r = interpret_response(200, "{\"name\":\"X\",\"overview\":\"Y\"}");
    match r {
        FetchOutcome::Success(rec) => {
            assert_eq!(rec.name, "X");
            assert_eq!(rec.overview, "Y");
            assert_eq!(rec.still_path, None);
        }
        FetchOutcome::Failure(err) => panic!("expected a record, got {:?}", err),
    }
}

#[test]
fn server_error_reply_yields_an_error_and_no_record() {
    let r = interpret_response(500, "{\"name\":\"X\",\"overview\":\"Y\"}");
    assert_eq!(r, FetchOutcome::Failure(FetchError::BadStatus(500)));
    assert!(!matches!(r, FetchOutcome::Success(_)));
}

#[test]
fn undecodable_body_yields_an_error() {
    let r = interpret_response(200, "not json at all");
    assert_eq!(r, FetchOutcome::Failure(FetchError::Undecodable));
}

#[test]
fn redirect_and_client_errors_are_not_success() {
    for status in [100u16, 301, 304, 400, 404, 503] {
        let r = interpret_response(status, "{\"name\":\"X\",\"overview\":\"Y\"}");
        assert_eq!(r, FetchOutcome::Failure(FetchError::BadStatus(status)));
    }
    for status in [200u16, 204, 299] {
        let r = interpret_response(status, "{\"name\":\"X\",\"overview\":\"Y\"}");
        assert!(matches!(r, FetchOutcome::Success(_)));
    }
}

#[test]
fn decode_reads_the_fields() {
    let rec = decode_episode(
        "{\"name\":\"Children of the Gods\",\"overview\":\"The team steps through.\",\"still_path\":\"/p.jpg\"}",
    )
    .unwrap();
    assert_eq!(rec.name, "Children of the Gods");
    assert_eq!(rec.overview, "The team steps through.");
    assert_eq!(rec.still_path.as_deref(), Some("/p.jpg"));
}

#[test]
fn decode_ignores_unknown_members() {
    let body = "{\"air_date\":\"1997-07-27\",\"episode_number\":1,\"name\":\"A\",\
                \"overview\":\"B\",\"vote_average\":8.1,\"crew\":[{\"job\":\"Director\"}]}";
    let rec = decode_episode(body).unwrap();
    assert_eq!(rec.name, "A");
    assert_eq!(rec.overview, "B");
    assert_eq!(rec.still_path, None);
}

#[test]
fn decode_requires_name_and_overview() {
    assert_eq!(decode_episode("{\"overview\":\"B\"}"), None);
    assert_eq!(decode_episode("{\"name\":\"A\"}"), None);
    assert_eq!(decode_episode("{}"), None);
    assert_eq!(decode_episode("{\"name\":1,\"overview\":\"B\"}"), None);
}

#[test]
fn decode_rejects_invalid_or_non_object_bodies() {
    assert_eq!(decode_episode(""), None);
    assert_eq!(decode_episode("{\"name\":\"A\",\"overview\":"), None);
    assert_eq!(decode_episode("[\"name\",\"overview\"]"), None);
    assert_eq!(decode_episode("\"name\""), None);
}

#[test]
fn decode_treats_null_still_path_as_absent() {
    let rec = decode_episode("{\"name\":\"A\",\"overview\":\"B\",\"still_path\":null}").unwrap();
    assert_eq!(rec.still_path, None);
}
