use base64::Engine;
use skinproxy::api::{ApiError, GetUuid, Profile, Property, SuccessOrError};
use skinproxy::error::Error;
use skinproxy::pipeline::{
    find_textures_value, process_profile, resolve_identifier, Action, Event, Pipeline, Stage,
};

fn b64(payload: &str) -> String {
    base64::engine::general_purpose::STANDARD.encode(payload.as_bytes())
}

fn prop(name: &str, value: &str) -> Property {
    Property {
        name: name.to_owned(),
        value: value.to_owned(),
    }
}

fn profile_with(props: Vec<Property>) -> Profile {
    Profile { properties: props }
}

fn notch_blob() -> String {
    b64(r#"{"textures":{"SKIN":{"url":"https://textures.example/abc.png"}}}"#)
}

#[test]
fn end_to_end_notch_streams_the_skin() {
    let mut run = Pipeline::new("Notch".to_owned());
    assert_eq!(run.stage(), Stage::Start);

    let action = run.on_event(Event::GatePassed);
    assert_eq!(action, Action::IssueLookup("Notch".to_owned()));
    assert_eq!(run.stage(), Stage::RateGatePassed);

    let uuids = vec![GetUuid {
        id: "069a79f444e94726a5befca90e38aaf5".to_owned(),
    }];
    let action = run.on_event(Event::Lookup(SuccessOrError::Success(uuids)));
    assert_eq!(
        action,
        Action::FetchProfile("069a79f444e94726a5befca90e38aaf5".to_owned())
    );
    assert_eq!(run.stage(), Stage::IdentifierResolved);

    let profile = profile_with(vec![prop("textures", &notch_blob())]);
    let action = run.on_event(Event::Profile(SuccessOrError::Success(profile)));
    assert_eq!(
        action,
        Action::OpenResource("https://textures.example/abc.png".to_owned())
    );
    assert_eq!(run.stage(), Stage::BlobDecoded);

    let action = run.on_event(Event::ResourceOpened);
    assert_eq!(action, Action::Stream);
    assert_eq!(run.stage(), Stage::Streaming);

    run.finish();
    assert_eq!(run.stage(), Stage::Done);
}

#[test]
fn resolving_twice_with_unchanged_upstream_is_identical() {
    let run_once = || {
        let mut run = Pipeline::new("Notch".to_owned());
        let mut actions = Vec::new();
        actions.push(run.on_event(Event::GatePassed));
        let uuids = vec![GetUuid {
            id: "069a79f444e94726a5befca90e38aaf5".to_owned(),
        }];
        actions.push(run.on_event(Event::Lookup(SuccessOrError::Success(uuids))));
        let profile = profile_with(vec![prop("textures", &notch_blob())]);
        actions.push(run.on_event(Event::Profile(SuccessOrError::Success(profile))));
        actions.push(run.on_event(Event::ResourceOpened));
        actions
    };
    assert_eq!(run_once(), run_once());
}

#[test]
fn empty_lookup_fails_noplayer_and_stops() {
    let mut run = Pipeline::new("nobody".to_owned());
    run.on_event(Event::GatePassed);
    let action = run.on_event(Event::Lookup(SuccessOrError::Success(vec![])));
    assert_eq!(action, Action::Fail(Error::NoPlayer));
    assert_eq!(run.stage(), Stage::Failed);
}

#[test]
fn profile_without_textures_fails_noskin_before_any_decode() {
    // The one attribute's value is not base64 at all: were decoding
    // attempted, the failure would be Base64, not NoSkin.
    let profile = profile_with(vec![prop("cape", "!!!not base64!!!")]);
    let mut run = Pipeline::new("Notch".to_owned());
    run.on_event(Event::GatePassed);
    run.on_event(Event::Lookup(SuccessOrError::Success(vec![GetUuid {
        id: "069a79f444e94726a5befca90e38aaf5".to_owned(),
    }])));
    let action = run.on_event(Event::Profile(SuccessOrError::Success(profile)));
    assert_eq!(action, Action::Fail(Error::NoSkin));
    assert_eq!(run.stage(), Stage::Failed);
}

#[test]
fn bad_base64_fails_decode_and_never_opens_the_resource() {
    let profile = profile_with(vec![prop("textures", "!!!not base64!!!")]);
    let mut run = Pipeline::new("Notch".to_owned());
    run.on_event(Event::GatePassed);
    run.on_event(Event::Lookup(SuccessOrError::Success(vec![GetUuid {
        id: "069a79f444e94726a5befca90e38aaf5".to_owned(),
    }])));
    let action = run.on_event(Event::Profile(SuccessOrError::Success(profile)));
    assert_eq!(action, Action::Fail(Error::Base64));
    assert_eq!(run.stage(), Stage::Failed);
}

#[test]
fn blob_that_is_not_json_fails_json() {
    let profile = profile_with(vec![prop("textures", &b64("not json at all"))]);
    let result = process_profile(&profile);
    assert_eq!(result, Err(Error::Json));
}

#[test]
fn blob_without_textures_member_fails_json() {
    let profile = profile_with(vec![prop("textures", &b64(r#"{"other":{}}"#))]);
    let result = process_profile(&profile);
    assert_eq!(result, Err(Error::Json));
}

#[test]
fn blob_without_skin_entry_fails_noskin() {
    let profile = profile_with(vec![prop("textures", &b64(r#"{"textures":{}}"#))]);
    let result = process_profile(&profile);
    assert_eq!(result, Err(Error::NoSkin));
}

#[test]
fn blob_with_skin_but_no_url_fails_json() {
    let profile = profile_with(vec![prop("textures", &b64(r#"{"textures":{"SKIN":{}}}"#))]);
    let result = process_profile(&profile);
    assert_eq!(result, Err(Error::Json));
}

#[test]
fn first_textures_attribute_wins() {
    let profile = profile_with(vec![
        prop("cape", "irrelevant"),
        prop("textures", &b64(r#"{"textures":{"SKIN":{"url":"first"}}}"#)),
        prop("textures", &b64(r#"{"textures":{"SKIN":{"url":"second"}}}"#)),
    ]);
    let result = process_profile(&profile);
    assert_eq!(result.unwrap().url, "first".to_owned());
}

#[test]
fn find_textures_value_reports_the_attribute_value() {
    let profile = profile_with(vec![prop("a", "1"), prop("textures", "payload")]);
    assert_eq!(find_textures_value(&profile), Ok(&"payload".to_owned()));
    let bare = profile_with(vec![prop("a", "1")]);
    assert_eq!(find_textures_value(&bare), Err(Error::NoSkin));
}

#[test]
fn resolve_identifier_takes_the_first_match() {
    let uuids = vec![
        GetUuid {
            id: "first".to_owned(),
        },
        GetUuid {
            id: "second".to_owned(),
        },
    ];
    assert_eq!(resolve_identifier(uuids), Ok("first".to_owned()));
    assert_eq!(resolve_identifier(vec![]), Err(Error::NoPlayer));
}

#[test]
fn upstream_error_envelope_propagates_as_domain_error() {
    let envelope = ApiError {
        error: "TooManyRequestsException".to_owned(),
        error_message: "The client has sent too many requests".to_owned(),
    };
    let mut run = Pipeline::new("Notch".to_owned());
    run.on_event(Event::GatePassed);
    let action = run.on_event(Event::Lookup(SuccessOrError::Error(envelope.clone())));
    assert_eq!(
        action,
        Action::Fail(Error::Api(skinproxy::api::Error::Api(envelope)))
    );
    assert_eq!(run.stage(), Stage::Failed);
}

#[test]
fn transport_failure_ends_the_run() {
    let mut run = Pipeline::new("Notch".to_owned());
    run.on_event(Event::GatePassed);
    let action = run.on_event(Event::Transport);
    assert_eq!(action, Action::FailTransport);
    assert_eq!(run.stage(), Stage::Failed);
}

#[test]
fn into_success_unwraps_the_envelope() {
    let ok: SuccessOrError<u32> = SuccessOrError::Success(7);
    assert_eq!(ok.into_success(), Ok(7));

    let envelope = ApiError {
        error: "BadRequestException".to_owned(),
        error_message: "malformed name".to_owned(),
    };
    let err: SuccessOrError<u32> = SuccessOrError::Error(envelope.clone());
    assert_eq!(
        err.into_success(),
        Err(skinproxy::api::Error::Api(envelope))
    );
}

#[test]
fn status_codes_follow_the_taxonomy() {
    assert_eq!(Error::NoPlayer.status_code(), 404);
    assert_eq!(Error::NoSkin.status_code(), 404);
    assert_eq!(Error::Base64.status_code(), 500);
    assert_eq!(Error::Json.status_code(), 500);
    let api_err = Error::Api(skinproxy::api::Error::Api(ApiError {
        error: "e".to_owned(),
        error_message: "m".to_owned(),
    }));
    assert_eq!(api_err.status_code(), 500);
}
