use generate_token::directory::{first_user, user_query, DirectoryQuery, DirectoryReply};
use generate_token::document::Document;
use generate_token::error::{IdentityFault, TokenError};
use generate_token::handler::{
    proceed, start, step, step_with_token, Action, Event, Pending, RequestContext, Response,
    Stage, NOT_API_GATEWAY_V1, STATUS_BAD_REQUEST, STATUS_OK,
};
use generate_token::identity::IdentityInfo;
use generate_token::notify::{Delivery, Settings};
use generate_token::profile::UserProfile;
use generate_token::provider::DirectoryDescriptor;
use generate_token::store::{PutItem, StoreReply};
use generate_token::token::is_token;

const ARN: &str = "arn:aws:sts::123:assumed-role/Analyst/sess1";
const PROVIDER: &str = "cognito-idp.us-east-1.amazonaws.com/us-east-1_AbCdEfGhI,cognito-idp.us-east-1.amazonaws.com/us-east-1_AbCdEfGhI:CognitoSignIn:0f0e0d0c-1111-4222-8333-444455556666";
const SUBJECT: &str = "0f0e0d0c-1111-4222-8333-444455556666";

fn identity(mode: &str) -> IdentityInfo {
    IdentityInfo {
        cognito_authentication_type: Some(mode.to_string()),
        cognito_authentication_provider: Some(PROVIDER.to_string()),
        user_arn: Some(ARN.to_string()),
        source_ip: Some("203.0.113.7".to_string()),
        ..IdentityInfo::default()
    }
}

fn settings(profile: &str, params: &str) -> Settings {
    Settings {
        should_get_application_user_profile: profile.to_string(),
        should_build_secure_connection_params: params.to_string(),
        project_name: "corvus".to_string(),
        stage: "prod".to_string(),
    }
}

fn user() -> UserProfile {
    UserProfile {
        user_create_date: "1650000000.25".to_string(),
        user_last_modified_date: "1650000001".to_string(),
        enabled: true,
        user_status: "CONFIRMED".to_string(),
        attributes: vec![
            ("sub".to_string(), SUBJECT.to_string()),
            ("email".to_string(), "analyst@example.com".to_string()),
        ],
    }
}

fn found() -> DirectoryReply {
    DirectoryReply::Users(vec![user()])
}

fn arrive(mode: &str) -> (Stage, Action) {
    step(Stage::Start, Event::Arrived(RequestContext::ApiGatewayV1(identity(mode))))
}

fn token_of(stage: &Stage) -> String {
    match stage {
        Stage::LookingUp(pending) => pending.token.clone(),
        Stage::Notifying(session, _) => session.token().clone(),
        Stage::Storing(token) => token.clone(),
        other => panic!("no token at {:?}", other),
    }
}

fn field<'a>(fields: &'a [(String, Document)], name: &str) -> &'a Document {
    &fields.iter().find(|f| f.0 == name).unwrap().1
}

fn key_of(put: &PutItem) -> &Document {
    field(&put.item, "pk")
}

/// Runs a request to its end, answering every query with `reply`, every
/// dispatch with `delivery` and every write with `store`. Returns the last
/// action and every action before it.
fn run(
    context: RequestContext,
    reply: DirectoryReply,
    config: Settings,
    delivery: Delivery,
    store: StoreReply,
) -> (Action, Vec<Action>) {
    let mut done = Vec::new();
    let (mut stage, mut action) = step(Stage::Start, Event::Arrived(context));
    for _ in 0..8 {
        let event = match &action {
            Action::Query(_) => Event::DirectoryReplied(reply.clone(), config.clone()),
            Action::Dispatch(_) => Event::Dispatched(delivery),
            Action::Put(_) => Event::StoreReplied(store),
            Action::Reply(_) | Action::Abort(_) | Action::Ignore => {
                assert_eq!(stage, Stage::Done);
                return (action, done);
            }
        };
        let (next_stage, next_action) = step(stage, event);
        done.push(action);
        stage = next_stage;
        action = next_action;
    }
    panic!("the request did not end");
}

fn dispatches(actions: &[Action]) -> usize {
    actions.iter().filter(|a| matches!(a, Action::Dispatch(_))).count()
}

fn writes(actions: &[Action]) -> usize {
    actions.iter().filter(|a| matches!(a, Action::Put(_))).count()
}

#[test]
fn unauthenticated_request_returns_a_token_and_stores_no_descriptor() {
    let (last, before) = run(
        RequestContext::ApiGatewayV1(identity("unauthenticated")),
        found(),
        settings("", ""),
        Delivery::Sent,
        StoreReply::Written,
    );
    let token = match last {
        Action::Reply(Response { status, body }) => {
            assert_eq!(status, 200);
            body
        }
        other => panic!("ended with {:?}", other),
    };
    assert_eq!(token.len(), 36);
    assert!(is_token(&token));
    assert_eq!(before.len(), 2);
    assert_eq!(dispatches(&before), 0);
    match &before[1] {
        Action::Put(put) => {
            assert_eq!(key_of(put), &Document::Text(token.clone()));
            assert_eq!(field(&put.item, "roleName"), &Document::Text("Analyst".to_string()));
            assert!(put.item.iter().all(|f| f.0 != "user_pool_info"));
            match field(&put.item, "identityInfo") {
                Document::Object(fields) => {
                    assert_eq!(
                        field(fields, "cognitoAuthenticationType"),
                        &Document::Text("unauthenticated".to_string())
                    );
                    assert_eq!(field(fields, "caller"), &Document::Text(String::new()));
                }
                other => panic!("identityInfo is {:?}", other),
            }
        }
        other => panic!("second action is {:?}", other),
    }
}

#[test]
fn unauthenticated_session_has_no_descriptor_even_with_the_flags_on() {
    let (stage, _) = arrive("unauthenticated");
    let (stage, action) = step(stage, Event::DirectoryReplied(found(), settings("true", "true")));
    match (&stage, &action) {
        (Stage::Notifying(session, waiting), Action::Dispatch(invocation)) => {
            assert_eq!(session.directory_descriptor(), None);
            assert_eq!(session.connection_type(), "unauthenticated");
            assert!(waiting.is_empty());
            assert_eq!(invocation.function_name, "corvus-prod-coreBuildSecureConnectionParams");
        }
        other => panic!("got {:?}", other),
    }
}

#[test]
fn authenticated_request_with_both_flags_dispatches_twice_then_stores() {
    let (last, before) = run(
        RequestContext::ApiGatewayV1(identity("authenticated")),
        found(),
        settings("true", "true"),
        Delivery::Sent,
        StoreReply::Written,
    );
    assert!(matches!(last, Action::Reply(Response { status: 200, .. })));
    assert_eq!(before.len(), 4);
    assert_eq!(dispatches(&before), 2);
    assert_eq!(writes(&before), 1);
    assert!(matches!(before[3], Action::Put(_)));
    let expected = ["corvus-prod-coreGetApplicationUserProfile", "corvus-prod-coreBuildSecureConnectionParams"];
    for (action, name) in before[1..3].iter().zip(expected) {
        match action {
            Action::Dispatch(invocation) => {
                assert_eq!(invocation.function_name, name);
                match &invocation.payload {
                    Document::Object(fields) => {
                        assert_eq!(
                            field(fields, "connection_type"),
                            &Document::Text("authenticated".to_string())
                        );
                        assert_eq!(
                            field(fields, "user_pool_info"),
                            &Document::List(vec![
                                Document::Text("us-east-1_AbCdEfGhI".to_string()),
                                Document::Text(SUBJECT.to_string()),
                            ])
                        );
                    }
                    other => panic!("payload is {:?}", other),
                }
            }
            other => panic!("expected a dispatch, got {:?}", other),
        }
    }
}

#[test]
fn authenticated_session_records_the_descriptor() {
    let (stage, _) = arrive("authenticated");
    let (stage, _) = step(stage, Event::DirectoryReplied(found(), settings("true", "")));
    match &stage {
        Stage::Notifying(session, _) => {
            assert_eq!(
                session.directory_descriptor(),
                Some(&DirectoryDescriptor {
                    directory_id: "us-east-1_AbCdEfGhI".to_string(),
                    subject_id: SUBJECT.to_string(),
                })
            );
            assert_eq!(session.role_name(), "Analyst");
            assert_eq!(session.attributes().get("email").map(|v| v.as_str()), Some("analyst@example.com"));
            assert_eq!(session.attributes().get("user_status").map(|v| v.as_str()), Some("CONFIRMED"));
        }
        other => panic!("stage is {:?}", other),
    }
}

#[test]
fn request_of_another_kind_gets_the_fixed_refusal() {
    let (last, before) = run(
        RequestContext::Other,
        found(),
        settings("true", "true"),
        Delivery::Sent,
        StoreReply::Written,
    );
    assert_eq!(
        last,
        Action::Reply(Response { status: 400, body: "Not an ApiGatewayV1 request".to_string() })
    );
    assert!(before.is_empty());
    assert_eq!(STATUS_BAD_REQUEST, 400);
    assert_eq!(STATUS_OK, 200);
    assert_eq!(NOT_API_GATEWAY_V1, "Not an ApiGatewayV1 request");
}

#[test]
fn no_user_in_the_directory_fails_the_request_before_any_write() {
    let (last, before) = run(
        RequestContext::ApiGatewayV1(identity("authenticated")),
        DirectoryReply::Users(vec![]),
        settings("true", "true"),
        Delivery::Sent,
        StoreReply::Written,
    );
    assert_eq!(last, Action::Abort(TokenError::UserNotFound));
    assert_eq!(before.len(), 1);
    assert!(matches!(before[0], Action::Query(_)));
    assert_eq!(writes(&before), 0);
    assert_eq!(dispatches(&before), 0);
}

#[test]
fn a_failed_lookup_fails_the_request_before_any_write() {
    let (last, before) = run(
        RequestContext::ApiGatewayV1(identity("authenticated")),
        DirectoryReply::Failed,
        settings("true", "true"),
        Delivery::Sent,
        StoreReply::Written,
    );
    assert_eq!(last, Action::Abort(TokenError::DirectoryLookup));
    assert_eq!(writes(&before) + dispatches(&before), 0);
}

#[test]
fn a_failed_write_fails_the_request() {
    let (last, before) = run(
        RequestContext::ApiGatewayV1(identity("unauthenticated")),
        found(),
        settings("", ""),
        Delivery::Sent,
        StoreReply::Failed,
    );
    assert_eq!(last, Action::Abort(TokenError::Persistence));
    assert_eq!(writes(&before), 1);
}

#[test]
fn failed_dispatches_do_not_keep_the_session_from_being_stored() {
    let (last, before) = run(
        RequestContext::ApiGatewayV1(identity("authenticated")),
        found(),
        settings("true", "true"),
        Delivery::Failed,
        StoreReply::Written,
    );
    assert!(matches!(last, Action::Reply(Response { status: 200, .. })));
    assert_eq!(dispatches(&before), 2);
    assert_eq!(writes(&before), 1);
}

#[test]
fn the_directory_is_asked_for_the_subject_in_its_pool() {
    let (stage, action) = arrive("unauthenticated");
    assert_eq!(
        action,
        Action::Query(DirectoryQuery {
            user_pool_id: "us-east-1_AbCdEfGhI".to_string(),
            filter: "sub = \"0f0e0d0c-1111-4222-8333-444455556666\"".to_string(),
            limit: 1,
        })
    );
    match stage {
        Stage::LookingUp(pending) => {
            assert!(is_token(&pending.token));
            assert_eq!(pending.role_name, "Analyst");
            assert_eq!(pending.identity_info, identity("unauthenticated"));
        }
        other => panic!("stage is {:?}", other),
    }
}

#[test]
fn the_token_in_the_response_is_the_one_that_was_stored() {
    let (stage, _) = arrive("unauthenticated");
    let issued = token_of(&stage);
    let (stage, action) = step(stage, Event::DirectoryReplied(found(), settings("", "")));
    assert_eq!(token_of(&stage), issued);
    match &action {
        Action::Put(put) => assert_eq!(key_of(put), &Document::Text(issued.clone())),
        other => panic!("action is {:?}", other),
    }
    let (stage, action) = step(stage, Event::StoreReplied(StoreReply::Written));
    assert_eq!(stage, Stage::Done);
    assert_eq!(action, Action::Reply(Response { status: 200, body: issued }));
}

#[test]
fn every_request_gets_a_token_of_its_own() {
    let (first, _) = arrive("authenticated");
    let (second, _) = arrive("authenticated");
    assert_ne!(token_of(&first), token_of(&second));
}

#[test]
fn an_identity_without_arn_provider_or_mode_is_malformed() {
    let cases = [
        (IdentityInfo { user_arn: None, ..identity("authenticated") }, IdentityFault::MissingArn),
        (
            IdentityInfo { user_arn: Some("arn:aws:iam::1:user/u".to_string()), ..identity("authenticated") },
            IdentityFault::NoRoleSegment,
        ),
        (
            IdentityInfo { cognito_authentication_provider: None, ..identity("authenticated") },
            IdentityFault::MissingProvider,
        ),
        (
            IdentityInfo {
                cognito_authentication_provider: Some("no pool".to_string()),
                ..identity("authenticated")
            },
            IdentityFault::NoDirectoryId,
        ),
        (
            IdentityInfo {
                cognito_authentication_provider: Some("us-east-1_AbCdEfGhI,none".to_string()),
                ..identity("authenticated")
            },
            IdentityFault::NoSubjectId,
        ),
        (
            IdentityInfo { cognito_authentication_type: None, ..identity("authenticated") },
            IdentityFault::MissingMode,
        ),
    ];
    for (broken, fault) in cases {
        let (stage, action) =
            step(Stage::Start, Event::Arrived(RequestContext::ApiGatewayV1(broken.clone())));
        assert_eq!(stage, Stage::Done);
        assert_eq!(action, Action::Abort(TokenError::MalformedIdentity(fault)));
        assert_eq!(
            start("t".to_string(), broken),
            Err(TokenError::MalformedIdentity(fault))
        );
    }
}

#[test]
fn an_empty_identity_fails_on_the_arn_first() {
    assert_eq!(
        start("t".to_string(), IdentityInfo::default()),
        Err(TokenError::MalformedIdentity(IdentityFault::MissingArn))
    );
}

#[test]
fn a_request_opens_under_the_token_it_is_given() {
    assert_eq!(
        start("my-token".to_string(), identity("authenticated")),
        Ok(Pending {
            token: "my-token".to_string(),
            identity_info: identity("authenticated"),
            role_name: "Analyst".to_string(),
            descriptor: DirectoryDescriptor {
                directory_id: "us-east-1_AbCdEfGhI".to_string(),
                subject_id: SUBJECT.to_string(),
            },
        })
    );
}

#[test]
fn a_step_with_a_given_token_issues_that_token() {
    let (stage, _) = step_with_token(
        "given".to_string(),
        Stage::Start,
        Event::Arrived(RequestContext::ApiGatewayV1(identity("unauthenticated"))),
    );
    assert_eq!(token_of(&stage), "given");
    let (stage, action) = step_with_token(
        "unused".to_string(),
        stage,
        Event::DirectoryReplied(found(), settings("", "")),
    );
    assert_eq!(stage, Stage::Storing("given".to_string()));
    assert!(matches!(action, Action::Put(_)));
}

#[test]
fn a_pending_request_without_a_mode_is_failed_once_the_user_is_found() {
    let pending = Pending {
        token: "t".to_string(),
        identity_info: IdentityInfo { cognito_authentication_type: None, ..identity("x") },
        role_name: "Analyst".to_string(),
        descriptor: DirectoryDescriptor {
            directory_id: "pool".to_string(),
            subject_id: "subject".to_string(),
        },
    };
    let (stage, action) =
        step(Stage::LookingUp(pending), Event::DirectoryReplied(found(), settings("true", "true")));
    assert_eq!(stage, Stage::Done);
    assert_eq!(action, Action::Abort(TokenError::MalformedIdentity(IdentityFault::MissingMode)));
}

#[test]
fn events_out_of_turn_are_ignored() {
    let (stage, action) = step(Stage::Start, Event::StoreReplied(StoreReply::Written));
    assert_eq!((stage, action), (Stage::Start, Action::Ignore));
    let (stage, action) = step(Stage::Start, Event::Dispatched(Delivery::Sent));
    assert_eq!((stage, action), (Stage::Start, Action::Ignore));
    let (stage, action) =
        step(Stage::Storing("t".to_string()), Event::DirectoryReplied(found(), settings("", "")));
    assert_eq!((stage, action), (Stage::Storing("t".to_string()), Action::Ignore));
    let (looking, _) = arrive("authenticated");
    let token = token_of(&looking);
    let (stage, action) = step(looking, Event::StoreReplied(StoreReply::Written));
    assert_eq!(action, Action::Ignore);
    assert_eq!(token_of(&stage), token);
    let (stage, action) = step(stage, Event::Arrived(RequestContext::Other));
    assert_eq!(action, Action::Ignore);
    assert!(matches!(stage, Stage::LookingUp(_)));
}

#[test]
fn nothing_follows_the_end_of_a_request() {
    let events = [
        Event::Arrived(RequestContext::Other),
        Event::Arrived(RequestContext::ApiGatewayV1(identity("authenticated"))),
        Event::DirectoryReplied(found(), settings("true", "true")),
        Event::Dispatched(Delivery::Failed),
        Event::StoreReplied(StoreReply::Written),
    ];
    for event in events {
        assert_eq!(step(Stage::Done, event), (Stage::Done, Action::Ignore));
    }
}

#[test]
fn proceeding_without_invocations_writes_the_session() {
    let (stage, _) = arrive("authenticated");
    let (stage, _) = step(stage, Event::DirectoryReplied(found(), settings("true", "")));
    match stage {
        Stage::Notifying(session, waiting) => {
            assert!(waiting.is_empty());
            let token = session.token().clone();
            let (stage, action) = proceed(session, waiting);
            assert_eq!(stage, Stage::Storing(token));
            assert!(matches!(action, Action::Put(_)));
        }
        other => panic!("stage is {:?}", other),
    }
}

#[test]
fn the_query_for_a_descriptor() {
    let query = user_query(&DirectoryDescriptor {
        directory_id: "eu-west-1_Pool".to_string(),
        subject_id: "abc".to_string(),
    });
    assert_eq!(query.user_pool_id, "eu-west-1_Pool");
    assert_eq!(query.filter, "sub = \"abc\"");
    assert_eq!(query.limit, 1);
}

#[test]
fn the_first_user_of_a_reply() {
    let mut second = user();
    second.user_status = "ARCHIVED".to_string();
    assert_eq!(first_user(DirectoryReply::Users(vec![user(), second])), Ok(user()));
    assert_eq!(first_user(DirectoryReply::Users(vec![])), Err(TokenError::UserNotFound));
    assert_eq!(first_user(DirectoryReply::Failed), Err(TokenError::DirectoryLookup));
}
