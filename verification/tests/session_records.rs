use generate_token::attributes::NormalizedAttributes;
use generate_token::document::Document;
use generate_token::error::{IdentityFault, TokenError};
use generate_token::identity::IdentityInfo;
use generate_token::notify::{
    delivery_error, invoke_serverless_core_event, notifications, Delivery, Invocation, Settings,
};
use generate_token::provider::DirectoryDescriptor;
use generate_token::session::{SessionRecord, AUTHENTICATED};
use generate_token::store::{store_token, PutItem, TOKEN_TABLE};

const TOKEN: &str = "0f0e0d0c-1111-4222-8333-444455556666";

fn text(value: &str) -> Document {
    Document::Text(value.to_string())
}

fn field(name: &str, value: Document) -> (String, Document) {
    (name.to_string(), value)
}

fn identity(mode: Option<&str>) -> IdentityInfo {
    IdentityInfo {
        account_id: Some("123".to_string()),
        cognito_authentication_type: mode.map(|m| m.to_string()),
        cognito_authentication_provider: Some("provider".to_string()),
        user_arn: Some("arn:aws:sts::123:assumed-role/Analyst/sess1".to_string()),
        ..IdentityInfo::default()
    }
}

fn descriptor() -> DirectoryDescriptor {
    DirectoryDescriptor {
        directory_id: "us-east-1_Pool".to_string(),
        subject_id: "subject-1".to_string(),
    }
}

fn attributes() -> NormalizedAttributes {
    let mut attributes = NormalizedAttributes::new();
    attributes.insert("enabled".to_string(), "true".to_string());
    attributes.insert("email".to_string(), "a@b.c".to_string());
    attributes
}

fn session(mode: &str) -> SessionRecord {
    SessionRecord::assemble(
        TOKEN.to_string(),
        identity(Some(mode)),
        "Analyst".to_string(),
        descriptor(),
        attributes(),
    )
    .unwrap()
}

fn settings(profile: &str, params: &str) -> Settings {
    Settings {
        should_get_application_user_profile: profile.to_string(),
        should_build_secure_connection_params: params.to_string(),
        project_name: "corvus".to_string(),
        stage: "dev".to_string(),
    }
}

fn identity_payload(mode: &str) -> Document {
    Document::Object(vec![
        field("cognitoIdentityPoolId", Document::Null),
        field("accountId", text("123")),
        field("cognitoIdentityId", Document::Null),
        field("caller", Document::Null),
        field("apiKey", Document::Null),
        field("apiKeyId", Document::Null),
        field("accessKey", Document::Null),
        field("sourceIp", Document::Null),
        field("cognitoAuthenticationType", text(mode)),
        field("cognitoAuthenticationProvider", text("provider")),
        field("userArn", text("arn:aws:sts::123:assumed-role/Analyst/sess1")),
        field("userAgent", Document::Null),
        field("user", Document::Null),
    ])
}

fn payload(mode: &str, user_pool_info: Document) -> Document {
    Document::Object(vec![
        field("token", text(TOKEN)),
        field("identity_info", identity_payload(mode)),
        field("role_name", text("Analyst")),
        field("user_pool_info", user_pool_info),
        field(
            "user_attributes",
            Document::Object(vec![field("enabled", text("true")), field("email", text("a@b.c"))]),
        ),
        field("connection_type", text(mode)),
    ])
}

#[test]
fn an_authenticated_session_keeps_the_descriptor() {
    let session = session("authenticated");
    assert_eq!(session.connection_type(), "authenticated");
    assert_eq!(session.directory_descriptor(), Some(&descriptor()));
    assert!(session.is_authenticated());
    assert_eq!(AUTHENTICATED, "authenticated");
}

#[test]
fn an_unauthenticated_session_drops_the_descriptor() {
    let session = session("unauthenticated");
    assert_eq!(session.connection_type(), "unauthenticated");
    assert_eq!(session.directory_descriptor(), None);
    assert!(!session.is_authenticated());
}

#[test]
fn any_other_mode_drops_the_descriptor_and_is_kept_as_it_came() {
    for mode in ["", "Authenticated", "authenticated "] {
        let session = session(mode);
        assert_eq!(session.connection_type(), mode);
        assert_eq!(session.directory_descriptor(), None);
    }
}

#[test]
fn a_session_holds_what_it_was_made_of() {
    let session = session("authenticated");
    assert_eq!(session.token(), TOKEN);
    assert_eq!(session.role_name(), "Analyst");
    assert_eq!(session.identity_info(), &identity(Some("authenticated")));
    assert_eq!(session.attributes(), &attributes());
}

#[test]
fn an_identity_without_a_mode_gives_no_session() {
    let result = SessionRecord::assemble(
        TOKEN.to_string(),
        identity(None),
        "Analyst".to_string(),
        descriptor(),
        attributes(),
    );
    assert_eq!(result, Err(TokenError::MalformedIdentity(IdentityFault::MissingMode)));
}

#[test]
fn payload_of_an_authenticated_session() {
    assert_eq!(
        session("authenticated").payload(),
        payload(
            "authenticated",
            Document::List(vec![text("us-east-1_Pool"), text("subject-1")])
        )
    );
}

#[test]
fn payload_of_an_unauthenticated_session() {
    assert_eq!(session("unauthenticated").payload(), payload("unauthenticated", text("")));
}

#[test]
fn the_item_of_a_session() {
    let put = store_token(&session("authenticated"));
    assert_eq!(TOKEN_TABLE, "lpb-benchmark-corvus-auth-tokens-mcguire");
    assert_eq!(
        put,
        PutItem {
            table_name: "lpb-benchmark-corvus-auth-tokens-mcguire".to_string(),
            item: vec![
                field("pk", text(TOKEN)),
                field(
                    "identityInfo",
                    Document::Object(vec![
                        field("cognitoIdentityPoolId", text("")),
                        field("accountId", text("123")),
                        field("cognitoIdentityId", text("")),
                        field("caller", text("")),
                        field("apiKey", text("")),
                        field("apiKeyId", text("")),
                        field("accessKey", text("")),
                        field("sourceIp", text("")),
                        field("cognitoAuthenticationType", text("authenticated")),
                        field("cognitoAuthenticationProvider", text("provider")),
                        field("userArn", text("arn:aws:sts::123:assumed-role/Analyst/sess1")),
                        field("userAgent", text("")),
                        field("user", text("")),
                    ])
                ),
                field("roleName", text("Analyst")),
                field(
                    "userAttributes",
                    Document::Object(vec![field(
                        "Attributes",
                        Document::Object(vec![
                            field("enabled", text("true")),
                            field("email", text("a@b.c")),
                        ])
                    )])
                ),
            ],
        }
    );
}

#[test]
fn the_item_is_keyed_by_the_token_and_drops_no_identity_field() {
    let put = store_token(&session("unauthenticated"));
    assert_eq!(put.item[0], field("pk", text(TOKEN)));
    match &put.item[1].1 {
        Document::Object(fields) => {
            assert_eq!(fields.len(), 13);
            let empty = fields.iter().filter(|f| f.1 == text("")).count();
            assert_eq!(empty, 9);
            assert!(fields.iter().all(|f| matches!(f.1, Document::Text(_))));
        }
        other => panic!("identityInfo is {:?}", other),
    }
}

#[test]
fn the_item_does_not_hold_the_descriptor() {
    let put = store_token(&session("authenticated"));
    let names: Vec<&str> = put.item.iter().map(|f| f.0.as_str()).collect();
    assert_eq!(names, vec!["pk", "identityInfo", "roleName", "userAttributes"]);
}

#[test]
fn the_function_of_an_event_is_named_by_project_stage_and_event() {
    let invocation =
        invoke_serverless_core_event("coreEvent", &session("authenticated"), &settings("", ""));
    assert_eq!(invocation.function_name, "corvus-dev-coreEvent");
    assert_eq!(invocation.invocation_type, "Event");
    assert_eq!(invocation.payload, session("authenticated").payload());
}

#[test]
fn the_function_name_takes_the_values_as_they_are() {
    let mut raw = settings("", "");
    raw.project_name = String::new();
    raw.stage = "pre\"prod".to_string();
    let invocation = invoke_serverless_core_event("e", &session("authenticated"), &raw);
    assert_eq!(invocation.function_name, "-pre\"prod-e");
}

fn names(invocations: &[Invocation]) -> Vec<&str> {
    invocations.iter().map(|i| i.function_name.as_str()).collect()
}

#[test]
fn both_flags_on_and_authenticated_gives_two_invocations() {
    let invocations = notifications(&session("authenticated"), &settings("true", "true"));
    assert_eq!(
        names(&invocations),
        vec!["corvus-dev-coreGetApplicationUserProfile", "corvus-dev-coreBuildSecureConnectionParams"]
    );
    assert_eq!(invocations[0].payload, session("authenticated").payload());
    assert_eq!(invocations[1].payload, session("authenticated").payload());
}

#[test]
fn the_profile_is_fetched_for_authenticated_sessions_only() {
    let invocations = notifications(&session("unauthenticated"), &settings("true", "true"));
    assert_eq!(names(&invocations), vec!["corvus-dev-coreBuildSecureConnectionParams"]);
    let invocations = notifications(&session("unauthenticated"), &settings("true", ""));
    assert!(invocations.is_empty());
}

#[test]
fn each_flag_stands_alone() {
    let authenticated = session("authenticated");
    assert_eq!(
        names(&notifications(&authenticated, &settings("true", "false"))),
        vec!["corvus-dev-coreGetApplicationUserProfile"]
    );
    assert_eq!(
        names(&notifications(&authenticated, &settings("", "true"))),
        vec!["corvus-dev-coreBuildSecureConnectionParams"]
    );
    assert!(notifications(&authenticated, &settings("", "")).is_empty());
}

#[test]
fn a_flag_is_on_only_as_true_in_lower_case() {
    let authenticated = session("authenticated");
    for value in ["TRUE", "True", "1", "yes", " true", "true "] {
        assert!(notifications(&authenticated, &settings(value, value)).is_empty());
    }
}

#[test]
fn a_failed_dispatch_is_an_error_for_the_log() {
    assert_eq!(delivery_error(Delivery::Sent), None);
    assert_eq!(delivery_error(Delivery::Failed), Some(TokenError::Notification));
}
