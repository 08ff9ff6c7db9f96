//! Downstream functions that are told of a new session.

use crate::document::{Document, DocumentView};
use crate::error::TokenError;
use crate::session::{payload_of, SessionRecord, SessionRecordView, AUTHENTICATED};
use crate::text::same_text;
use vstd::prelude::*;

verus! {

/// The event that has a downstream function fetch the user's application
/// profile.
pub const GET_APPLICATION_USER_PROFILE: &'static str = "coreGetApplicationUserProfile";

/// The event that has a downstream function build the parameters of a
/// secure connection.
pub const BUILD_SECURE_CONNECTION_PARAMS: &'static str = "coreBuildSecureConnectionParams";

/// The value of a flag that is switched on.
pub const ENABLED: &'static str = "true";

/// How a downstream function is invoked: without waiting for its result.
pub const INVOCATION_TYPE: &'static str = "Event";

/// What the deployment configures.
#[derive(Clone, Debug, PartialEq, Eq)]
pub struct Settings {
    /// [`ENABLED`] to have the application profile fetched for
    /// authenticated sessions.
    pub should_get_application_user_profile: String,
    /// [`ENABLED`] to have secure connection parameters built.
    pub should_build_secure_connection_params: String,
    /// The project that the downstream functions belong to.
    pub project_name: String,
    /// The stage that they are deployed to.
    pub stage: String,
}

/// What [`Settings`] hold.
pub struct SettingsView {
    pub should_get_application_user_profile: Seq<char>,
    pub should_build_secure_connection_params: Seq<char>,
    pub project_name: Seq<char>,
    pub stage: Seq<char>,
}

impl View for Settings {
    type V = SettingsView;

    open spec fn view(&self) -> SettingsView {
        SettingsView {
            should_get_application_user_profile: self.should_get_application_user_profile@,
            should_build_secure_connection_params: self.should_build_secure_connection_params@,
            project_name: self.project_name@,
            stage: self.stage@,
        }
    }
}

/// One call of a downstream function.
#[derive(Debug, PartialEq, Eq)]
pub struct Invocation {
    pub function_name: String,
    pub invocation_type: String,
    pub payload: Document,
}

/// What an [`Invocation`] holds.
pub struct InvocationView {
    pub function_name: Seq<char>,
    pub invocation_type: Seq<char>,
    pub payload: DocumentView,
}

impl View for Invocation {
    type V = InvocationView;

    open spec fn view(&self) -> InvocationView {
        InvocationView {
            function_name: self.function_name@,
            invocation_type: self.invocation_type@,
            payload: self.payload@,
        }
    }
}

impl DeepView for Invocation {
    type V = InvocationView;

    open spec fn deep_view(&self) -> InvocationView {
        self@
    }
}

/// Whether a dispatch went out.
#[derive(Clone, Copy, Debug, PartialEq, Eq, Structural)]
pub enum Delivery {
    Sent,
    Failed,
}

/// The name of the function that handles an event:
/// `<project>-<stage>-<event>`.
pub open spec fn function_name_of(settings: SettingsView, event_name: Seq<char>) -> Seq<char> {
    settings.project_name + "-"@ + settings.stage + "-"@ + event_name
}

/// The invocation that tells the handler of `event_name` of a session.
pub open spec fn invocation_of(
    event_name: Seq<char>,
    session: SessionRecordView,
    settings: SettingsView,
) -> InvocationView {
    InvocationView {
        function_name: function_name_of(settings, event_name),
        invocation_type: INVOCATION_TYPE@,
        payload: payload_of(session),
    }
}

/// The invocations that a new session calls for, in order: the profile
/// fetch for an authenticated session where its flag is on, then the
/// connection parameters where theirs is on, whatever the session.
pub open spec fn notifications_of(session: SessionRecordView, settings: SettingsView) -> Seq<
    InvocationView,
> {
    let profile = if session.connection_type == AUTHENTICATED@
        && settings.should_get_application_user_profile == ENABLED@ {
        seq![invocation_of(GET_APPLICATION_USER_PROFILE@, session, settings)]
    } else {
        Seq::empty()
    };
    let params = if settings.should_build_secure_connection_params == ENABLED@ {
        seq![invocation_of(BUILD_SECURE_CONNECTION_PARAMS@, session, settings)]
    } else {
        Seq::empty()
    };
    profile + params
}

/// The invocation that tells the handler of `event_name` of the session
/// `payload`: the function `<project>-<stage>-<event_name>`, not waited
/// for.
pub fn invoke_serverless_core_event(
    event_name: &str,
    payload: &SessionRecord,
    settings: &Settings,
) -> (invocation: Invocation)
    ensures
        invocation@ == invocation_of(event_name@, payload@, settings@),
{
    let mut function_name = settings.project_name.clone();
    function_name.append("-");
    function_name.append(settings.stage.as_str());
    function_name.append("-");
    function_name.append(event_name);
    Invocation {
        function_name,
        invocation_type: INVOCATION_TYPE.to_owned(),
        payload: payload.payload(),
    }
}

/// The invocations that `session` calls for under `settings`.
pub fn notifications(session: &SessionRecord, settings: &Settings) -> (invocations: Vec<
    Invocation,
>)
    ensures
        invocations.deep_view() == notifications_of(session@, settings@),
{
    let mut invocations: Vec<Invocation> = Vec::new();
    if session.is_authenticated() && same_text(
        settings.should_get_application_user_profile.as_str(),
        ENABLED,
    ) {
        invocations.push(
            invoke_serverless_core_event(GET_APPLICATION_USER_PROFILE, session, settings),
        );
    }
    if same_text(settings.should_build_secure_connection_params.as_str(), ENABLED) {
        invocations.push(
            invoke_serverless_core_event(BUILD_SECURE_CONNECTION_PARAMS, session, settings),
        );
    }
    invocations
}

/// What a dispatch leaves to report: a failed one is an error for the log,
/// and for the log only.
pub fn delivery_error(delivery: Delivery) -> (error: Option<TokenError>)
    ensures
        error == match delivery {
            Delivery::Sent => None::<TokenError>,
            Delivery::Failed => Some(TokenError::Notification),
        },
{
    match delivery {
        Delivery::Sent => None,
        Delivery::Failed => Some(TokenError::Notification),
    }
}

/// The two flags stand alone: the connection parameters are built for any
/// session whose flag is on, the profile is fetched only for an
/// authenticated one. A session calls for two invocations at most.
pub proof fn lemma_flags_stand_alone(session: SessionRecordView, settings: SettingsView)
    ensures
        notifications_of(session, settings).len() <= 2,
        settings.should_build_secure_connection_params == ENABLED@ ==> notifications_of(
            session,
            settings,
        ).last() == invocation_of(BUILD_SECURE_CONNECTION_PARAMS@, session, settings),
        session.connection_type != AUTHENTICATED@ ==> notifications_of(session, settings).len()
            == if settings.should_build_secure_connection_params == ENABLED@ {
            1nat
        } else {
            0nat
        },
        settings.should_get_application_user_profile != ENABLED@
            && settings.should_build_secure_connection_params != ENABLED@ ==> notifications_of(
            session,
            settings,
        ).len() == 0,
{
}

} // verus!
