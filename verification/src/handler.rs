//! One request, step by step.
//!
//! The handler of a request is a state machine. The caller starts at
//! [`Stage::Start`], hands over what happened as an [`Event`], and performs
//! the [`Action`] that [`step`] answers with: a directory query, a
//! downstream dispatch, a write to the session store, or the end of the
//! request. Nothing is dispatched or written before the identity has been
//! parsed and the user found, and nothing after the request has ended.

use crate::arn::{extract_role_name, role_name_of};
use crate::directory::{
    first_user, first_user_of, query_for, user_query, DirectoryQuery, DirectoryQueryView,
    DirectoryReply, DirectoryReplyView,
};
use crate::error::{IdentityFault, TokenError};
use crate::identity::{IdentityInfo, IdentityInfoView};
use crate::notify::{
    notifications, notifications_of, Delivery, Invocation, InvocationView, Settings, SettingsView,
};
use crate::profile::{normalize_cognito_user_attributes, normalized};
use crate::provider::{
    descriptor_of, extract_user_pool_info, DirectoryDescriptor, DirectoryDescriptorView,
};
use crate::session::{assembled, SessionRecord, SessionRecordView};
use crate::store::{put_of, store_token, PutItem, PutItemView, StoreReply};
use crate::token::{fresh_token, is_token_text};
use vstd::prelude::*;

verus! {

/// The body of the response to a request that did not come through the
/// expected gateway integration.
pub const NOT_API_GATEWAY_V1: &'static str = "Not an ApiGatewayV1 request";

/// The status of a response that carries a token.
pub const STATUS_OK: u16 = 200;

/// The status of the response to a request of the wrong kind.
pub const STATUS_BAD_REQUEST: u16 = 400;

/// How a request reached the handler.
#[derive(Clone, Debug, PartialEq, Eq)]
pub enum RequestContext {
    /// Through the gateway integration that supplies the caller's identity.
    ApiGatewayV1(IdentityInfo),
    /// In any other way.
    Other,
}

/// What a [`RequestContext`] holds.
pub enum RequestContextView {
    ApiGatewayV1(IdentityInfoView),
    Other,
}

impl View for RequestContext {
    type V = RequestContextView;

    open spec fn view(&self) -> RequestContextView {
        match self {
            RequestContext::ApiGatewayV1(identity) => RequestContextView::ApiGatewayV1(identity@),
            RequestContext::Other => RequestContextView::Other,
        }
    }
}

/// The answer to a request.
#[derive(Clone, Debug, PartialEq, Eq)]
pub struct Response {
    pub status: u16,
    pub body: String,
}

/// What a [`Response`] holds.
pub struct ResponseView {
    pub status: u16,
    pub body: Seq<char>,
}

impl View for Response {
    type V = ResponseView;

    open spec fn view(&self) -> ResponseView {
        ResponseView { status: self.status, body: self.body@ }
    }
}

/// A request whose identity has been parsed and whose user is being looked
/// up.
#[derive(Clone, Debug, PartialEq, Eq)]
pub struct Pending {
    pub token: String,
    pub identity_info: IdentityInfo,
    pub role_name: String,
    pub descriptor: DirectoryDescriptor,
}

/// What a [`Pending`] request holds.
pub struct PendingView {
    pub token: Seq<char>,
    pub identity_info: IdentityInfoView,
    pub role_name: Seq<char>,
    pub descriptor: DirectoryDescriptorView,
}

impl View for Pending {
    type V = PendingView;

    open spec fn view(&self) -> PendingView {
        PendingView {
            token: self.token@,
            identity_info: self.identity_info@,
            role_name: self.role_name@,
            descriptor: self.descriptor@,
        }
    }
}

/// Where a request stands.
#[derive(Debug, PartialEq, Eq)]
pub enum Stage {
    /// Nothing has happened yet.
    Start,
    /// The directory has been asked for the user.
    LookingUp(Pending),
    /// A downstream function is being told of the session; the invocations
    /// listed are still to go out.
    Notifying(SessionRecord, Vec<Invocation>),
    /// The session is being written under the given token.
    Storing(String),
    /// The request has ended.
    Done,
}

/// What a [`Stage`] holds.
pub enum StageView {
    Start,
    LookingUp(PendingView),
    Notifying(SessionRecordView, Seq<InvocationView>),
    Storing(Seq<char>),
    Done,
}

impl View for Stage {
    type V = StageView;

    open spec fn view(&self) -> StageView {
        match self {
            Stage::Start => StageView::Start,
            Stage::LookingUp(pending) => StageView::LookingUp(pending@),
            Stage::Notifying(session, waiting) => StageView::Notifying(
                session@,
                waiting.deep_view(),
            ),
            Stage::Storing(token) => StageView::Storing(token@),
            Stage::Done => StageView::Done,
        }
    }
}

/// What happened outside.
#[derive(Clone, Debug, PartialEq, Eq)]
pub enum Event {
    /// A request came in.
    Arrived(RequestContext),
    /// The directory answered. The settings are those in force now.
    DirectoryReplied(DirectoryReply, Settings),
    /// A downstream dispatch went out, or failed to.
    Dispatched(Delivery),
    /// The session store answered.
    StoreReplied(StoreReply),
}

/// What an [`Event`] holds.
pub enum EventView {
    Arrived(RequestContextView),
    DirectoryReplied(DirectoryReplyView, SettingsView),
    Dispatched(Delivery),
    StoreReplied(StoreReply),
}

impl View for Event {
    type V = EventView;

    open spec fn view(&self) -> EventView {
        match self {
            Event::Arrived(context) => EventView::Arrived(context@),
            Event::DirectoryReplied(reply, settings) => EventView::DirectoryReplied(
                reply@,
                settings@,
            ),
            Event::Dispatched(delivery) => EventView::Dispatched(*delivery),
            Event::StoreReplied(reply) => EventView::StoreReplied(*reply),
        }
    }
}

/// What the caller is to do next.
#[derive(Debug, PartialEq, Eq)]
pub enum Action {
    /// Ask the directory, then hand over [`Event::DirectoryReplied`].
    Query(DirectoryQuery),
    /// Dispatch the invocation without waiting for its result, then hand
    /// over [`Event::Dispatched`].
    Dispatch(Invocation),
    /// Write the item, then hand over [`Event::StoreReplied`].
    Put(PutItem),
    /// Answer the request. It has ended.
    Reply(Response),
    /// Fail the request with the error. It has ended.
    Abort(TokenError),
    /// Nothing: the event was not expected at this stage.
    Ignore,
}

/// What an [`Action`] holds.
pub enum ActionView {
    Query(DirectoryQueryView),
    Dispatch(InvocationView),
    Put(PutItemView),
    Reply(ResponseView),
    Abort(TokenError),
    Ignore,
}

impl View for Action {
    type V = ActionView;

    open spec fn view(&self) -> ActionView {
        match self {
            Action::Query(query) => ActionView::Query(query@),
            Action::Dispatch(invocation) => ActionView::Dispatch(invocation@),
            Action::Put(put) => ActionView::Put(put@),
            Action::Reply(response) => ActionView::Reply(response@),
            Action::Abort(error) => ActionView::Abort(*error),
            Action::Ignore => ActionView::Ignore,
        }
    }
}

/// The request that an identity opens under `token`: the role from the ARN,
/// the directory descriptor from the provider. The ARN, the provider and
/// the authentication mode must all be there, and the first two must parse.
pub open spec fn started(token: Seq<char>, identity: IdentityInfoView) -> Result<
    PendingView,
    TokenError,
> {
    if identity.user_arn is None {
        Err(TokenError::MalformedIdentity(IdentityFault::MissingArn))
    } else if role_name_of(identity.user_arn->0) is Err {
        Err(role_name_of(identity.user_arn->0)->Err_0)
    } else if identity.cognito_authentication_provider is None {
        Err(TokenError::MalformedIdentity(IdentityFault::MissingProvider))
    } else if descriptor_of(identity.cognito_authentication_provider->0) is Err {
        Err(descriptor_of(identity.cognito_authentication_provider->0)->Err_0)
    } else if identity.cognito_authentication_type is None {
        Err(TokenError::MalformedIdentity(IdentityFault::MissingMode))
    } else {
        Ok(
            PendingView {
                token,
                identity_info: identity,
                role_name: role_name_of(identity.user_arn->0)->Ok_0,
                descriptor: descriptor_of(identity.cognito_authentication_provider->0)->Ok_0,
            },
        )
    }
}

/// What follows once a session is assembled: the first invocation that is
/// still to go out, or the write where none is left.
pub open spec fn proceeding(session: SessionRecordView, waiting: Seq<InvocationView>) -> (
    StageView,
    ActionView,
) {
    if waiting.len() == 0 {
        (StageView::Storing(session.token), ActionView::Put(put_of(session)))
    } else {
        (StageView::Notifying(session, waiting.drop_first()), ActionView::Dispatch(waiting[0]))
    }
}

/// The response to a request that came in some other way.
pub open spec fn refusal() -> ResponseView {
    ResponseView { status: STATUS_BAD_REQUEST, body: NOT_API_GATEWAY_V1@ }
}

/// The response that hands out a token.
pub open spec fn success(token: Seq<char>) -> ResponseView {
    ResponseView { status: STATUS_OK, body: token }
}

/// Whether the step from `stage` on `event` issues a new token.
pub open spec fn issues_token(stage: StageView, event: EventView) -> bool {
    stage is Start && event matches EventView::Arrived(RequestContextView::ApiGatewayV1(_))
}

/// The stage and the action that follow from `stage` on `event`, with
/// `token` as the token to issue where one is issued.
pub open spec fn step_of(token: Seq<char>, stage: StageView, event: EventView) -> (
    StageView,
    ActionView,
) {
    match (stage, event) {
        (StageView::Start, EventView::Arrived(RequestContextView::Other)) => (
            StageView::Done,
            ActionView::Reply(refusal()),
        ),
        (StageView::Start, EventView::Arrived(RequestContextView::ApiGatewayV1(identity))) => {
            match started(token, identity) {
                Ok(pending) => (
                    StageView::LookingUp(pending),
                    ActionView::Query(query_for(pending.descriptor)),
                ),
                Err(error) => (StageView::Done, ActionView::Abort(error)),
            }
        },
        (StageView::LookingUp(pending), EventView::DirectoryReplied(reply, settings)) => {
            match first_user_of(reply) {
                Err(error) => (StageView::Done, ActionView::Abort(error)),
                Ok(user) => match assembled(
                    pending.token,
                    pending.identity_info,
                    pending.role_name,
                    pending.descriptor,
                    normalized(user),
                ) {
                    Err(error) => (StageView::Done, ActionView::Abort(error)),
                    Ok(session) => proceeding(session, notifications_of(session, settings)),
                },
            }
        },
        (StageView::Notifying(session, waiting), EventView::Dispatched(_)) => proceeding(
            session,
            waiting,
        ),
        (StageView::Storing(stored), EventView::StoreReplied(StoreReply::Written)) => (
            StageView::Done,
            ActionView::Reply(success(stored)),
        ),
        (StageView::Storing(_), EventView::StoreReplied(StoreReply::Failed)) => (
            StageView::Done,
            ActionView::Abort(TokenError::Persistence),
        ),
        _ => (stage, ActionView::Ignore),
    }
}

/// The view of a result that holds a pending request.
pub open spec fn pending_result(result: Result<Pending, TokenError>) -> Result<
    PendingView,
    TokenError,
> {
    match result {
        Ok(pending) => Ok(pending@),
        Err(error) => Err(error),
    }
}

/// Opens a request for `identity_info` under `token`.
pub fn start(token: String, identity_info: IdentityInfo) -> (pending: Result<Pending, TokenError>)
    ensures
        pending_result(pending) == started(token@, identity_info@),
{
    let role_name = match &identity_info.user_arn {
        None => { return Err(TokenError::MalformedIdentity(IdentityFault::MissingArn)); },
        Some(user_arn) => match extract_role_name(user_arn.as_str()) {
            Ok(role_name) => role_name,
            Err(error) => { return Err(error); },
        },
    };
    let descriptor = match &identity_info.cognito_authentication_provider {
        None => { return Err(TokenError::MalformedIdentity(IdentityFault::MissingProvider)); },
        Some(provider) => match extract_user_pool_info(provider.as_str()) {
            Ok(descriptor) => descriptor,
            Err(error) => { return Err(error); },
        },
    };
    if identity_info.cognito_authentication_type.is_none() {
        return Err(TokenError::MalformedIdentity(IdentityFault::MissingMode));
    }
    Ok(Pending { token, identity_info, role_name, descriptor })
}

/// Sends out the next invocation for `session`, or writes the session
/// where none is left.
pub fn proceed(session: SessionRecord, waiting: Vec<Invocation>) -> (next: (Stage, Action))
    ensures
        (next.0@, next.1@) == proceeding(session@, waiting.deep_view()),
{
    let mut waiting = waiting;
    if waiting.len() == 0 {
        let put = store_token(&session);
        (Stage::Storing(session.token().clone()), Action::Put(put))
    } else {
        let ghost before = waiting.deep_view();
        let first = waiting.remove(0);
        proof {
            assert(waiting.deep_view() =~= before.drop_first());
        }
        (Stage::Notifying(session, waiting), Action::Dispatch(first))
    }
}

/// The step from `stage` on `event`, with `token` as the token to issue
/// where one is issued.
pub fn step_with_token(token: String, stage: Stage, event: Event) -> (next: (Stage, Action))
    ensures
        (next.0@, next.1@) == step_of(token@, stage@, event@),
{
    match stage {
        Stage::Start => match event {
            Event::Arrived(RequestContext::Other) => (
                Stage::Done,
                Action::Reply(
                    Response { status: STATUS_BAD_REQUEST, body: NOT_API_GATEWAY_V1.to_owned() },
                ),
            ),
            Event::Arrived(RequestContext::ApiGatewayV1(identity_info)) => {
                match start(token, identity_info) {
                    Ok(pending) => {
                        let query = user_query(&pending.descriptor);
                        (Stage::LookingUp(pending), Action::Query(query))
                    },
                    Err(error) => (Stage::Done, Action::Abort(error)),
                }
            },
            _ => (Stage::Start, Action::Ignore),
        },
        Stage::LookingUp(pending) => match event {
            Event::DirectoryReplied(reply, settings) => {
                let user = match first_user(reply) {
                    Ok(user) => user,
                    Err(error) => { return (Stage::Done, Action::Abort(error)); },
                };
                let attributes = normalize_cognito_user_attributes(&user);
                let assembled = SessionRecord::assemble(
                    pending.token,
                    pending.identity_info,
                    pending.role_name,
                    pending.descriptor,
                    attributes,
                );
                match assembled {
                    Ok(session) => {
                        let waiting = notifications(&session, &settings);
                        proceed(session, waiting)
                    },
                    Err(error) => (Stage::Done, Action::Abort(error)),
                }
            },
            _ => (Stage::LookingUp(pending), Action::Ignore),
        },
        Stage::Notifying(session, waiting) => match event {
            Event::Dispatched(_) => proceed(session, waiting),
            _ => (Stage::Notifying(session, waiting), Action::Ignore),
        },
        Stage::Storing(stored) => match event {
            Event::StoreReplied(StoreReply::Written) => (
                Stage::Done,
                Action::Reply(Response { status: STATUS_OK, body: stored }),
            ),
            Event::StoreReplied(StoreReply::Failed) => (
                Stage::Done,
                Action::Abort(TokenError::Persistence),
            ),
            _ => (Stage::Storing(stored), Action::Ignore),
        },
        Stage::Done => (Stage::Done, Action::Ignore),
    }
}

/// The step from `stage` on `event`.
///
/// A request that arrives through the gateway is given a fresh token; which
/// one is not determined, only that it is spelled like a random UUID. Every
/// other step is determined by the stage and the event.
pub fn step(stage: Stage, event: Event) -> (next: (Stage, Action))
    ensures
        issues_token(stage@, event@) ==> exists|token: Seq<char>|
            is_token_text(token) && (next.0@, next.1@) == #[trigger] step_of(
                token,
                stage@,
                event@,
            ),
        !issues_token(stage@, event@) ==> (next.0@, next.1@) == step_of(
            Seq::empty(),
            stage@,
            event@,
        ),
{
    let token = match (&stage, &event) {
        (Stage::Start, Event::Arrived(RequestContext::ApiGatewayV1(_))) => fresh_token(),
        _ => String::new(),
    };
    step_with_token(token, stage, event)
}

/// The token matters to one step only, the one that issues it: every other
/// step is the same whatever token is named.
pub proof fn lemma_token_matters_on_arrival_only(
    first: Seq<char>,
    second: Seq<char>,
    stage: StageView,
    event: EventView,
)
    requires
        !issues_token(stage, event),
    ensures
        step_of(first, stage, event) == step_of(second, stage, event),
{
}

/// A request ends with its answer: a step that replies or aborts leaves
/// the request at [`Stage::Done`], and from there every event is ignored.
/// So nothing is queried, dispatched or written after the end.
pub proof fn lemma_end_is_final(token: Seq<char>, stage: StageView, event: EventView)
    ensures
        step_of(token, stage, event).1 is Reply || step_of(token, stage, event).1 is Abort
            ==> step_of(token, stage, event).0 is Done,
        stage is Done ==> step_of(token, stage, event) == (StageView::Done, ActionView::Ignore),
{
}

/// Nothing is dispatched and nothing is written before the directory has
/// answered with a user: a dispatch or a write follows only on the
/// directory's reply or on an earlier dispatch. A request that fails before
/// that leaves no trace.
pub proof fn lemma_no_effect_before_lookup(token: Seq<char>, stage: StageView, event: EventView)
    ensures
        step_of(token, stage, event).1 is Dispatch || step_of(token, stage, event).1 is Put ==> (
        stage is LookingUp && event is DirectoryReplied) || (stage is Notifying
            && event is Dispatched),
        stage is LookingUp ==> (event matches EventView::DirectoryReplied(reply, _)
            ==> first_user_of(reply) is Err ==> step_of(token, stage, event) == (
            StageView::Done,
            ActionView::Abort(first_user_of(reply)->Err_0),
        )),
{
}

/// Whether a dispatch went out or failed makes no difference to what
/// follows: the remaining invocations go out and the session is written
/// all the same.
pub proof fn lemma_delivery_is_ignored(token: Seq<char>, stage: StageView)
    ensures
        step_of(token, stage, EventView::Dispatched(Delivery::Sent)) == step_of(
            token,
            stage,
            EventView::Dispatched(Delivery::Failed),
        ),
{
}

/// A request is only ever failed with an error that is fatal: a failed
/// notification fails no request.
pub proof fn lemma_abort_is_fatal(token: Seq<char>, stage: StageView, event: EventView)
    ensures
        step_of(token, stage, event).1 matches ActionView::Abort(error) ==> error.is_fatal(),
{
}

/// Every session that a step brings into being records the directory
/// descriptor if and only if its connection type is `authenticated`: the
/// session that is being notified of, and the one behind each write.
pub proof fn lemma_sessions_are_well_formed(token: Seq<char>, stage: StageView, event: EventView)
    requires
        stage matches StageView::Notifying(session, _) ==> session.well_formed(),
    ensures
        step_of(token, stage, event).0 matches StageView::Notifying(session, _)
            ==> session.well_formed(),
        stage is LookingUp ==> (step_of(token, stage, event).1 matches ActionView::Put(put)
            ==> exists|session: SessionRecordView|
            session.well_formed() && put == #[trigger] put_of(session)),
{
}

} // verus!
