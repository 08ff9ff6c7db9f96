//! The session record: what is known of a caller under one token.

use crate::attributes::NormalizedAttributes;
use crate::document::{text_fields, Document, DocumentView};
use crate::error::{IdentityFault, TokenError};
use crate::identity::{identity_fields, IdentityInfo, IdentityInfoView};
use crate::provider::{DirectoryDescriptor, DirectoryDescriptorView};
use crate::text::same_text;
use vstd::prelude::*;

verus! {

/// The authentication mode under which the directory descriptor is kept.
pub const AUTHENTICATED: &'static str = "authenticated";

/// One issued token with the identity data that belongs to it.
///
/// The directory descriptor is recorded exactly when the connection type is
/// [`AUTHENTICATED`].
#[derive(Debug, PartialEq, Eq)]
pub struct SessionRecord {
    token: String,
    identity_info: IdentityInfo,
    role_name: String,
    directory_descriptor: Option<DirectoryDescriptor>,
    attributes: NormalizedAttributes,
    connection_type: String,
}

/// What a [`SessionRecord`] holds.
pub struct SessionRecordView {
    pub token: Seq<char>,
    pub identity_info: IdentityInfoView,
    pub role_name: Seq<char>,
    pub directory_descriptor: Option<DirectoryDescriptorView>,
    pub attributes: Seq<(Seq<char>, Seq<char>)>,
    pub connection_type: Seq<char>,
}

impl SessionRecordView {
    /// The descriptor is there if and only if the session is authenticated.
    pub open spec fn well_formed(self) -> bool {
        self.directory_descriptor is Some <==> self.connection_type == AUTHENTICATED@
    }
}

impl View for SessionRecord {
    type V = SessionRecordView;

    closed spec fn view(&self) -> SessionRecordView {
        SessionRecordView {
            token: self.token@,
            identity_info: self.identity_info@,
            role_name: self.role_name@,
            directory_descriptor: self.directory_descriptor.deep_view(),
            attributes: self.attributes@,
            connection_type: self.connection_type@,
        }
    }
}

impl DeepView for SessionRecord {
    type V = SessionRecordView;

    open spec fn deep_view(&self) -> SessionRecordView {
        self@
    }
}

/// The record for a token and the parts resolved for it. The connection
/// type is the identity's authentication mode as it came; the descriptor is
/// kept only under [`AUTHENTICATED`]. An identity without a mode is
/// malformed.
pub open spec fn assembled(
    token: Seq<char>,
    identity: IdentityInfoView,
    role_name: Seq<char>,
    descriptor: DirectoryDescriptorView,
    attributes: Seq<(Seq<char>, Seq<char>)>,
) -> Result<SessionRecordView, TokenError> {
    match identity.cognito_authentication_type {
        None => Err(TokenError::MalformedIdentity(IdentityFault::MissingMode)),
        Some(mode) => Ok(
            SessionRecordView {
                token,
                identity_info: identity,
                role_name,
                directory_descriptor: if mode == AUTHENTICATED@ {
                    Some(descriptor)
                } else {
                    None
                },
                attributes,
                connection_type: mode,
            },
        ),
    }
}

/// Each field with its value as a text, or as no value where it is absent.
pub open spec fn optional_fields(fields: Seq<(Seq<char>, Option<Seq<char>>)>) -> Seq<
    (Seq<char>, DocumentView),
> {
    Seq::new(
        fields.len(),
        |i: int|
            (
                fields[i].0,
                match fields[i].1 {
                    Some(value) => DocumentView::Text(value),
                    None => DocumentView::Null,
                },
            ),
    )
}

/// A session as the payload of a downstream invocation.
pub open spec fn payload_of(session: SessionRecordView) -> DocumentView {
    DocumentView::Object(
        seq![
            ("token"@, DocumentView::Text(session.token)),
            (
                "identity_info"@,
                DocumentView::Object(optional_fields(identity_fields(session.identity_info))),
            ),
            ("role_name"@, DocumentView::Text(session.role_name)),
            (
                "user_pool_info"@,
                match session.directory_descriptor {
                    Some(descriptor) => DocumentView::List(
                        seq![
                            DocumentView::Text(descriptor.directory_id),
                            DocumentView::Text(descriptor.subject_id),
                        ],
                    ),
                    None => DocumentView::Text(Seq::empty()),
                },
            ),
            ("user_attributes"@, DocumentView::Object(text_fields(session.attributes))),
            ("connection_type"@, DocumentView::Text(session.connection_type)),
        ],
    )
}

/// The view of a result that holds a session record.
pub open spec fn session_result(result: Result<SessionRecord, TokenError>) -> Result<
    SessionRecordView,
    TokenError,
> {
    match result {
        Ok(session) => Ok(session@),
        Err(error) => Err(error),
    }
}

impl SessionRecord {
    #[verifier::type_invariant]
    spec fn descriptor_iff_authenticated(&self) -> bool {
        self.directory_descriptor is Some <==> self.connection_type@ == AUTHENTICATED@
    }

    /// Puts a session record together. Fails only on an identity that
    /// carries no authentication mode.
    pub fn assemble(
        token: String,
        identity_info: IdentityInfo,
        role_name: String,
        descriptor: DirectoryDescriptor,
        attributes: NormalizedAttributes,
    ) -> (session: Result<SessionRecord, TokenError>)
        ensures
            session_result(session) == assembled(
                token@,
                identity_info@,
                role_name@,
                descriptor@,
                attributes@,
            ),
            session matches Ok(record) ==> record@.well_formed(),
    {
        let connection_type = match &identity_info.cognito_authentication_type {
            Some(mode) => mode.clone(),
            None => { return Err(TokenError::MalformedIdentity(IdentityFault::MissingMode)); },
        };
        let directory_descriptor = if same_text(connection_type.as_str(), AUTHENTICATED) {
            Some(descriptor)
        } else {
            None
        };
        Ok(
            SessionRecord {
                token,
                identity_info,
                role_name,
                directory_descriptor,
                attributes,
                connection_type,
            },
        )
    }

    /// The token, the key of the record.
    pub fn token(&self) -> (token: &String)
        ensures
            token@ == self@.token,
    {
        &self.token
    }

    /// The identity as the gateway supplied it.
    pub fn identity_info(&self) -> (identity: &IdentityInfo)
        ensures
            identity@ == self@.identity_info,
    {
        &self.identity_info
    }

    /// The name of the role that the caller assumed.
    pub fn role_name(&self) -> (role_name: &String)
        ensures
            role_name@ == self@.role_name,
    {
        &self.role_name
    }

    /// The user's place in the directory; present exactly in an
    /// authenticated session.
    pub fn directory_descriptor(&self) -> (descriptor: Option<&DirectoryDescriptor>)
        ensures
            descriptor.deep_view() == self@.directory_descriptor,
            descriptor is Some <==> self@.connection_type == AUTHENTICATED@,
            self@.well_formed(),
    {
        proof {
            use_type_invariant(self);
        }
        self.directory_descriptor.as_ref()
    }

    /// The user's normalised attributes.
    pub fn attributes(&self) -> (attributes: &NormalizedAttributes)
        ensures
            attributes@ == self@.attributes,
    {
        &self.attributes
    }

    /// The authentication mode as the identity carried it.
    pub fn connection_type(&self) -> (mode: &String)
        ensures
            mode@ == self@.connection_type,
    {
        &self.connection_type
    }

    /// Whether the session is an authenticated one.
    pub fn is_authenticated(&self) -> (authenticated: bool)
        ensures
            authenticated == (self@.connection_type == AUTHENTICATED@),
            authenticated == self@.directory_descriptor is Some,
    {
        proof {
            use_type_invariant(self);
        }
        self.directory_descriptor.is_some()
    }

    /// The session as the payload of a downstream invocation.
    pub fn payload(&self) -> (payload: Document)
        ensures
            payload@ == payload_of(self@),
    {
        let identity = self.identity_info.fields();
        let mut written: Vec<(String, Document)> = Vec::new();
        let mut i: usize = 0;
        while i < identity.len()
            invariant
                i <= identity.len(),
                written.len() == i,
                forall|k: int|
                    0 <= k < i ==> (#[trigger] written[k]).deep_view() == optional_fields(
                        identity.deep_view(),
                    )[k],
            decreases identity.len() - i,
        {
            let value = match &identity[i].1 {
                Some(text) => Document::Text(text.clone()),
                None => Document::Null,
            };
            written.push((identity[i].0.clone(), value));
            i = i + 1;
        }
        proof {
            assert(written.deep_view() =~= optional_fields(
                identity_fields(self@.identity_info),
            ));
        }
        let user_pool_info = match &self.directory_descriptor {
            Some(descriptor) => {
                let mut pair: Vec<Document> = Vec::new();
                pair.push(Document::Text(descriptor.directory_id.clone()));
                pair.push(Document::Text(descriptor.subject_id.clone()));
                proof {
                    assert(pair.deep_view() =~= seq![
                        DocumentView::Text(descriptor@.directory_id),
                        DocumentView::Text(descriptor@.subject_id),
                    ]);
                }
                Document::list(pair)
            },
            None => Document::text(""),
        };
        let mut fields: Vec<(String, Document)> = Vec::new();
        fields.push(("token".to_owned(), Document::Text(self.token.clone())));
        fields.push(("identity_info".to_owned(), Document::object(written)));
        fields.push(("role_name".to_owned(), Document::Text(self.role_name.clone())));
        fields.push(("user_pool_info".to_owned(), user_pool_info));
        fields.push(
            ("user_attributes".to_owned(), Document::text_object(self.attributes.entries())),
        );
        fields.push(("connection_type".to_owned(), Document::Text(self.connection_type.clone())));
        let payload = Document::object(fields);
        proof {
            reveal_strlit("");
            assert(""@ =~= Seq::<char>::empty());
            assert(payload@->Object_0 =~= payload_of(self@)->Object_0);
        }
        payload
    }
}

/// Whatever the parts, a record that can be put together keeps the
/// descriptor if and only if its connection type is [`AUTHENTICATED`].
pub proof fn lemma_descriptor_iff_authenticated(
    token: Seq<char>,
    identity: IdentityInfoView,
    role_name: Seq<char>,
    descriptor: DirectoryDescriptorView,
    attributes: Seq<(Seq<char>, Seq<char>)>,
)
    ensures
        assembled(token, identity, role_name, descriptor, attributes) matches Ok(session)
            ==> session.well_formed() && (session.directory_descriptor is Some
            ==> session.directory_descriptor == Some(descriptor)),
{
}

} // verus!
