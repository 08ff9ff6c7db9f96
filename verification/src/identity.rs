//! The identity context that the gateway attaches to a request.

use crate::text::copy_optional;
use vstd::prelude::*;

verus! {

/// The caller's identity as the gateway supplies it. Every field may be
/// absent.
#[derive(Clone, Debug, PartialEq, Eq)]
pub struct IdentityInfo {
    pub cognito_identity_pool_id: Option<String>,
    pub account_id: Option<String>,
    pub cognito_identity_id: Option<String>,
    pub caller: Option<String>,
    pub api_key: Option<String>,
    pub api_key_id: Option<String>,
    pub access_key: Option<String>,
    pub source_ip: Option<String>,
    /// The authentication mode: `authenticated` or `unauthenticated`.
    pub cognito_authentication_type: Option<String>,
    /// The provider descriptor, which names the user pool and the subject.
    pub cognito_authentication_provider: Option<String>,
    /// The ARN of the role that the caller assumed.
    pub user_arn: Option<String>,
    pub user_agent: Option<String>,
    pub user: Option<String>,
}

/// What an [`IdentityInfo`] holds.
pub struct IdentityInfoView {
    pub cognito_identity_pool_id: Option<Seq<char>>,
    pub account_id: Option<Seq<char>>,
    pub cognito_identity_id: Option<Seq<char>>,
    pub caller: Option<Seq<char>>,
    pub api_key: Option<Seq<char>>,
    pub api_key_id: Option<Seq<char>>,
    pub access_key: Option<Seq<char>>,
    pub source_ip: Option<Seq<char>>,
    pub cognito_authentication_type: Option<Seq<char>>,
    pub cognito_authentication_provider: Option<Seq<char>>,
    pub user_arn: Option<Seq<char>>,
    pub user_agent: Option<Seq<char>>,
    pub user: Option<Seq<char>>,
}

impl View for IdentityInfo {
    type V = IdentityInfoView;

    open spec fn view(&self) -> IdentityInfoView {
        IdentityInfoView {
            cognito_identity_pool_id: self.cognito_identity_pool_id.deep_view(),
            account_id: self.account_id.deep_view(),
            cognito_identity_id: self.cognito_identity_id.deep_view(),
            caller: self.caller.deep_view(),
            api_key: self.api_key.deep_view(),
            api_key_id: self.api_key_id.deep_view(),
            access_key: self.access_key.deep_view(),
            source_ip: self.source_ip.deep_view(),
            cognito_authentication_type: self.cognito_authentication_type.deep_view(),
            cognito_authentication_provider: self.cognito_authentication_provider.deep_view(),
            user_arn: self.user_arn.deep_view(),
            user_agent: self.user_agent.deep_view(),
            user: self.user.deep_view(),
        }
    }
}

impl DeepView for IdentityInfo {
    type V = IdentityInfoView;

    open spec fn deep_view(&self) -> IdentityInfoView {
        self@
    }
}

/// The fields of an identity under the names they are written with, in the
/// order of declaration. An absent field keeps its place.
pub open spec fn identity_fields(identity: IdentityInfoView) -> Seq<(Seq<char>, Option<Seq<char>>)> {
    seq![
        ("cognitoIdentityPoolId"@, identity.cognito_identity_pool_id),
        ("accountId"@, identity.account_id),
        ("cognitoIdentityId"@, identity.cognito_identity_id),
        ("caller"@, identity.caller),
        ("apiKey"@, identity.api_key),
        ("apiKeyId"@, identity.api_key_id),
        ("accessKey"@, identity.access_key),
        ("sourceIp"@, identity.source_ip),
        ("cognitoAuthenticationType"@, identity.cognito_authentication_type),
        ("cognitoAuthenticationProvider"@, identity.cognito_authentication_provider),
        ("userArn"@, identity.user_arn),
        ("userAgent"@, identity.user_agent),
        ("user"@, identity.user),
    ]
}

impl Default for IdentityInfo {
    /// An identity with every field absent.
    fn default() -> (identity: IdentityInfo)
        ensures
            forall|i: int| 0 <= i < 13 ==> (#[trigger] identity_fields(identity@)[i]).1 is None,
    {
        IdentityInfo {
            cognito_identity_pool_id: None,
            account_id: None,
            cognito_identity_id: None,
            caller: None,
            api_key: None,
            api_key_id: None,
            access_key: None,
            source_ip: None,
            cognito_authentication_type: None,
            cognito_authentication_provider: None,
            user_arn: None,
            user_agent: None,
            user: None,
        }
    }
}

impl IdentityInfo {
    /// A copy of the identity.
    pub fn duplicate(&self) -> (copy: IdentityInfo)
        ensures
            copy@ == self@,
    {
        IdentityInfo {
            cognito_identity_pool_id: copy_optional(&self.cognito_identity_pool_id),
            account_id: copy_optional(&self.account_id),
            cognito_identity_id: copy_optional(&self.cognito_identity_id),
            caller: copy_optional(&self.caller),
            api_key: copy_optional(&self.api_key),
            api_key_id: copy_optional(&self.api_key_id),
            access_key: copy_optional(&self.access_key),
            source_ip: copy_optional(&self.source_ip),
            cognito_authentication_type: copy_optional(&self.cognito_authentication_type),
            cognito_authentication_provider: copy_optional(
                &self.cognito_authentication_provider,
            ),
            user_arn: copy_optional(&self.user_arn),
            user_agent: copy_optional(&self.user_agent),
            user: copy_optional(&self.user),
        }
    }

    /// The fields under the names they are written with: thirteen pairs,
    /// absent fields included.
    pub fn fields(&self) -> (fields: Vec<(String, Option<String>)>)
        ensures
            fields.deep_view() == identity_fields(self@),
    {
        let mut fields: Vec<(String, Option<String>)> = Vec::new();
        fields.push(("cognitoIdentityPoolId".to_owned(), copy_optional(&self.cognito_identity_pool_id)));
        fields.push(("accountId".to_owned(), copy_optional(&self.account_id)));
        fields.push(("cognitoIdentityId".to_owned(), copy_optional(&self.cognito_identity_id)));
        fields.push(("caller".to_owned(), copy_optional(&self.caller)));
        fields.push(("apiKey".to_owned(), copy_optional(&self.api_key)));
        fields.push(("apiKeyId".to_owned(), copy_optional(&self.api_key_id)));
        fields.push(("accessKey".to_owned(), copy_optional(&self.access_key)));
        fields.push(("sourceIp".to_owned(), copy_optional(&self.source_ip)));
        fields.push(("cognitoAuthenticationType".to_owned(), copy_optional(&self.cognito_authentication_type)));
        fields.push(("cognitoAuthenticationProvider".to_owned(), copy_optional(&self.cognito_authentication_provider)));
        fields.push(("userArn".to_owned(), copy_optional(&self.user_arn)));
        fields.push(("userAgent".to_owned(), copy_optional(&self.user_agent)));
        fields.push(("user".to_owned(), copy_optional(&self.user)));
        fields
    }
}

} // verus!
