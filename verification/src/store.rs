//! The item under which a session is written to the session store.

use crate::document::{field_of, text_fields, Document, DocumentView};
use crate::identity::identity_fields;
use crate::session::{SessionRecord, SessionRecordView};
use vstd::prelude::*;

verus! {

/// The table that holds the sessions.
pub const TOKEN_TABLE: &'static str = "lpb-benchmark-corvus-auth-tokens-mcguire";

/// A write to the session store: the item replaces whatever the table holds
/// under the same key.
#[derive(Debug, PartialEq, Eq)]
pub struct PutItem {
    pub table_name: String,
    /// The attributes of the item by name. `pk` is the key.
    pub item: Vec<(String, Document)>,
}

/// What a [`PutItem`] holds.
pub struct PutItemView {
    pub table_name: Seq<char>,
    pub item: Seq<(Seq<char>, DocumentView)>,
}

impl View for PutItem {
    type V = PutItemView;

    open spec fn view(&self) -> PutItemView {
        PutItemView { table_name: self.table_name@, item: self.item.deep_view() }
    }
}

impl DeepView for PutItem {
    type V = PutItemView;

    open spec fn deep_view(&self) -> PutItemView {
        self@
    }
}

/// What the session store answered to a write.
#[derive(Clone, Copy, Debug, PartialEq, Eq, Structural)]
pub enum StoreReply {
    Written,
    Failed,
}

/// Each field with its value, or with the empty text where it is absent.
pub open spec fn present_or_empty(fields: Seq<(Seq<char>, Option<Seq<char>>)>) -> Seq<
    (Seq<char>, Seq<char>),
> {
    Seq::new(
        fields.len(),
        |i: int|
            (
                fields[i].0,
                match fields[i].1 {
                    Some(value) => value,
                    None => Seq::empty(),
                },
            ),
    )
}

/// The item of a session: the token as the key `pk`, the identity as a map
/// of texts under `identityInfo`, the role under `roleName`, and the
/// attributes as a map of texts under `Attributes` inside `userAttributes`.
pub open spec fn item_of(session: SessionRecordView) -> Seq<(Seq<char>, DocumentView)> {
    seq![
        ("pk"@, DocumentView::Text(session.token)),
        (
            "identityInfo"@,
            DocumentView::Object(
                text_fields(present_or_empty(identity_fields(session.identity_info))),
            ),
        ),
        ("roleName"@, DocumentView::Text(session.role_name)),
        (
            "userAttributes"@,
            DocumentView::Object(
                seq![("Attributes"@, DocumentView::Object(text_fields(session.attributes)))],
            ),
        ),
    ]
}

/// The write that stores a session.
pub open spec fn put_of(session: SessionRecordView) -> PutItemView {
    PutItemView { table_name: TOKEN_TABLE@, item: item_of(session) }
}

/// The write that stores `session` in [`TOKEN_TABLE`] under its token.
/// Every field of the identity is written, an absent one as the empty text.
pub fn store_token(session: &SessionRecord) -> (put: PutItem)
    ensures
        put@ == put_of(session@),
{
    let identity = session.identity_info().fields();
    let mut identity_texts: Vec<(String, String)> = Vec::new();
    let mut i: usize = 0;
    while i < identity.len()
        invariant
            i <= identity.len(),
            identity_texts.len() == i,
            forall|k: int|
                0 <= k < i ==> (#[trigger] identity_texts[k]).deep_view() == present_or_empty(
                    identity.deep_view(),
                )[k],
        decreases identity.len() - i,
    {
        let value = match &identity[i].1 {
            Some(text) => text.clone(),
            None => String::new(),
        };
        identity_texts.push((identity[i].0.clone(), value));
        i = i + 1;
    }
    proof {
        assert(identity_texts.deep_view() =~= present_or_empty(
            identity_fields(session@.identity_info),
        ));
    }
    let mut nested: Vec<(String, Document)> = Vec::new();
    nested.push(("Attributes".to_owned(), Document::text_object(session.attributes().entries())));
    proof {
        assert(nested.deep_view() =~= seq![
            ("Attributes"@, DocumentView::Object(text_fields(session@.attributes))),
        ]);
    }
    let mut item: Vec<(String, Document)> = Vec::new();
    item.push(("pk".to_owned(), Document::Text(session.token().clone())));
    item.push(("identityInfo".to_owned(), Document::text_object(&identity_texts)));
    item.push(("roleName".to_owned(), Document::Text(session.role_name().clone())));
    item.push(("userAttributes".to_owned(), Document::object(nested)));
    proof {
        assert(item.deep_view() =~= item_of(session@));
    }
    PutItem { table_name: TOKEN_TABLE.to_owned(), item }
}

/// The item of a session is keyed by the session's token and holds the
/// thirteen fields of the identity, each under its name: with its value
/// where the identity has one, with the empty text where it has none. No
/// field is left out.
pub proof fn lemma_item_keeps_identity(session: SessionRecordView)
    ensures
        field_of(item_of(session), "pk"@) == Some(DocumentView::Text(session.token)),
        field_of(item_of(session), "identityInfo"@) matches Some(DocumentView::Object(written))
            && written.len() == identity_fields(session.identity_info).len() && written.len()
            == 13 && forall|i: int|
            0 <= i < written.len() ==> (#[trigger] written[i]).0 == identity_fields(
                session.identity_info,
            )[i].0 && written[i].1 == DocumentView::Text(
                match identity_fields(session.identity_info)[i].1 {
                    Some(value) => value,
                    None => Seq::empty(),
                },
            ),
{
    reveal_strlit("pk");
    reveal_strlit("identityInfo");
    let item = item_of(session);
    assert(item[0].0 == "pk"@);
    assert(field_of(item, "identityInfo"@) == field_of(item.drop_first(), "identityInfo"@));
}

} // verus!
