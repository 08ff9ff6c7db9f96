//! A tree of texts, lists and named fields: the shape in which a session is
//! handed to the session store and to downstream functions.

use vstd::prelude::*;

verus! {

/// A value of a stored item or of a payload.
#[derive(Debug, PartialEq, Eq)]
pub enum Document {
    /// No value.
    Null,
    /// A string.
    Text(String),
    /// Values in order.
    List(Vec<Document>),
    /// Named values in order.
    Object(Vec<(String, Document)>),
}

/// What a [`Document`] holds.
pub enum DocumentView {
    Null,
    Text(Seq<char>),
    List(Seq<DocumentView>),
    Object(Seq<(Seq<char>, DocumentView)>),
}

/// What `doc` holds, level by level.
pub open spec fn document_view(doc: Document) -> DocumentView
    decreases doc,
{
    match doc {
        Document::Null => DocumentView::Null,
        Document::Text(text) => DocumentView::Text(text@),
        Document::List(items) => DocumentView::List(
            Seq::new(
                items@.len(),
                |i: int|
                    if 0 <= i < items@.len() {
                        document_view(items@[i])
                    } else {
                        DocumentView::Null
                    },
            ),
        ),
        Document::Object(fields) => DocumentView::Object(
            Seq::new(
                fields@.len(),
                |i: int|
                    if 0 <= i < fields@.len() {
                        (fields@[i].0@, document_view(fields@[i].1))
                    } else {
                        (Seq::empty(), DocumentView::Null)
                    },
            ),
        ),
    }
}

impl View for Document {
    type V = DocumentView;

    open spec fn view(&self) -> DocumentView {
        document_view(*self)
    }
}

impl DeepView for Document {
    type V = DocumentView;

    open spec fn deep_view(&self) -> DocumentView {
        self@
    }
}

/// Each pair of texts as a named text value.
pub open spec fn text_fields(pairs: Seq<(Seq<char>, Seq<char>)>) -> Seq<(Seq<char>, DocumentView)> {
    Seq::new(pairs.len(), |i: int| (pairs[i].0, DocumentView::Text(pairs[i].1)))
}

/// The value of the first field called `name`, if `fields` has one.
pub open spec fn field_of(fields: Seq<(Seq<char>, DocumentView)>, name: Seq<char>) -> Option<
    DocumentView,
>
    decreases fields.len(),
{
    if fields.len() == 0 {
        None
    } else if fields[0].0 == name {
        Some(fields[0].1)
    } else {
        field_of(fields.drop_first(), name)
    }
}

impl Document {
    /// A text value.
    pub fn text(text: &str) -> (doc: Document)
        ensures
            doc@ == DocumentView::Text(text@),
    {
        Document::Text(text.to_owned())
    }

    /// A list of the given values.
    pub fn list(items: Vec<Document>) -> (doc: Document)
        ensures
            doc@ == DocumentView::List(items.deep_view()),
    {
        let doc = Document::List(items);
        proof {
            assert(doc@->List_0 =~= items.deep_view());
        }
        doc
    }

    /// An object of the given fields.
    pub fn object(fields: Vec<(String, Document)>) -> (doc: Document)
        ensures
            doc@ == DocumentView::Object(fields.deep_view()),
    {
        let doc = Document::Object(fields);
        proof {
            assert(doc@->Object_0 =~= fields.deep_view());
        }
        doc
    }

    /// An object with one text field for each pair, in order.
    pub fn text_object(pairs: &Vec<(String, String)>) -> (doc: Document)
        ensures
            doc@ == DocumentView::Object(text_fields(pairs.deep_view())),
    {
        let mut fields: Vec<(String, Document)> = Vec::new();
        let mut i: usize = 0;
        while i < pairs.len()
            invariant
                i <= pairs.len(),
                fields.len() == i,
                forall|k: int|
                    0 <= k < i ==> (#[trigger] fields[k]).0@ == pairs[k].0@ && fields[k].1@
                        == DocumentView::Text(pairs[k].1@),
            decreases pairs.len() - i,
        {
            let name = pairs[i].0.clone();
            let value = Document::Text(pairs[i].1.clone());
            fields.push((name, value));
            i = i + 1;
        }
        let doc = Document::object(fields);
        proof {
            assert(doc@->Object_0 =~= text_fields(pairs.deep_view()));
        }
        doc
    }
}

} // verus!
