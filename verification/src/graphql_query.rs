//! The crate's model of a parsed GraphQL request document, and the
//! selection rule that decides which operation a request runs.

use vstd::prelude::*;

verus! {

/// The kind of a GraphQL operation.
#[derive(Debug, Clone, Copy, PartialEq, Eq, Structural)]
pub enum OperationKind {
    Query,
    Mutation,
    Subscription,
}

/// A parsed request document: either one anonymous operation, or a
/// set of named operations with distinct names.
#[derive(Debug)]
pub enum GraphQLDocument {
    Single(OperationKind),
    Multiple(Vec<(String, OperationKind)>),
}

/// The abstract outcome of parsing a query text: a syntax error with
/// its message, one anonymous operation, or named operations as a map.
/// The map carries no order, because the parser keeps named operations
/// in a hash map whose iteration order is not a function of the text.
pub enum ParsedQuery {
    Invalid(Seq<char>),
    Anonymous(OperationKind),
    Named(Map<Seq<char>, OperationKind>),
}

/// What `async_graphql_parser::parse_query` yields on this text. The
/// parse reads nothing but the text, so the outcome is a function of
/// it.
pub uninterp spec fn parsed_query(text: Seq<char>) -> ParsedQuery;

/// Whether an executable document faithfully presents a parse outcome:
/// the same single anonymous operation, or exactly the named
/// operations of the map, each name once.
pub open spec fn doc_abstracts(doc: GraphQLDocument, p: ParsedQuery) -> bool {
    match doc {
        GraphQLDocument::Single(k) => p == ParsedQuery::Anonymous(k),
        GraphQLDocument::Multiple(ops) => p matches ParsedQuery::Named(m) && {
            &&& forall|i: int| 0 <= i < ops@.len() ==> m.contains_pair(ops@[i].0@, ops@[i].1)
            &&& forall|name: Seq<char>|
                m.dom().contains(name) ==> exists|i: int|
                    0 <= i < ops@.len() && ops@[i].0@ == name
            &&& forall|i: int, j: int| 0 <= i < j < ops@.len() ==> ops@[i].0@ != ops@[j].0@
        },
    }
}

/// `async_graphql_parser`'s operation-type tag, declared so that
/// [`operation_kind`] can take it.
#[verifier::external_type_specification]
#[verifier::external_body]
pub struct ExOperationType(async_graphql_parser::types::OperationType);

/// Relies on `async_graphql_parser::types::OperationType`: names the
/// tag in the crate's model, arm by arm.
#[verifier::external_body]
fn operation_kind(ty: async_graphql_parser::types::OperationType) -> OperationKind {
    match ty {
        async_graphql_parser::types::OperationType::Query => OperationKind::Query,
        async_graphql_parser::types::OperationType::Mutation => OperationKind::Mutation,
        async_graphql_parser::types::OperationType::Subscription => OperationKind::Subscription,
    }
}

/// Relies on `async_graphql_parser::parse_query` to parse the text,
/// and on the shape of its document: a lone anonymous operation comes
/// back as `Single`, named operations as a map with distinct names.
/// The error text is the parse error's display form.
#[verifier::external_body]
pub fn parse_graphql_query(query: &str) -> (r: Result<GraphQLDocument, String>)
    ensures
        (r matches Err(e) ==> parsed_query(query@) matches ParsedQuery::Invalid(t) && e@ == t),
        (r is Err <==> parsed_query(query@) is Invalid),
        (r matches Ok(doc) ==> doc_abstracts(doc, parsed_query(query@))),
{
    match async_graphql_parser::parse_query(query) {
        Err(e) => Err(e.to_string()),
        Ok(d) => Ok(
            match d.operations {
                async_graphql_parser::types::DocumentOperations::Single(op) =>
                    GraphQLDocument::Single(operation_kind(op.node.ty)),
                async_graphql_parser::types::DocumentOperations::Multiple(ops) =>
                    GraphQLDocument::Multiple(
                        ops.into_iter().map(
                            |(n, op)| (n.to_string(), operation_kind(op.node.ty)),
                        ).collect(),
                    ),
            },
        ),
    }
}

/// The operation-selection rule over a document: one anonymous
/// operation is the selection whatever the name argument; among named
/// operations a given name selects its operation, and no name selects
/// every operation in turn, true when any of them is of the kind.
pub open spec fn spec_is_query_of_type(
    operation_name: Option<Seq<char>>,
    doc: GraphQLDocument,
    query_type: OperationKind,
) -> bool {
    match doc {
        GraphQLDocument::Single(k) => k == query_type,
        GraphQLDocument::Multiple(ops) => match operation_name {
            Some(name) => exists|i: int|
                0 <= i < ops@.len() && ops@[i].0@ == name && ops@[i].1 == query_type,
            None => exists|i: int| 0 <= i < ops@.len() && ops@[i].1 == query_type,
        },
    }
}

/// The same selection rule over the abstract parse outcome.
pub open spec fn spec_selected_operation_is(
    p: ParsedQuery,
    operation_name: Option<Seq<char>>,
    query_type: OperationKind,
) -> bool {
    match p {
        ParsedQuery::Invalid(_) => false,
        ParsedQuery::Anonymous(k) => k == query_type,
        ParsedQuery::Named(m) => match operation_name {
            Some(name) => m.dom().contains(name) && m[name] == query_type,
            None => exists|name: Seq<char>| m.dom().contains(name) && m[name] == query_type,
        },
    }
}

/// A document that faithfully presents a parse outcome selects an
/// operation of a kind exactly when the outcome does.
pub proof fn lemma_doc_selection_matches(
    doc: GraphQLDocument,
    p: ParsedQuery,
    operation_name: Option<Seq<char>>,
    query_type: OperationKind,
)
    requires
        doc_abstracts(doc, p),
    ensures
        spec_is_query_of_type(operation_name, doc, query_type) == spec_selected_operation_is(
            p,
            operation_name,
            query_type,
        ),
{
    match doc {
        GraphQLDocument::Single(_) => {},
        GraphQLDocument::Multiple(ops) => {
            let m = p->Named_0;
            match operation_name {
                Some(name) => {
                    if exists|i: int|
                        0 <= i < ops@.len() && ops@[i].0@ == name && ops@[i].1 == query_type {
                        let i = choose|i: int|
                            0 <= i < ops@.len() && ops@[i].0@ == name && ops@[i].1 == query_type;
                        assert(m.contains_pair(ops@[i].0@, ops@[i].1));
                    }
                    if m.dom().contains(name) && m[name] == query_type {
                        let i = choose|i: int| 0 <= i < ops@.len() && ops@[i].0@ == name;
                        assert(m.contains_pair(ops@[i].0@, ops@[i].1));
                        assert(ops@[i].1 == query_type);
                    }
                },
                None => {
                    if exists|i: int| 0 <= i < ops@.len() && ops@[i].1 == query_type {
                        let i = choose|i: int| 0 <= i < ops@.len() && ops@[i].1 == query_type;
                        assert(m.contains_pair(ops@[i].0@, ops@[i].1));
                        assert(m.dom().contains(ops@[i].0@) && m[ops@[i].0@] == query_type);
                    }
                    if exists|name: Seq<char>| m.dom().contains(name) && m[name] == query_type {
                        let name = choose|name: Seq<char>|
                            m.dom().contains(name) && m[name] == query_type;
                        let i = choose|i: int| 0 <= i < ops@.len() && ops@[i].0@ == name;
                        assert(m.contains_pair(ops@[i].0@, ops@[i].1));
                    }
                },
            }
        },
    }
}

/// A well-formed document names each of its operations once; the
/// parser yields no other kind.
pub open spec fn spec_document_wf(doc: GraphQLDocument) -> bool {
    match doc {
        GraphQLDocument::Single(_) => true,
        GraphQLDocument::Multiple(ops) => forall|i: int, j: int|
            0 <= i < j < ops@.len() ==> ops@[i].0@ != ops@[j].0@,
    }
}

/// A document that faithfully presents a parse outcome is well formed.
pub proof fn lemma_doc_abstracts_wf(doc: GraphQLDocument, p: ParsedQuery)
    requires
        doc_abstracts(doc, p),
    ensures
        spec_document_wf(doc),
{
}

/// Whether the selected operation of the document is of the kind; the
/// selection rule of [`spec_is_query_of_type`].
pub fn is_query_of_type(
    operation_name: Option<&String>,
    document: &GraphQLDocument,
    query_type: OperationKind,
) -> (r: bool)
    requires
        spec_document_wf(*document),
    ensures
        r == spec_is_query_of_type(
            match operation_name {
                Some(s) => Some(s@),
                None => None,
            },
            *document,
            query_type,
        ),
{
    match document {
        GraphQLDocument::Single(k) => *k == query_type,
        GraphQLDocument::Multiple(ops) => {
            let n = ops.len();
            match operation_name {
                Some(name) => {
                    let mut i: usize = 0;
                    while i < n
                        invariant
                            i <= n,
                            n == ops@.len(),
                            *document == GraphQLDocument::Multiple(*ops),
                            spec_document_wf(*document),
                            operation_name == Some(name),
                            forall|j: int|
                                0 <= j < i ==> !(ops@[j].0@ == name@ && ops@[j].1 == query_type),
                            forall|j: int| 0 <= j < i ==> ops@[j].0@ != name@,
                        decreases n - i,
                    {
                        if crate::json::str_eq(ops[i].0.as_str(), name.as_str()) {
                            let hit = ops[i].1 == query_type;
                            proof {
                                assert((*document)->Multiple_0 == *ops);
                                assert(operation_name->Some_0 == name);
                                if hit {
                                    assert(0 <= i < ops@.len() && ops@[i as int].0@ == name@
                                        && ops@[i as int].1 == query_type);
                                } else {
                                    assert forall|j: int|
                                        0 <= j < ops@.len() implies !(ops@[j].0@ == name@
                                        && ops@[j].1 == query_type) by {
                                        if j > i {
                                            assert(ops@[i as int].0@ != ops@[j].0@);
                                        }
                                    }
                                }
                            }
                            return hit;
                        }
                        i = i + 1;
                    }
                    false
                },
                None => {
                    let mut i: usize = 0;
                    while i < n
                        invariant
                            i <= n,
                            n == ops@.len(),
                            *document == GraphQLDocument::Multiple(*ops),
                            operation_name is None,
                            forall|j: int| 0 <= j < i ==> ops@[j].1 != query_type,
                        decreases n - i,
                    {
                        if ops[i].1 == query_type {
                            proof {
                                assert((*document)->Multiple_0 == *ops);
                                assert(0 <= i < ops@.len() && ops@[i as int].1 == query_type);
                            }
                            return true;
                        }
                        i = i + 1;
                    }
                    false
                },
            }
        },
    }
}

} // verus!
