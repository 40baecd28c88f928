//! The envelope for graph-shaped resources: nodes plus the relations
//! between them, with the same status-code and error-body handling as
//! the flat `DataWrapper`.

use vstd::prelude::*;
use vstd::string::*;

use crate::generic::RelationForm;
use crate::http::is_success_status;

verus! {

/// Marker for types that can stand as nodes of a graph payload; a node
/// becomes a one-element payload through `GraphDataWrapper::from_node`.
pub trait GraphNode: Sized {

}

/// The typed envelope around a graph response: the nodes, the relations,
/// the HTTP status code, and, for error responses whose body was not
/// valid JSON, the raw body.
#[derive(Debug)]
pub struct GraphDataWrapper<T: GraphNode> {
    pub nodes: Option<Vec<T>>,
    pub relations: Option<Vec<RelationForm>>,
    pub error_body: Option<String>,
    pub http_status_code: Option<u16>,
}

/// The outcome of running the JSON parser on a graph response body.
pub enum GraphParsedBody<T: GraphNode> {
    Parsed(GraphDataWrapper<T>),
    Unparsed(String),
}

impl<T: GraphNode> GraphDataWrapper<T> {
    pub fn new() -> (r: GraphDataWrapper<T>)
        ensures
            r.nodes is None,
            r.relations is None,
            r.error_body is None,
            r.http_status_code is None,
    {
        GraphDataWrapper { nodes: None, relations: None, error_body: None, http_status_code: None }
    }

    /// A payload of exactly this node.
    pub fn from_node(node: T) -> (r: GraphDataWrapper<T>)
        ensures
            r.nodes is Some && r.nodes->0@ == seq![node],
            r.relations is None,
            r.error_body is None,
            r.http_status_code is None,
    {
        let mut nodes: Vec<T> = Vec::new();
        nodes.push(node);
        proof {
            assert(nodes@ =~= seq![node]);
        }
        GraphDataWrapper {
            nodes: Some(nodes),
            relations: None,
            error_body: None,
            http_status_code: None,
        }
    }

    /// A payload of exactly these nodes.
    pub fn from_nodes(nodes: Vec<T>) -> (r: GraphDataWrapper<T>)
        ensures
            r.nodes == Some(nodes),
            r.relations is None,
            r.error_body is None,
            r.http_status_code is None,
    {
        GraphDataWrapper {
            nodes: Some(nodes),
            relations: None,
            error_body: None,
            http_status_code: None,
        }
    }

    pub fn nodes(&self) -> (r: Option<&Vec<T>>)
        ensures
            r is Some <==> self.nodes is Some,
            r is Some ==> *r->0 == self.nodes->0,
    {
        self.nodes.as_ref()
    }

    pub fn relations(&self) -> (r: Option<&Vec<RelationForm>>)
        ensures
            r is Some <==> self.relations is Some,
            r is Some ==> *r->0 == self.relations->0,
    {
        self.relations.as_ref()
    }

    pub fn set_nodes(&mut self, nodes: Vec<T>)
        ensures
            *final(self) == (GraphDataWrapper { nodes: Some(nodes), ..*old(self) }),
    {
        self.nodes = Some(nodes);
    }

    pub fn set_relations(&mut self, relations: Vec<RelationForm>)
        ensures
            *final(self) == (GraphDataWrapper { relations: Some(relations), ..*old(self) }),
    {
        self.relations = Some(relations);
    }

    pub fn set_http_status_code(&mut self, status_code: u16)
        ensures
            *final(self) == (GraphDataWrapper {
                http_status_code: Some(status_code),
                ..*old(self)
            }),
    {
        self.http_status_code = Some(status_code);
    }

    /// Builds the graph envelope for a response with the given status
    /// code and body, given the outcome of parsing that body; the same
    /// rules as the flat envelope's.
    pub fn deserialize_and_set_status(body: &str, status_code: u16, parsed: GraphParsedBody<T>) -> (r:
        Result<GraphDataWrapper<T>, String>)
        ensures
            is_success_status(status_code) && (status_code == 204 || body@.len() == 0) ==> r is Ok
                && r->Ok_0.nodes is None && r->Ok_0.relations is None && r->Ok_0.error_body is None
                && r->Ok_0.http_status_code == Some(status_code),
            is_success_status(status_code) && status_code != 204 && body@.len() != 0 ==> (match
            parsed {
                GraphParsedBody::Parsed(w) => r is Ok && r->Ok_0.nodes == w.nodes
                    && r->Ok_0.relations == w.relations && r->Ok_0.error_body == w.error_body
                    && r->Ok_0.http_status_code == Some(status_code),
                GraphParsedBody::Unparsed(msg) => r == Result::<
                    GraphDataWrapper<T>,
                    String,
                >::Err(msg),
            }),
            !is_success_status(status_code) ==> (match parsed {
                GraphParsedBody::Parsed(w) => r is Ok && r->Ok_0.nodes == w.nodes
                    && r->Ok_0.relations == w.relations && r->Ok_0.error_body == w.error_body
                    && r->Ok_0.http_status_code == Some(status_code),
                GraphParsedBody::Unparsed(_) => r is Ok && r->Ok_0.nodes is None
                    && r->Ok_0.relations is None && r->Ok_0.error_body is Some
                    && r->Ok_0.error_body->0@ == body@ && r->Ok_0.http_status_code == Some(
                    status_code,
                ),
            }),
    {
        if 200 <= status_code && status_code < 300 {
            if status_code == 204 || body.is_empty() {
                return Ok(
                    GraphDataWrapper {
                        nodes: None,
                        relations: None,
                        error_body: None,
                        http_status_code: Some(status_code),
                    },
                );
            }
            match parsed {
                GraphParsedBody::Parsed(mut wrapper) => {
                    wrapper.set_http_status_code(status_code);
                    Ok(wrapper)
                },
                GraphParsedBody::Unparsed(msg) => Err(msg),
            }
        } else {
            match parsed {
                GraphParsedBody::Parsed(mut wrapper) => {
                    wrapper.set_http_status_code(status_code);
                    Ok(wrapper)
                },
                GraphParsedBody::Unparsed(_) => Ok(
                    GraphDataWrapper {
                        nodes: None,
                        relations: None,
                        error_body: Some(body.to_owned()),
                        http_status_code: Some(status_code),
                    },
                ),
            }
        }
    }
}

} // verus!
