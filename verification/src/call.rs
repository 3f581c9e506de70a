//! Calls between services: the HTTP methods, the two kinds of call, and how
//! an extracted call record is classified.

use vstd::prelude::*;
use crate::model::{Microservice, MicroserviceView};

verus! {

/// The HTTP methods a call can carry.
#[derive(Debug, Clone, Copy, PartialEq, Eq, Structural, Hash)]
pub enum HttpMethod {
    Options,
    Get,
    Post,
    Put,
    Delete,
    Head,
    Trace,
    Connect,
    Patch,
}

impl HttpMethod {
    /// The token that spells a method.
    pub open spec fn token(self) -> Seq<char> {
        match self {
            HttpMethod::Options => "OPTIONS"@,
            HttpMethod::Get => "GET"@,
            HttpMethod::Post => "POST"@,
            HttpMethod::Put => "PUT"@,
            HttpMethod::Delete => "DELETE"@,
            HttpMethod::Head => "HEAD"@,
            HttpMethod::Trace => "TRACE"@,
            HttpMethod::Connect => "CONNECT"@,
            HttpMethod::Patch => "PATCH"@,
        }
    }

    /// The method that a token spells, if any. Tokens are case-sensitive.
    pub open spec fn of_token(token: Seq<char>) -> Option<HttpMethod> {
        if token == "OPTIONS"@ {
            Some(HttpMethod::Options)
        } else if token == "GET"@ {
            Some(HttpMethod::Get)
        } else if token == "POST"@ {
            Some(HttpMethod::Post)
        } else if token == "PUT"@ {
            Some(HttpMethod::Put)
        } else if token == "DELETE"@ {
            Some(HttpMethod::Delete)
        } else if token == "HEAD"@ {
            Some(HttpMethod::Head)
        } else if token == "TRACE"@ {
            Some(HttpMethod::Trace)
        } else if token == "CONNECT"@ {
            Some(HttpMethod::Connect)
        } else if token == "PATCH"@ {
            Some(HttpMethod::Patch)
        } else {
            None
        }
    }

    /// The token that spells this method.
    pub fn as_str(&self) -> (token: &'static str)
        ensures
            token@ == self.token(),
    {
        match self {
            HttpMethod::Options => "OPTIONS",
            HttpMethod::Get => "GET",
            HttpMethod::Post => "POST",
            HttpMethod::Put => "PUT",
            HttpMethod::Delete => "DELETE",
            HttpMethod::Head => "HEAD",
            HttpMethod::Trace => "TRACE",
            HttpMethod::Connect => "CONNECT",
            HttpMethod::Patch => "PATCH",
        }
    }

    /// The method that a token spells, if any.
    pub fn from_token(token: &str) -> (method: Option<HttpMethod>)
        ensures
            method == HttpMethod::of_token(token@),
    {
        if token.eq("OPTIONS") {
            Some(HttpMethod::Options)
        } else if token.eq("GET") {
            Some(HttpMethod::Get)
        } else if token.eq("POST") {
            Some(HttpMethod::Post)
        } else if token.eq("PUT") {
            Some(HttpMethod::Put)
        } else if token.eq("DELETE") {
            Some(HttpMethod::Delete)
        } else if token.eq("HEAD") {
            Some(HttpMethod::Head)
        } else if token.eq("TRACE") {
            Some(HttpMethod::Trace)
        } else if token.eq("CONNECT") {
            Some(HttpMethod::Connect)
        } else if token.eq("PATCH") {
            Some(HttpMethod::Patch)
        } else {
            None
        }
    }

    /// Every method is the one that its own token spells.
    pub proof fn lemma_token_names_method(method: HttpMethod)
        ensures
            HttpMethod::of_token(method.token()) == Some(method),
    {
        reveal_strlit("OPTIONS");
        reveal_strlit("GET");
        reveal_strlit("POST");
        reveal_strlit("PUT");
        reveal_strlit("DELETE");
        reveal_strlit("HEAD");
        reveal_strlit("TRACE");
        reveal_strlit("CONNECT");
        reveal_strlit("PATCH");
        assert("OPTIONS"@.len() == 7 && "OPTIONS"@[0] == 'O');
        assert("GET"@.len() == 3 && "GET"@[0] == 'G');
        assert("POST"@.len() == 4 && "POST"@[0] == 'P');
        assert("PUT"@.len() == 3 && "PUT"@[0] == 'P');
        assert("DELETE"@.len() == 6);
        assert("HEAD"@.len() == 4 && "HEAD"@[0] == 'H');
        assert("TRACE"@.len() == 5 && "TRACE"@[0] == 'T');
        assert("CONNECT"@.len() == 7 && "CONNECT"@[0] == 'C');
        assert("PATCH"@.len() == 5 && "PATCH"@[0] == 'P');
    }
}

/// Why a call record could not be classified.
#[derive(Debug, Clone, Copy, PartialEq, Eq, Structural)]
pub enum CallError {
    /// The record is an HTTP call whose method is none of [`HttpMethod`].
    BadMethod,
    /// The record is neither an HTTP call with a method nor an RPC call
    /// without one.
    BadKind,
}

impl CallError {
    /// The message of an error.
    pub open spec fn text(self) -> Seq<char> {
        match self {
            CallError::BadMethod => "Bad HTTP method"@,
            CallError::BadKind => "Bad microservice call type"@,
        }
    }

    /// The message of this error.
    pub fn to_string(&self) -> (text: String)
        ensures
            text@ == self.text(),
    {
        match self {
            CallError::BadMethod => "Bad HTTP method".to_owned(),
            CallError::BadKind => "Bad microservice call type".to_owned(),
        }
    }
}

/// A call from one service to another.
#[derive(Debug, Clone, Copy, PartialEq, Eq, Structural)]
pub enum MicroserviceCall {
    Http(HttpMethod),
    Rpc,
}

impl MicroserviceCall {
    /// The label a diagram shows on a call.
    pub open spec fn label_text(self) -> Seq<char> {
        match self {
            MicroserviceCall::Http(method) => "HTTP Verb: "@ + method.token(),
            MicroserviceCall::Rpc => "RPC"@,
        }
    }

    /// The label a diagram shows on this call.
    pub fn label(&self) -> (label: String)
        ensures
            label@ == self.label_text(),
    {
        match self {
            MicroserviceCall::Http(method) => {
                let mut label = "HTTP Verb: ".to_owned();
                label.append(method.as_str());
                label
            },
            MicroserviceCall::Rpc => "RPC".to_owned(),
        }
    }

    /// The call that a record with this type tag and method stands for. An
    /// `HTTP` record with a method is an HTTP call if the method is one of
    /// [`HttpMethod`]; an `RPC` record without a method is an RPC call;
    /// every other record is an error.
    pub open spec fn of_record(kind: Seq<char>, method: Option<Seq<char>>) -> Result<
        MicroserviceCall,
        CallError,
    > {
        match method {
            Some(token) => if kind == "HTTP"@ {
                match HttpMethod::of_token(token) {
                    Some(method) => Ok(MicroserviceCall::Http(method)),
                    None => Err(CallError::BadMethod),
                }
            } else {
                Err(CallError::BadKind)
            },
            None => if kind == "RPC"@ {
                Ok(MicroserviceCall::Rpc)
            } else {
                Err(CallError::BadKind)
            },
        }
    }

    /// Classifies an extracted call record.
    pub fn try_from_record(kind: &str, method: Option<&str>) -> (call: Result<
        MicroserviceCall,
        CallError,
    >)
        ensures
            call == MicroserviceCall::of_record(
                kind@,
                match method {
                    Some(token) => Some(token@),
                    None => None,
                },
            ),
    {
        match method {
            Some(token) => {
                if kind.eq("HTTP") {
                    match HttpMethod::from_token(token) {
                        Some(method) => Ok(MicroserviceCall::Http(method)),
                        None => Err(CallError::BadMethod),
                    }
                } else {
                    Err(CallError::BadKind)
                }
            },
            None => {
                if kind.eq("RPC") {
                    Ok(MicroserviceCall::Rpc)
                } else {
                    Err(CallError::BadKind)
                }
            },
        }
    }
}

/// One outbound call of a service, as extracted: the name of the called
/// service, the call's type tag and, if present, its HTTP method.
#[derive(Debug)]
pub struct CallRecord {
    pub name: String,
    pub ty: String,
    pub method: Option<String>,
}

/// The value of a [`CallRecord`].
pub struct CallRecordView {
    pub name: Seq<char>,
    pub ty: Seq<char>,
    pub method: Option<Seq<char>>,
}

impl View for CallRecord {
    type V = CallRecordView;

    open spec fn view(&self) -> CallRecordView {
        CallRecordView {
            name: self.name@,
            ty: self.ty@,
            method: match self.method {
                Some(token) => Some(token@),
                None => None,
            },
        }
    }
}

impl DeepView for CallRecord {
    type V = CallRecordView;

    open spec fn deep_view(&self) -> CallRecordView {
        self@
    }
}

impl CallRecord {
    /// A record of these parts.
    pub fn new(name: &str, ty: &str, method: Option<&str>) -> (record: CallRecord)
        ensures
            record@ == (CallRecordView {
                name: name@,
                ty: ty@,
                method: match method {
                    Some(token) => Some(token@),
                    None => None,
                },
            }),
    {
        CallRecord {
            name: name.to_owned(),
            ty: ty.to_owned(),
            method: match method {
                Some(token) => Some(token.to_owned()),
                None => None,
            },
        }
    }

    /// Classifies this record.
    pub fn call(&self) -> (call: Result<MicroserviceCall, CallError>)
        ensures
            call == MicroserviceCall::of_record(self@.ty, self@.method),
    {
        match &self.method {
            Some(token) => MicroserviceCall::try_from_record(
                self.ty.as_str(),
                Some(token.as_str()),
            ),
            None => MicroserviceCall::try_from_record(self.ty.as_str(), None),
        }
    }
}

/// A service together with its outbound calls, as extracted.
#[derive(Debug)]
pub struct ServiceRecord {
    pub service: Microservice,
    pub calls: Vec<CallRecord>,
}

/// The value of a [`ServiceRecord`].
pub struct ServiceRecordView {
    pub service: MicroserviceView,
    pub calls: Seq<CallRecordView>,
}

impl View for ServiceRecord {
    type V = ServiceRecordView;

    open spec fn view(&self) -> ServiceRecordView {
        ServiceRecordView { service: self.service@, calls: self.calls.deep_view() }
    }
}

impl DeepView for ServiceRecord {
    type V = ServiceRecordView;

    open spec fn deep_view(&self) -> ServiceRecordView {
        self@
    }
}

} // verus!
