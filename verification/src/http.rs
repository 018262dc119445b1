//! Plans for the REST requests that act on the chat service: which method,
//! which URL, which headers and which body each request carries. Sending a
//! plan is left to the caller.

use vstd::prelude::*;
use vstd::string::*;
use crate::json::{Json, JsonValue, json_text, lemma_object_view, members_view};
use crate::text::{decimal_digits, u64_to_decimal};

verus! {

/// The HTTP methods that the service is called with.
#[derive(Clone, Copy, Debug, PartialEq, Eq, Structural)]
pub enum Method {
    Post,
    Patch,
    Delete,
}

impl Method {
    /// The method's name as it stands on the request line.
    pub open spec fn name(self) -> Seq<char> {
        match self {
            Method::Post => "POST"@,
            Method::Patch => "PATCH"@,
            Method::Delete => "DELETE"@,
        }
    }

    /// The method's name as it stands on the request line.
    pub fn as_str(&self) -> (name: &'static str)
        ensures
            name@ == self.name(),
    {
        match self {
            Method::Post => "POST",
            Method::Patch => "PATCH",
            Method::Delete => "DELETE",
        }
    }
}

/// One request to the service.
#[derive(Debug)]
pub struct RequestInfo {
    pub path: PathInfo,
    pub token: String,
    pub body: RequestBodyInfo,
}

/// The resource that a request addresses.
#[derive(Clone, Copy, Debug, PartialEq, Eq, Structural)]
pub enum PathInfo {
    MessageSend { channel_id: u64 },
    MessageEditDelete { channel_id: u64, message_id: u64 },
    TypingTrigger { channel_id: u64 },
}

impl PathInfo {
    /// The path below the service's version prefix.
    pub open spec fn path_text(self) -> Seq<char> {
        match self {
            PathInfo::MessageSend { channel_id } => "/rooms/"@ + decimal_digits(channel_id as nat)
                + "/messages"@,
            PathInfo::MessageEditDelete { channel_id, message_id } => "/rooms/"@ + decimal_digits(
                channel_id as nat,
            ) + "/messages/"@ + decimal_digits(message_id as nat),
            PathInfo::TypingTrigger { channel_id } => "/rooms/"@ + decimal_digits(channel_id as nat)
                + "/typing"@,
        }
    }

    /// The path below the service's version prefix.
    pub fn path(&self) -> (path: String)
        ensures
            path@ == self.path_text(),
    {
        let mut path = String::from_str("/rooms/");
        match self {
            PathInfo::MessageSend { channel_id } => {
                path.append(u64_to_decimal(*channel_id).as_str());
                path.append("/messages");
            },
            PathInfo::MessageEditDelete { channel_id, message_id } => {
                path.append(u64_to_decimal(*channel_id).as_str());
                path.append("/messages/");
                path.append(u64_to_decimal(*message_id).as_str());
            },
            PathInfo::TypingTrigger { channel_id } => {
                path.append(u64_to_decimal(*channel_id).as_str());
                path.append("/typing");
            },
        }
        path
    }
}

/// What a request says in its body.
#[derive(Clone, Debug, PartialEq, Eq)]
pub enum RequestBodyInfo {
    MessageSend { content: String },
    MessageDelete,
    TypingTrigger {  },
}

impl RequestBodyInfo {
    /// The method that goes with the body when nothing else is known.
    pub open spec fn method_of(self) -> Method {
        match self {
            RequestBodyInfo::MessageSend { .. } => Method::Post,
            RequestBodyInfo::TypingTrigger {  } => Method::Post,
            RequestBodyInfo::MessageDelete => Method::Delete,
        }
    }

    /// The method that goes with the body when nothing else is known.
    pub fn method(&self) -> (method: Method)
        ensures
            method == self.method_of(),
    {
        match self {
            RequestBodyInfo::MessageSend { .. } | RequestBodyInfo::TypingTrigger {  } => Method::Post,
            RequestBodyInfo::MessageDelete => Method::Delete,
        }
    }

    /// The document that the body is written from: the variant's fields as an
    /// object, and `null` for the variant without any.
    pub open spec fn document(self) -> JsonValue {
        match self {
            RequestBodyInfo::MessageSend { content } => JsonValue::Object(
                seq![("content"@, JsonValue::Text(content@))],
            ),
            RequestBodyInfo::MessageDelete => JsonValue::Null,
            RequestBodyInfo::TypingTrigger {  } => JsonValue::Object(seq![]),
        }
    }

    /// The document that the body is written from.
    pub fn to_json(&self) -> (json: Json)
        ensures
            json@ == self.document(),
            json@.is_exact(),
    {
        match self {
            RequestBodyInfo::MessageSend { content } => {
                let mut members: Vec<(String, Json)> = Vec::new();
                members.push((String::from_str("content"), Json::Text(content.clone())));
                proof {
                    lemma_object_view(members);
                    assert(members_view(members@) =~= seq![
                        ("content"@, JsonValue::Text(content@)),
                    ]);
                    reveal_with_fuel(JsonValue::is_exact, 2);
                }
                Json::Object(members)
            },
            RequestBodyInfo::MessageDelete => Json::Null,
            RequestBodyInfo::TypingTrigger {  } => {
                let members: Vec<(String, Json)> = Vec::new();
                proof {
                    lemma_object_view(members);
                    assert(members_view(members@) =~= seq![]);
                }
                Json::Object(members)
            },
        }
    }
}

/// A request as it goes out.
#[derive(Clone, Debug, PartialEq, Eq)]
pub struct Request {
    pub method: Method,
    pub url: String,
    /// Header names and values, in the order in which they are set.
    pub headers: Vec<(String, String)>,
    pub body: String,
}

/// The content of a [`Request`].
pub struct RequestView {
    pub method: Method,
    pub url: Seq<char>,
    pub headers: Seq<(Seq<char>, Seq<char>)>,
    pub body: Seq<char>,
}

impl View for Request {
    type V = RequestView;

    open spec fn view(&self) -> RequestView {
        RequestView {
            method: self.method,
            url: self.url@,
            headers: Seq::new(
                self.headers@.len(),
                |i: int| (self.headers@[i].0@, self.headers@[i].1@),
            ),
            body: self.body@,
        }
    }
}

/// The address of a resource of the service on the host `base_url`.
pub open spec fn url_text(base_url: Seq<char>, path: PathInfo) -> Seq<char> {
    "https://"@ + base_url + "/v1"@ + path.path_text()
}

/// The request that goes out to the host `base_url` for the given resource:
/// the token under `authorization`, and the body, which is the JSON text of
/// `document`, announced under `content-type`.
pub open spec fn request_of(
    base_url: Seq<char>,
    path: PathInfo,
    token: Seq<char>,
    method: Method,
    document: JsonValue,
) -> RequestView {
    RequestView {
        method,
        url: url_text(base_url, path),
        headers: seq![("authorization"@, token), ("content-type"@, "application/json"@)],
        body: json_text(document),
    }
}

impl RequestInfo {
    /// The method of the request: editing a message is a `PATCH`, everything
    /// else goes by its body.
    pub open spec fn method_of(self) -> Method {
        if self.path is MessageEditDelete && self.body is MessageSend {
            Method::Patch
        } else {
            self.body.method_of()
        }
    }

    /// The method of the request.
    pub fn method(&self) -> (method: Method)
        ensures
            method == self.method_of(),
    {
        match (&self.path, &self.body) {
            (PathInfo::MessageEditDelete { .. }, RequestBodyInfo::MessageSend { .. }) => Method::Patch,
            _ => self.body.method(),
        }
    }

    /// The address of the request on the host `base_url`.
    pub fn url(&self, base_url: &str) -> (url: String)
        ensures
            url@ == url_text(base_url@, self.path),
    {
        let mut url = String::from_str("https://");
        url.append(base_url);
        url.append("/v1");
        url.append(self.path.path().as_str());
        url
    }

    /// The request as it goes out to the host `base_url`.
    pub fn request(&self, base_url: &str) -> (request: Request)
        ensures
            request@ == request_of(
                base_url@,
                self.path,
                self.token@,
                self.method_of(),
                self.body.document(),
            ),
    {
        let mut headers: Vec<(String, String)> = Vec::new();
        headers.push((String::from_str("authorization"), self.token.clone()));
        headers.push((String::from_str("content-type"), String::from_str("application/json")));
        let request = Request {
            method: self.method(),
            url: self.url(base_url),
            headers,
            body: self.body.to_json().render(),
        };
        assert(request@.headers =~= seq![
            ("authorization"@, self.token@),
            ("content-type"@, "application/json"@),
        ]);
        request
    }
}

} // verus!
