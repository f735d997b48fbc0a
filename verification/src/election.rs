//! The values of leader election: keys, options, requests and responses.

use core::str::Utf8Error;
use vstd::prelude::*;
use vstd::string::StringSliceAdditionalSpecFns;
use vstd::utf8::{decode_utf8, encode_utf8_decode_utf8, valid_utf8};

verus! {

/// `core::str::Utf8Error`: why bytes are not a string. Nothing inside it
/// is visible here.
#[verifier::external_type_specification]
#[verifier::external_body]
pub struct ExUtf8Error(Utf8Error);

/// `core::str::from_utf8`: the bytes as a string, which they are exactly
/// when they are valid UTF-8; the string then has these bytes.
#[verifier::external_body]
fn from_utf8(bytes: &[u8]) -> (text: Result<&str, Utf8Error>)
    ensures
        text is Ok == valid_utf8(bytes@),
        text matches Ok(text) ==> text.spec_bytes() == bytes@,
{
    core::str::from_utf8(bytes)
}

/// What can go wrong with a value of this module.
#[derive(Debug)]
pub enum Error {
    /// Bytes that were to be read as a string are not valid UTF-8.
    Utf8Error(Utf8Error),
}

/// General information that comes with every response.
#[derive(Debug, Clone, Copy, PartialEq, Eq, Structural)]
pub struct ResponseHeader {
    /// The revision of the store when the request was applied.
    pub revision: i64,
}

impl ResponseHeader {
    /// The revision of the store when the request was applied.
    pub fn revision(&self) -> (revision: i64)
        ensures
            revision == self.revision,
    {
        self.revision
    }
}

/// A key with its value.
#[derive(Debug, Clone)]
pub struct KeyValue {
    /// The key.
    pub key: Vec<u8>,
    /// The value.
    pub value: Vec<u8>,
    /// The lease that the key hangs on, or 0.
    pub lease: i64,
}

impl KeyValue {
    /// The key in bytes.
    pub fn key(&self) -> (key: &[u8])
        ensures
            key@ == self.key@,
    {
        self.key.as_slice()
    }

    /// The value in bytes.
    pub fn value(&self) -> (value: &[u8])
        ensures
            value@ == self.value@,
    {
        self.value.as_slice()
    }

    /// The lease that the key hangs on, or 0.
    pub fn lease(&self) -> (lease: i64)
        ensures
            lease == self.lease,
    {
        self.lease
    }
}

/// What a leader key holds.
pub struct LeaderKeyView {
    /// The election identifier.
    pub name: Seq<u8>,
    /// The key that stands for the ownership of the election.
    pub key: Seq<u8>,
    /// The creation revision of the key.
    pub rev: i64,
    /// The lease of the leader.
    pub lease: i64,
}

/// Leader key of election
#[derive(Debug, Clone)]
pub struct LeaderKey {
    name: Vec<u8>,
    key: Vec<u8>,
    rev: i64,
    lease: i64,
}

impl View for LeaderKey {
    type V = LeaderKeyView;

    closed spec fn view(&self) -> LeaderKeyView {
        LeaderKeyView { name: self.name@, key: self.key@, rev: self.rev, lease: self.lease }
    }
}

impl LeaderKey {
    /// Creates a new leader key.
    pub fn new() -> (leader: LeaderKey)
        ensures
            leader@ == (LeaderKeyView { name: Seq::empty(), key: Seq::empty(), rev: 0, lease: 0 }),
    {
        LeaderKey { name: Vec::new(), key: Vec::new(), rev: 0, lease: 0 }
    }

    /// The election identifier that corresponds to the leadership key.
    pub fn with_name(self, name: Vec<u8>) -> (leader: LeaderKey)
        ensures
            leader@ == (LeaderKeyView { name: name@, ..self@ }),
    {
        LeaderKey { name, key: self.key, rev: self.rev, lease: self.lease }
    }

    /// An opaque key representing the ownership of the election.
    pub fn with_key(self, key: Vec<u8>) -> (leader: LeaderKey)
        ensures
            leader@ == (LeaderKeyView { key: key@, ..self@ }),
    {
        LeaderKey { name: self.name, key, rev: self.rev, lease: self.lease }
    }

    /// The creation revision of the key
    pub fn with_rev(self, rev: i64) -> (leader: LeaderKey)
        ensures
            leader@ == (LeaderKeyView { rev, ..self@ }),
    {
        LeaderKey { name: self.name, key: self.key, rev, lease: self.lease }
    }

    /// The lease ID of the election leader.
    pub fn with_lease(self, lease: i64) -> (leader: LeaderKey)
        ensures
            leader@ == (LeaderKeyView { lease, ..self@ }),
    {
        LeaderKey { name: self.name, key: self.key, rev: self.rev, lease }
    }

    /// The name in byte. name is the election identifier that corresponds to the leadership key.
    pub fn name(&self) -> (name: &[u8])
        ensures
            name@ == self@.name,
    {
        self.name.as_slice()
    }

    /// The name in string. name is the election identifier that corresponds to the leadership key.
    pub fn name_str(&self) -> (name: Result<&str, Error>)
        ensures
            name is Ok == valid_utf8(self@.name),
            name matches Ok(name) ==> name.spec_bytes() == self@.name && name@ == decode_utf8(
                self@.name,
            ),
    {
        match from_utf8(self.name()) {
            Ok(name) => {
                proof {
                    encode_utf8_decode_utf8(name@);
                }
                Ok(name)
            },
            Err(e) => Err(Error::Utf8Error(e)),
        }
    }

    /// The key in byte. key is an opaque key representing the ownership of the election. If the key
    /// is deleted, then leadership is lost.
    pub fn key(&self) -> (key: &[u8])
        ensures
            key@ == self@.key,
    {
        self.key.as_slice()
    }

    /// The key in string. key is an opaque key representing the ownership of the election. If the key
    /// is deleted, then leadership is lost.
    pub fn key_str(&self) -> (key: Result<&str, Error>)
        ensures
            key is Ok == valid_utf8(self@.key),
            key matches Ok(key) ==> key.spec_bytes() == self@.key && key@ == decode_utf8(
                self@.key,
            ),
    {
        match from_utf8(self.key()) {
            Ok(key) => {
                proof {
                    encode_utf8_decode_utf8(key@);
                }
                Ok(key)
            },
            Err(e) => Err(Error::Utf8Error(e)),
        }
    }

    /// The creation revision of the key.  It can be used to test for ownership
    /// of an election during transactions by testing the key's creation revision
    /// matches rev.
    pub fn rev(&self) -> (rev: i64)
        ensures
            rev == self@.rev,
    {
        self.rev
    }

    /// The lease ID of the election leader.
    pub fn lease(&self) -> (lease: i64)
        ensures
            lease == self@.lease,
    {
        self.lease
    }
}

/// Response for `Campaign` operation.
#[derive(Debug, Clone)]
pub struct CampaignResponse {
    /// The response header.
    pub header: ResponseHeader,
    /// The resources used for holding leadership of the election.
    pub leader: LeaderKey,
}

impl CampaignResponse {
    /// Get response header.
    pub fn header(&self) -> (header: Option<&ResponseHeader>)
        ensures
            header == Some(&self.header),
    {
        Some(&self.header)
    }

    /// Describes the resources used for holding leadership of the election.
    pub fn leader(&self) -> (leader: Option<&LeaderKey>)
        ensures
            leader == Some(&self.leader),
    {
        Some(&self.leader)
    }
}

/// Options for `proclaim` operation.
#[derive(Debug, Clone)]
pub struct ProclaimOptions {
    leader: Option<LeaderKey>,
}

impl View for ProclaimOptions {
    type V = Option<LeaderKey>;

    /// The leadership hold on the election, if one was given.
    closed spec fn view(&self) -> Option<LeaderKey> {
        self.leader
    }
}

impl ProclaimOptions {
    /// Options without a leader key.
    pub fn new() -> (options: ProclaimOptions)
        ensures
            options@ is None,
    {
        ProclaimOptions { leader: None }
    }

    /// The leadership hold on the election.
    pub fn with_leader(self, leader: LeaderKey) -> (options: ProclaimOptions)
        ensures
            options@ == Some(leader),
    {
        ProclaimOptions { leader: Some(leader) }
    }

    /// The leadership hold on the election, if one was given.
    pub fn leader(&self) -> (leader: Option<&LeaderKey>)
        ensures
            leader is Some == self@ is Some,
            leader matches Some(leader) ==> *leader == self@->0,
    {
        self.leader.as_ref()
    }
}

impl Default for ProclaimOptions {
    /// Options without a leader key.
    fn default() -> (options: ProclaimOptions)
        ensures
            options@ is None,
    {
        ProclaimOptions::new()
    }
}

/// Response for `Proclaim` operation.
#[derive(Debug, Clone)]
pub struct ProclaimResponse {
    /// The response header.
    pub header: ResponseHeader,
}

impl ProclaimResponse {
    /// Gets response header.
    pub fn header(&self) -> (header: Option<&ResponseHeader>)
        ensures
            header == Some(&self.header),
    {
        Some(&self.header)
    }
}

/// Response for `Leader` operation.
#[derive(Debug, Clone)]
pub struct LeaderResponse {
    /// The response header.
    pub header: ResponseHeader,
    /// The key-value pair representing the latest leader update.
    pub kv: Option<KeyValue>,
}

impl LeaderResponse {
    /// Gets response header.
    pub fn header(&self) -> (header: Option<&ResponseHeader>)
        ensures
            header == Some(&self.header),
    {
        Some(&self.header)
    }

    /// The key-value pair representing the latest leader update.
    pub fn kv(&self) -> (kv: Option<&KeyValue>)
        ensures
            kv is Some == self.kv is Some,
            kv matches Some(kv) ==> *kv == self.kv->0,
    {
        self.kv.as_ref()
    }
}

/// Options for `resign` operation.
#[derive(Debug, Clone)]
pub struct ResignOptions {
    leader: Option<LeaderKey>,
}

impl View for ResignOptions {
    type V = Option<LeaderKey>;

    /// The leadership to relinquish, if one was given.
    closed spec fn view(&self) -> Option<LeaderKey> {
        self.leader
    }
}

impl ResignOptions {
    /// Options without a leader key.
    pub fn new() -> (options: ResignOptions)
        ensures
            options@ is None,
    {
        ResignOptions { leader: None }
    }

    /// The leadership to relinquish by resignation.
    pub fn with_leader(self, leader: LeaderKey) -> (options: ResignOptions)
        ensures
            options@ == Some(leader),
    {
        ResignOptions { leader: Some(leader) }
    }

    /// The leadership to relinquish, if one was given.
    pub fn leader(&self) -> (leader: Option<&LeaderKey>)
        ensures
            leader is Some == self@ is Some,
            leader matches Some(leader) ==> *leader == self@->0,
    {
        self.leader.as_ref()
    }
}

impl Default for ResignOptions {
    /// Options without a leader key.
    fn default() -> (options: ResignOptions)
        ensures
            options@ is None,
    {
        ResignOptions::new()
    }
}

/// Response for `Resign` operation.
#[derive(Debug, Clone)]
pub struct ResignResponse {
    /// The response header.
    pub header: ResponseHeader,
}

impl ResignResponse {
    /// Gets response header.
    pub fn header(&self) -> (header: Option<&ResponseHeader>)
        ensures
            header == Some(&self.header),
    {
        Some(&self.header)
    }
}

/// What an election client asks of the server.
#[derive(Debug)]
pub enum Request {
    /// Puts a value as eligible for the election on the prefix key.
    Campaign {
        /// The election identifier.
        name: Vec<u8>,
        /// The value to put.
        value: Vec<u8>,
        /// The lease that the candidacy hangs on.
        lease: i64,
    },
    /// Lets the leader announce a new value without another election.
    Proclaim {
        /// The leadership hold on the election.
        leader: LeaderKey,
        /// The value to announce.
        value: Vec<u8>,
    },
    /// Asks for the leader value of the current election.
    Leader {
        /// The election identifier.
        name: Vec<u8>,
    },
    /// Asks for the stream of leader values of the election.
    Observe {
        /// The election identifier.
        name: Vec<u8>,
    },
    /// Releases election leadership.
    Resign {
        /// The leadership to relinquish.
        leader: LeaderKey,
    },
}

impl Request {
    /// The request of `campaign`.
    pub fn campaign(name: Vec<u8>, value: Vec<u8>, lease: i64) -> (request: Request)
        ensures
            request == (Request::Campaign { name, value, lease }),
    {
        Request::Campaign { name, value, lease }
    }

    /// The request of `proclaim`, for options that name a leader key.
    pub fn proclaim(value: Vec<u8>, options: Option<ProclaimOptions>) -> (request: Request)
        requires
            options matches Some(options) && options@ is Some,
        ensures
            request == (Request::Proclaim { leader: options->0@->0, value }),
    {
        let options = options.unwrap();
        Request::Proclaim { leader: options.leader.unwrap(), value }
    }

    /// The request of `leader`.
    pub fn leader(name: Vec<u8>) -> (request: Request)
        ensures
            request == (Request::Leader { name }),
    {
        Request::Leader { name }
    }

    /// The request of `observe`.
    pub fn observe(name: Vec<u8>) -> (request: Request)
        ensures
            request == (Request::Observe { name }),
    {
        Request::Observe { name }
    }

    /// The request of `resign`, for options that name a leader key.
    pub fn resign(options: Option<ResignOptions>) -> (request: Request)
        requires
            options matches Some(options) && options@ is Some,
        ensures
            request == (Request::Resign { leader: options->0@->0 }),
    {
        let options = options.unwrap();
        Request::Resign { leader: options.leader.unwrap() }
    }
}

} // verus!
