//! Error contexts: where and when an error happened, in which component,
//! under which correlation id, with free-form metadata.

use vstd::prelude::*;
use crate::clock::now_nanos;
use crate::error::types::Error;
use crate::strmap::StrMap;
use crate::text::{cat, cat3, dec, decimal, owned};

verus! {

/// A correlation id.
#[verifier::external_type_specification]
#[verifier::external_body]
pub struct ExUuid(uuid::Uuid);

/// `fastrand::u128(..)`: 16 bytes from fastrand's generator for this
/// thread, which is seeded from the time and the thread and cannot fail
/// (std's thread-local access panics only when used from a thread-local
/// destructor while the thread exits, which this library never does).
/// Nothing is stated of the bytes.
#[verifier::external_body]
fn random_id_bytes() -> [u8; 16] {
    fastrand::u128(..).to_le_bytes()
}

/// `uuid::Builder::from_random_bytes(..).into_uuid()`: the version 4 id
/// made of `bytes`, with its version and variant bits set. Nothing is
/// stated of the id.
#[verifier::external_body]
fn random_uuid(bytes: [u8; 16]) -> uuid::Uuid {
    uuid::Builder::from_random_bytes(bytes).into_uuid()
}

/// A fresh random (version 4) correlation id.
pub fn new_correlation_id() -> uuid::Uuid {
    random_uuid(random_id_bytes())
}

/// `Clone` of `uuid::Uuid`, which is `Copy` there: the copy is the same id.
pub assume_specification[ <uuid::Uuid as Clone>::clone ](u: &uuid::Uuid) -> (r: uuid::Uuid)
    ensures
        r == *u,
;

/// A place in the source code.
#[derive(Debug, Clone, Copy)]
pub struct Location {
    /// Source file.
    pub file: &'static str,
    /// Line.
    pub line: u32,
    /// Column.
    pub column: u32,
}

/// "file:line:column".
pub open spec fn location_text(l: Location) -> Seq<char> {
    l.file@ + ":"@ + dec(l.line as nat) + ":"@ + dec(l.column as nat)
}

impl Location {
    /// A location.
    pub fn new(file: &'static str, line: u32, column: u32) -> (l: Self)
        ensures
            l == (Location { file, line, column }),
    {
        Location { file, line, column }
    }

    /// "file:line:column".
    pub fn to_string(&self) -> (r: String)
        ensures
            r@ == location_text(*self),
    {
        let mut r = cat3(self.file, ":", decimal(self.line as u64).as_str());
        r.append(":");
        r.append(decimal(self.column as u64).as_str());
        r
    }
}

/// The context of an error.
#[derive(Debug)]
pub struct ErrorContext {
    /// What was being done.
    pub message: String,
    /// Where the context was added.
    pub location: Option<Location>,
    /// When, in nanoseconds since the Unix epoch.
    pub timestamp: i64,
    /// The component that reported the error.
    pub component: String,
    /// Correlation id for tracing.
    pub correlation_id: uuid::Uuid,
    /// Metadata.
    pub metadata: StrMap<String>,
}

/// "message", then " at location" when there is one, then " [component]".
pub open spec fn context_text(c: ErrorContext) -> Seq<char> {
    let head = match c.location {
        Some(l) => c.message@ + " at "@ + location_text(l),
        None => c.message@,
    };
    head + " ["@ + c.component@ + "]"@
}

/// Two contexts that agree on every field.
pub open spec fn same_context(a: ErrorContext, b: ErrorContext) -> bool {
    &&& a.message == b.message
    &&& a.location == b.location
    &&& a.timestamp == b.timestamp
    &&& a.component == b.component
    &&& a.correlation_id == b.correlation_id
    &&& a.metadata@ == b.metadata@
    &&& a.metadata.key_list() == b.metadata.key_list()
}

impl Clone for ErrorContext {
    fn clone(&self) -> (r: Self)
        ensures
            same_context(r, *self),
    {
        let metadata = self.metadata.clone();
        assert(metadata@ =~= self.metadata@);
        ErrorContext {
            message: self.message.clone(),
            location: self.location,
            timestamp: self.timestamp,
            component: self.component.clone(),
            correlation_id: self.correlation_id.clone(),
            metadata,
        }
    }
}

impl ErrorContext {
    /// A context at a location, in component "unknown", stamped now, with a
    /// fresh correlation id and no metadata.
    pub fn new(message: String, file: &'static str, line: u32, column: u32) -> (c: Self)
        ensures
            c.message == message,
            c.location == Some(Location { file, line, column }),
            c.component@ == "unknown"@,
            c.metadata@ == Map::<Seq<char>, String>::empty(),
    {
        ErrorContext {
            message,
            location: Some(Location::new(file, line, column)),
            timestamp: now_nanos(),
            component: owned("unknown"),
            correlation_id: new_correlation_id(),
            metadata: StrMap::new(),
        }
    }

    /// A context without location, in component "unknown", stamped now,
    /// with a fresh correlation id and no metadata.
    pub fn new_simple(message: String) -> (c: Self)
        ensures
            c.message == message,
            c.location is None,
            c.component@ == "unknown"@,
            c.metadata@ == Map::<Seq<char>, String>::empty(),
    {
        ErrorContext {
            message,
            location: None,
            timestamp: now_nanos(),
            component: owned("unknown"),
            correlation_id: new_correlation_id(),
            metadata: StrMap::new(),
        }
    }

    /// The same context in another component.
    pub fn with_component(self, component: String) -> (c: Self)
        ensures
            c == (ErrorContext { component, ..self }),
    {
        let mut c = self;
        c.component = component;
        c
    }

    /// The same context with metadata `key` set to `value`.
    pub fn with_metadata(self, key: String, value: String) -> (c: Self)
        ensures
            c.metadata@ == self.metadata@.insert(key@, value),
            c.message == self.message,
            c.location == self.location,
            c.timestamp == self.timestamp,
            c.component == self.component,
            c.correlation_id == self.correlation_id,
    {
        let mut c = self;
        c.metadata.insert(key, value);
        c
    }

    /// The same context with another correlation id.
    pub fn with_correlation_id(self, correlation_id: uuid::Uuid) -> (c: Self)
        ensures
            c == (ErrorContext { correlation_id, ..self }),
    {
        let mut c = self;
        c.correlation_id = correlation_id;
        c
    }

    /// "message at file:line:column [component]", without the location part
    /// when there is none.
    pub fn to_string(&self) -> (r: String)
        ensures
            r@ == context_text(*self),
    {
        let mut r = owned(self.message.as_str());
        match &self.location {
            Some(l) => {
                r.append(" at ");
                r.append(l.to_string().as_str());
            },
            None => {},
        }
        r.append(" [");
        r.append(self.component.as_str());
        r.append("]");
        r
    }
}

/// Adds context to the error of a result.
pub trait ContextExt<T> {
    /// Adds a context message.
    fn with_context<F>(self, f: F) -> crate::error::Result<T> where F: FnOnce() -> String;

    /// Adds a context message at a location.
    fn with_context_at<F>(self, f: F, file: &'static str, line: u32, column: u32) -> crate::error::Result<T> where
        F: FnOnce() -> String;

    /// Adds a context message in a component.
    fn with_component_context<F>(self, f: F, component: String) -> crate::error::Result<T> where
        F: FnOnce() -> String;
}

/// Turns an absent value into an error with context.
pub trait OptionContextExt<T> {
    /// Turns `None` into an error with a context message.
    fn with_context<F>(self, f: F) -> crate::error::Result<T> where F: FnOnce() -> String;

    /// Turns `None` into an error with a context message at a location.
    fn with_context_at<F>(self, f: F, file: &'static str, line: u32, column: u32) -> crate::error::Result<T> where
        F: FnOnce() -> String;

    /// Turns `None` into an error with a context message in a component.
    fn with_component_context<F>(self, f: F, component: String) -> crate::error::Result<T> where
        F: FnOnce() -> String;
}

/// The correlation id of an error: errors carry none, so there is never one.
pub fn extract_correlation_id(_error: &Error) -> (r: Option<uuid::Uuid>)
    ensures
        r is None,
{
    None
}

/// The texts of contexts joined by " -> ".
pub open spec fn chain_text(cs: Seq<ErrorContext>) -> Seq<char>
    decreases cs.len(),
{
    if cs.len() == 0 {
        Seq::empty()
    } else if cs.len() == 1 {
        context_text(cs[0])
    } else {
        chain_text(cs.drop_last()) + " -> "@ + context_text(cs.last())
    }
}

/// The texts of the contexts, in order, joined by " -> ".
pub fn create_context_chain(contexts: Vec<ErrorContext>) -> (r: String)
    ensures
        r@ == chain_text(contexts@),
{
    let mut r = String::new();
    let mut i: usize = 0;
    while i < contexts.len()
        invariant
            i <= contexts@.len(),
            r@ == chain_text(contexts@.take(i as int)),
        decreases contexts@.len() - i,
    {
        let t = contexts[i].to_string();
        proof {
            let s = contexts@.take(i + 1);
            assert(s.drop_last() =~= contexts@.take(i as int));
            assert(s.last() == contexts@[i as int]);
        }
        if i > 0 {
            r.append(" -> ");
        }
        r.append(t.as_str());
        proof {
            if i == 0 {
                assert(contexts@.take(0) =~= Seq::<ErrorContext>::empty());
                assert(r@ =~= context_text(contexts@[0]));
            }
        }
        i = i + 1;
    }
    assert(contexts@.take(contexts@.len() as int) =~= contexts@);
    r
}

/// A copy of a context for reporting outside; nothing is removed.
pub fn sanitize_context(context: &ErrorContext) -> (r: ErrorContext)
    ensures
        same_context(r, *context),
{
    context.clone()
}

} // verus!
