//! The data exchanged with the watch endpoint.

use vstd::prelude::*;

verus! {

/// The view of an optional string: its characters, if present.
pub open spec fn opt_view(o: Option<String>) -> Option<Seq<char>> {
    match o {
        Some(s) => Some(s@),
        None => None,
    }
}

/// The metadata fields of a remote object that the reflector reads.
#[derive(Debug)]
pub struct ObjectMeta {
    /// The unique identifier of the object; the key in the local mirror.
    pub uid: Option<String>,
    /// The server-assigned version of the object.
    pub resource_version: Option<String>,
}

/// A remote object: its metadata and the payload passed through unchanged.
#[derive(Debug)]
pub struct Object<T> {
    pub metadata: ObjectMeta,
    pub data: T,
}

impl<T> Object<T> {
    /// The resource version carried by the object's metadata.
    pub open spec fn version(&self) -> Option<Seq<char>> {
        opt_view(self.metadata.resource_version)
    }
}

/// An event from a watch stream.
#[derive(Debug)]
pub enum WatchEvent<T> {
    Added(Object<T>),
    Modified(Object<T>),
    Deleted(Object<T>),
    Bookmark(Object<T>),
}

impl<T> WatchEvent<T> {
    /// The object embedded in the event.
    pub open spec fn object(&self) -> Object<T> {
        match self {
            WatchEvent::Added(o) => *o,
            WatchEvent::Modified(o) => *o,
            WatchEvent::Deleted(o) => *o,
            WatchEvent::Bookmark(o) => *o,
        }
    }
}

/// A well-formed item of a watch stream: a known event, or a payload that
/// is not recognised.
#[derive(Debug)]
pub enum WatchResponse<T> {
    Event(WatchEvent<T>),
    Other,
}

/// A failed watch invocation, classified by the watcher.
#[derive(Debug)]
pub enum InvocationError<E> {
    /// The server no longer accepts the resource version that was sent.
    Desync { source: E },
    /// Any other failure.
    Other { source: E },
}

/// The options sent with a watch invocation.
#[derive(Debug)]
pub struct WatchOptions {
    pub field_selector: Option<String>,
    pub label_selector: Option<String>,
    pub pretty: Option<bool>,
    pub resource_version: Option<String>,
    pub timeout_seconds: Option<u32>,
    pub allow_watch_bookmarks: Option<bool>,
}

} // verus!
