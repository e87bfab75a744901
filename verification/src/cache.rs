//! Cache abstraction: key/value persistence per entity kind.
//!
//! The library only decides *what* to load and store; an implementation
//! outside the library (a filesystem store) does the I/O. Implementations
//! must be read-after-write on a single key: `has(k)` observes a value
//! written by a prior completed `store` of the same key.

use vstd::prelude::*;

verus! {

/// The kinds of entity the cache persists as JSON documents.
#[derive(Debug, Copy, Clone, Eq, PartialEq, Structural)]
pub enum EntityKind {
    Tweet,
    User,
    Media,
    /// A stream routing decision; its presence marks a tweet as emitted.
    RouteDecision,
}

/// The cache-relative directory of one entity kind.
pub open spec fn spec_entity_dir(kind: EntityKind) -> Seq<char> {
    match kind {
        EntityKind::Tweet => "tweets"@,
        EntityKind::User => "users"@,
        EntityKind::Media => "media"@,
        EntityKind::RouteDecision => "stream"@,
    }
}

/// The cache-relative path of one stored entity:
/// `<kind dir>/<key>.json`.
pub fn entity_path(kind: EntityKind, key: &str) -> (r: String)
    ensures
        r@ == spec_entity_dir(kind) + "/"@ + key@ + ".json"@,
{
    let mut s = String::new();
    match kind {
        EntityKind::Tweet => s.append("tweets"),
        EntityKind::User => s.append("users"),
        EntityKind::Media => s.append("media"),
        EntityKind::RouteDecision => s.append("stream"),
    }
    s.append("/");
    s.append(key);
    s.append(".json");
    s
}

/// The kinds of per-subject cursor the cache persists as raw text files
/// whose whole content is the head; an absent file is an uninitialized
/// cursor.
#[derive(Debug, Copy, Clone, Eq, PartialEq, Structural)]
pub enum CursorKind {
    List,
    Timeline,
}

/// The cache-relative directory of one cursor kind.
pub open spec fn spec_cursor_dir(kind: CursorKind) -> Seq<char> {
    match kind {
        CursorKind::List => "lists"@,
        CursorKind::Timeline => "users"@,
    }
}

/// The cache-relative path of one cursor file: `<kind dir>/<subject>`.
pub fn cursor_path(kind: CursorKind, key: &str) -> (r: String)
    ensures
        r@ == spec_cursor_dir(kind) + "/"@ + key@,
{
    let mut s = String::new();
    match kind {
        CursorKind::List => s.append("lists"),
        CursorKind::Timeline => s.append("users"),
    }
    s.append("/");
    s.append(key);
    s
}

/// An entity that the cache stores, addressed by its key.
pub trait CacheItem {
    fn key(&self) -> &str;
}

/// A cache backend with its error type.
pub trait Cache {
    type Error;
}

/// Loading side of a cache for one entity kind.
pub trait LoadCache<Item: CacheItem>: Cache {
    fn load(&self, key: &str) -> Result<Item, Self::Error>;

    fn has(&self, key: &str) -> Result<bool, Self::Error>;
}

/// Storing side of a cache for one entity kind.
pub trait StoreCache<Item: CacheItem>: Cache {
    fn store(&self, item: &Item) -> Result<String, Self::Error>;
}

impl CacheItem for crate::model::Tweet {
    fn key(&self) -> &str {
        self.id()
    }
}

impl CacheItem for crate::model::User {
    fn key(&self) -> &str {
        self.id()
    }
}

impl CacheItem for crate::model::Media {
    fn key(&self) -> &str {
        self.media_key.as_str()
    }
}

} // verus!
