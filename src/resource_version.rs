//! Tracking of the resource version to resume watching from.

use vstd::prelude::*;
use crate::watch::{opt_view, WatchEvent, WatchResponse};

verus! {

/// The resource version that a stream item contributes, if any: that of a
/// known event whose object carries one. Errors, unrecognised payloads and
/// objects without a version contribute nothing.
pub open spec fn item_version<T, S>(item: Result<WatchResponse<T>, S>) -> Option<Seq<char>> {
    match item {
        Ok(WatchResponse::Event(event)) => event.object().version(),
        _ => None,
    }
}

/// The cursor after the items of a session were processed one by one from
/// `cursor`.
pub open spec fn cursor_after<T, S>(
    cursor: Option<Seq<char>>,
    items: Seq<Result<WatchResponse<T>, S>>,
) -> Option<Seq<char>>
    decreases items.len(),
{
    if items.len() == 0 {
        cursor
    } else {
        let next = match item_version(items[0]) {
            Some(v) => Some(v),
            None => cursor,
        };
        cursor_after(next, items.drop_first())
    }
}

/// Processing a session in two parts, one after the other, leaves the
/// cursor where processing it whole does.
pub proof fn cursor_after_concat<T, S>(
    cursor: Option<Seq<char>>,
    first: Seq<Result<WatchResponse<T>, S>>,
    second: Seq<Result<WatchResponse<T>, S>>,
)
    ensures
        cursor_after(cursor, first + second) == cursor_after(cursor_after(cursor, first), second),
    decreases first.len(),
{
    if first.len() == 0 {
        assert(first + second =~= second);
    } else {
        let next = match item_version(first[0]) {
            Some(v) => Some(v),
            None => cursor,
        };
        assert((first + second)[0] == first[0]);
        assert((first + second).drop_first() =~= first.drop_first() + second);
        cursor_after_concat(next, first.drop_first(), second);
    }
}

/// Processing a single item moves the cursor to that item's version, if
/// it carries one.
pub proof fn cursor_after_one<T, S>(cursor: Option<Seq<char>>, item: Result<WatchResponse<T>, S>)
    ensures
        cursor_after(cursor, seq![item]) == match item_version(item) {
            Some(v) => Some(v),
            None => cursor,
        },
{
    let items = seq![item];
    let next = match item_version(item) {
        Some(v) => Some(v),
        None => cursor,
    };
    assert(items[0] == item);
    assert(items.drop_first().len() == 0);
    assert(cursor_after(next, items.drop_first()) == next);
}

/// The version of the last item of `items` that carries one.
pub open spec fn last_version<T, S>(items: Seq<Result<WatchResponse<T>, S>>) -> Option<Seq<char>>
    decreases items.len(),
{
    if items.len() == 0 {
        None
    } else {
        match item_version(items.last()) {
            Some(v) => Some(v),
            None => last_version(items.drop_last()),
        }
    }
}

/// After a session, the cursor is the version of the last versioned item of
/// that session; where no item carried a version, it is left as it was.
pub proof fn cursor_is_last_version<T, S>(
    cursor: Option<Seq<char>>,
    items: Seq<Result<WatchResponse<T>, S>>,
)
    ensures
        cursor_after(cursor, items) == match last_version(items) {
            Some(v) => Some(v),
            None => cursor,
        },
    decreases items.len(),
{
    if items.len() > 0 {
        let next = match item_version(items[0]) {
            Some(v) => Some(v),
            None => cursor,
        };
        let rest = items.drop_first();
        cursor_is_last_version(next, rest);
        if rest.len() > 0 {
            last_version_of_tail(items);
        } else {
            assert(items.last() == items[0]);
            assert(items.drop_last().len() == 0);
            assert(last_version(items.drop_last()) is None);
        }
        assert(cursor_after(cursor, items) == cursor_after(next, rest));
    }
}

/// Removing the first item changes the last version only where no other
/// item carries one.
proof fn last_version_of_tail<T, S>(items: Seq<Result<WatchResponse<T>, S>>)
    requires
        items.len() > 1,
    ensures
        last_version(items) == match last_version(items.drop_first()) {
            Some(v) => Some(v),
            None => item_version(items[0]),
        },
    decreases items.len(),
{
    let rest = items.drop_first();
    let init = items.drop_last();
    assert(rest.last() == items.last());
    if item_version(items.last()) is None {
        assert(last_version(items) == last_version(init));
        assert(last_version(rest) == last_version(rest.drop_last()));
        if items.len() > 2 {
            assert(rest.drop_last() =~= init.drop_first());
            assert(init[0] == items[0]);
            last_version_of_tail(init);
        } else {
            assert(rest.drop_last().len() == 0);
            assert(init.last() == items[0]);
            assert(init.drop_last().len() == 0);
            assert(last_version(init) == match item_version(init.last()) {
                Some(v) => Some(v),
                None => last_version(init.drop_last()),
            });
        }
    }
}

/// A resource version taken from an event, to be committed once the event
/// is applied.
pub struct Candidate {
    version: String,
}

impl View for Candidate {
    type V = Seq<char>;

    closed spec fn view(&self) -> Seq<char> {
        self.version@
    }
}

impl Candidate {
    /// Takes the resource version of the event's object, if it has one.
    pub fn from_watch_event<T>(event: &WatchEvent<T>) -> (r: Option<Candidate>)
        ensures
            event.object().version() == match r {
                Some(c) => Some(c@),
                None => None,
            },
    {
        let object = match event {
            WatchEvent::Added(o) => o,
            WatchEvent::Modified(o) => o,
            WatchEvent::Deleted(o) => o,
            WatchEvent::Bookmark(o) => o,
        };
        match &object.metadata.resource_version {
            Some(v) => Some(Candidate { version: v.clone() }),
            None => None,
        }
    }
}

/// The resource version cursor: what the next watch invocation resumes
/// after. Absent means "start from the current snapshot".
pub struct State {
    current: Option<String>,
}

impl View for State {
    type V = Option<Seq<char>>;

    closed spec fn view(&self) -> Option<Seq<char>> {
        opt_view(self.current)
    }
}

impl State {
    /// A cursor with no version.
    pub fn new() -> (r: State)
        ensures
            r@ is None,
    {
        State { current: None }
    }

    /// The version to send on the next invocation.
    pub fn get(&self) -> (r: Option<String>)
        ensures
            opt_view(r) == self@,
    {
        match &self.current {
            Some(v) => Some(v.clone()),
            None => None,
        }
    }

    /// Overwrites the cursor with the candidate's version.
    pub fn update(&mut self, candidate: Candidate)
        ensures
            final(self)@ == Some(candidate@),
    {
        self.current = Some(candidate.version);
    }

    /// Clears the cursor.
    pub fn reset(&mut self)
        ensures
            final(self)@ is None,
    {
        self.current = None;
    }
}

} // verus!
