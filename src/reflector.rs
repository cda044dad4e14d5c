//! The decisions of the watch loop: what to request, how to react to a
//! failed request, and what each stream item does to the local state.
//!
//! The loop itself (issuing requests, reading the stream, sleeping until a
//! delete deadline or between requests) belongs to the caller, which hands
//! each outcome to the methods here and carries out the operations they
//! return on its state writer.

use vstd::prelude::*;
use crate::delayed_delete::{deadline_of, drained, due_len, DelayedDelete};
use crate::resource_version::{cursor_after, cursor_after_one, item_version, Candidate, State};
use crate::watch::{
    opt_view, InvocationError, Object, WatchEvent, WatchOptions, WatchResponse,
};

verus! {

/// A mutation of the local state, keyed by the object's uid.
#[derive(Debug)]
pub enum StateOp<T> {
    Add(Object<T>),
    Update(Object<T>),
    Delete(Object<T>),
}

/// Errors that end the watch loop.
#[derive(Debug)]
pub enum Error<I, S> {
    /// The watch invocation failed for a reason other than a desync.
    Invocation { source: I },
    /// The stream failed with an error.
    Streaming { source: S },
}

/// The state operation that an event calls for at once; a deletion is
/// deferred instead when deletes are delayed, and a bookmark changes nothing.
pub open spec fn event_op<T>(event: WatchEvent<T>, delays_deletes: bool) -> Option<StateOp<T>> {
    match event {
        WatchEvent::Added(o) => Some(StateOp::Add(o)),
        WatchEvent::Modified(o) => Some(StateOp::Update(o)),
        WatchEvent::Deleted(o) => if delays_deletes {
            None
        } else {
            Some(StateOp::Delete(o))
        },
        WatchEvent::Bookmark(_) => None,
    }
}

/// The state of a reflector: its configuration, the resource version
/// cursor and, where deletes are delayed, the queue of pending deletions.
pub struct Reflector<T> {
    field_selector: Option<String>,
    label_selector: Option<String>,
    resource_version: State,
    pause_between_requests: u64,
    delayed_delete: Option<DelayedDelete<Object<T>>>,
}

impl<T> Reflector<T> {
    pub closed spec fn field_selector(&self) -> Option<Seq<char>> {
        opt_view(self.field_selector)
    }

    pub closed spec fn label_selector(&self) -> Option<Seq<char>> {
        opt_view(self.label_selector)
    }

    /// The resource version that the next invocation resumes after.
    pub closed spec fn cursor(&self) -> Option<Seq<char>> {
        self.resource_version@
    }

    /// The pause between two watch invocations, in milliseconds.
    pub closed spec fn pause(&self) -> u64 {
        self.pause_between_requests
    }

    /// Whether deletions are delayed.
    pub closed spec fn delays_deletes(&self) -> bool {
        self.delayed_delete is Some
    }

    /// The delay applied to deletions, where they are delayed.
    pub closed spec fn delete_delay(&self) -> u64 {
        match self.delayed_delete {
            Some(d) => d.delay(),
            None => 0,
        }
    }

    /// The pending deletions, front first; empty where deletes are not
    /// delayed.
    pub closed spec fn pending(&self) -> Seq<(Object<T>, u64)> {
        match self.delayed_delete {
            Some(d) => d.queue(),
            None => Seq::empty(),
        }
    }

    /// The configuration is the same in both states.
    pub open spec fn same_config(&self, other: &Reflector<T>) -> bool {
        &&& self.field_selector() == other.field_selector()
        &&& self.label_selector() == other.label_selector()
        &&& self.pause() == other.pause()
        &&& self.delays_deletes() == other.delays_deletes()
        &&& self.delete_delay() == other.delete_delay()
    }

    /// The pending deletions after `event` is processed at `now`.
    pub open spec fn pending_after(&self, event: WatchEvent<T>, now: u64) -> Seq<(Object<T>, u64)> {
        match event {
            WatchEvent::Deleted(o) => if self.delays_deletes() {
                self.pending().push((o, deadline_of(now, self.delete_delay())))
            } else {
                self.pending()
            },
            _ => self.pending(),
        }
    }

    /// A reflector with an absent cursor and no pending deletion. Deletions
    /// are delayed by `delay_deletes_for` milliseconds where it is given.
    pub fn new(
        field_selector: Option<String>,
        label_selector: Option<String>,
        pause_between_requests: u64,
        delay_deletes_for: Option<u64>,
    ) -> (r: Reflector<T>)
        ensures
            r.field_selector() == opt_view(field_selector),
            r.label_selector() == opt_view(label_selector),
            r.pause() == pause_between_requests,
            r.delays_deletes() == (delay_deletes_for is Some),
            delay_deletes_for matches Some(d) ==> r.delete_delay() == d,
            r.cursor() is None,
            r.pending() == Seq::<(Object<T>, u64)>::empty(),
    {
        let delayed_delete = match delay_deletes_for {
            Some(d) => Some(DelayedDelete::new(d)),
            None => None,
        };
        Reflector {
            field_selector,
            label_selector,
            resource_version: State::new(),
            pause_between_requests,
            delayed_delete,
        }
    }

    /// The pause to take between two watch invocations, in milliseconds.
    pub fn pause_between_requests(&self) -> (r: u64)
        ensures
            r == self.pause(),
    {
        self.pause_between_requests
    }

    /// The options of the next watch invocation: the configured selectors,
    /// the current cursor, bookmarks allowed, no pretty-printing and no
    /// timeout.
    pub fn watch_options(&self) -> (r: WatchOptions)
        ensures
            opt_view(r.field_selector) == self.field_selector(),
            opt_view(r.label_selector) == self.label_selector(),
            opt_view(r.resource_version) == self.cursor(),
            r.allow_watch_bookmarks == Some(true),
            r.pretty is None,
            r.timeout_seconds is None,
    {
        let field_selector = match &self.field_selector {
            Some(s) => Some(s.clone()),
            None => None,
        };
        let label_selector = match &self.label_selector {
            Some(s) => Some(s.clone()),
            None => None,
        };
        WatchOptions {
            field_selector,
            label_selector,
            pretty: None,
            resource_version: self.resource_version.get(),
            timeout_seconds: None,
            allow_watch_bookmarks: Some(true),
        }
    }

    /// Reacts to a failed watch invocation. On a desync the cursor is reset
    /// and the pending deletions are dropped without being handed out;
    /// `Ok` then asks the caller to signal `resync` to its state writer and
    /// invoke again. Any other failure is fatal and leaves the state as it
    /// was. No state operation comes of either, so the local state stays
    /// as it was until events of a new session arrive.
    pub fn handle_invocation_error<I, S>(&mut self, error: InvocationError<I>) -> (r: Result<
        (),
        Error<I, S>,
    >)
        ensures
            match error {
                InvocationError::Desync { .. } => {
                    &&& r is Ok
                    &&& final(self).cursor() is None
                    &&& final(self).pending() == Seq::<(Object<T>, u64)>::empty()
                    &&& final(self).same_config(old(self))
                },
                InvocationError::Other { source } => {
                    &&& r == Err::<(), Error<I, S>>(Error::Invocation { source })
                    &&& *final(self) == *old(self)
                },
            },
    {
        match error {
            InvocationError::Desync { source: _ } => {
                self.resource_version.reset();
                match &mut self.delayed_delete {
                    Some(d) => d.clear(),
                    None => {},
                }
                Ok(())
            },
            InvocationError::Other { source } => Err(Error::Invocation { source }),
        }
    }

    /// Translates an event into the state operation it calls for at once,
    /// scheduling a deletion observed at `now` where deletes are delayed.
    pub fn process_event(&mut self, event: WatchEvent<T>, now: u64) -> (r: Option<StateOp<T>>)
        ensures
            r == event_op(event, old(self).delays_deletes()),
            final(self).pending() == old(self).pending_after(event, now),
            final(self).cursor() == old(self).cursor(),
            final(self).same_config(old(self)),
    {
        match event {
            WatchEvent::Added(o) => Some(StateOp::Add(o)),
            WatchEvent::Modified(o) => Some(StateOp::Update(o)),
            WatchEvent::Deleted(o) => match &mut self.delayed_delete {
                Some(d) => {
                    d.schedule_delete(o, now);
                    None
                },
                None => Some(StateOp::Delete(o)),
            },
            WatchEvent::Bookmark(_) => None,
        }
    }

    /// Processes an item of the watch stream received at `now`. A stream
    /// error is fatal. An unrecognised payload, or an event whose object
    /// carries no resource version, is skipped and changes nothing. Any
    /// other event is processed, and then its resource version becomes the
    /// cursor.
    pub fn process_stream_item<I, S>(
        &mut self,
        item: Result<WatchResponse<T>, S>,
        now: u64,
    ) -> (r: Result<Option<StateOp<T>>, Error<I, S>>)
        ensures
            final(self).cursor() == match item_version(item) {
                Some(v) => Some(v),
                None => old(self).cursor(),
            },
            final(self).cursor() == cursor_after(old(self).cursor(), seq![item]),
            match item {
                Err(source) => {
                    &&& r == Err::<Option<StateOp<T>>, Error<I, S>>(Error::Streaming { source })
                    &&& *final(self) == *old(self)
                },
                Ok(WatchResponse::Event(event)) => if event.object().version() is Some {
                    &&& r == Ok::<Option<StateOp<T>>, Error<I, S>>(
                        event_op(event, old(self).delays_deletes()),
                    )
                    &&& final(self).pending() == old(self).pending_after(event, now)
                    &&& final(self).same_config(old(self))
                } else {
                    &&& r == Ok::<Option<StateOp<T>>, Error<I, S>>(None)
                    &&& *final(self) == *old(self)
                },
                Ok(WatchResponse::Other) => {
                    &&& r == Ok::<Option<StateOp<T>>, Error<I, S>>(None)
                    &&& *final(self) == *old(self)
                },
            },
    {
        proof {
            cursor_after_one(self.cursor(), item);
        }
        let response = match item {
            Ok(response) => response,
            Err(source) => {
                return Err(Error::Streaming { source });
            },
        };
        let event = match response {
            WatchResponse::Event(event) => event,
            WatchResponse::Other => {
                return Ok(None);
            },
        };
        let candidate = match Candidate::from_watch_event(&event) {
            Some(c) => c,
            None => {
                return Ok(None);
            },
        };
        let op = self.process_event(event, now);
        self.resource_version.update(candidate);
        Ok(op)
    }

    /// The deadline of the front pending deletion, if any.
    pub fn next_delete_deadline(&self) -> (r: Option<u64>)
        ensures
            r == if self.pending().len() == 0 {
                None
            } else {
                Some(self.pending()[0].1)
            },
    {
        match &self.delayed_delete {
            Some(d) => d.next_deadline(),
            None => None,
        }
    }

    /// Takes from the front of the pending deletions every one whose
    /// deadline is at or before `now`, in the order they were scheduled, to
    /// be deleted from the state.
    pub fn perform_delayed_deletes(&mut self, now: u64) -> (r: Vec<Object<T>>)
        ensures
            r@ == drained(old(self).pending(), now),
            final(self).pending() == old(self).pending().skip(
                due_len(old(self).pending(), now) as int,
            ),
            final(self).cursor() == old(self).cursor(),
            final(self).same_config(old(self)),
    {
        match &mut self.delayed_delete {
            Some(d) => d.perform(now),
            None => Vec::new(),
        }
    }
}

} // verus!
