//! The complete answer of one invocation: items and settings.
use vstd::prelude::*;

use crate::Item;

verus! {

/// How long results may be cached, in milliseconds, and whether stale
/// results are shown while they are refreshed.
#[derive(Debug, Clone, Copy, Default, PartialEq, Eq)]
pub struct CacheSettings {
    pub seconds: Option<u64>,
    pub loose_reload: Option<bool>,
}

/// A number of seconds as the response writes it: whole, or with
/// milliseconds.
#[derive(Debug, Clone, Copy, PartialEq, Eq)]
pub enum Seconds {
    Whole(u64),
    Millis(u64),
}

/// A duration of `millis` milliseconds as written seconds: a whole number
/// where it has no fraction of a second.
pub fn seconds_value(millis: u64) -> (r: Seconds)
    ensures
        millis % 1000 == 0 ==> r == Seconds::Whole(millis / 1000),
        millis % 1000 != 0 ==> r == Seconds::Millis(millis),
{
    if millis % 1000 == 0 {
        Seconds::Whole(millis / 1000)
    } else {
        Seconds::Millis(millis)
    }
}

/// The items to show, and when to run again (`rerun`, in milliseconds),
/// caching, and whether the launcher should not learn from the choice.
#[derive(Debug, Clone, Default, PartialEq, Eq)]
pub struct Response {
    pub rerun: Option<u64>,
    pub cache: Option<CacheSettings>,
    pub skip_knowledge: Option<bool>,
    pub items: Vec<Item>,
}

impl Response {
    /// A response with no items and no settings.
    pub fn new() -> (r: Response)
        ensures
            r.items@.len() == 0,
            r.rerun is None && r.cache is None && r.skip_knowledge is None,
    {
        Response { rerun: None, cache: None, skip_knowledge: None, items: Vec::new() }
    }

    /// A response with `items` and no settings.
    pub fn new_with_items(items: Vec<Item>) -> (r: Response)
        ensures
            r.items@ == items@,
            r.rerun is None && r.cache is None && r.skip_knowledge is None,
    {
        Response { rerun: None, cache: None, skip_knowledge: None, items }
    }

    /// Runs the invocation again after `millis` milliseconds.
    pub fn rerun(&mut self, millis: u64)
        ensures
            *final(self) == (Response { rerun: Some(millis), ..*old(self) }),
    {
        self.rerun = Some(millis);
    }

    /// Sets whether the launcher should not learn from the choice.
    pub fn skip_knowledge(&mut self, skip_knowledge: bool)
        ensures
            *final(self) == (Response { skip_knowledge: Some(skip_knowledge), ..*old(self) }),
    {
        self.skip_knowledge = Some(skip_knowledge);
    }

    /// Caches the results for `millis` milliseconds; with `loose_reload`,
    /// stale results are shown while they are refreshed.
    pub fn cache(&mut self, millis: u64, loose_reload: bool)
        ensures
            *final(self) == (Response {
                cache: Some(CacheSettings { seconds: Some(millis), loose_reload: Some(loose_reload) }),
                ..*old(self)
            }),
    {
        self.cache = Some(CacheSettings { seconds: Some(millis), loose_reload: Some(loose_reload) });
    }

    /// Replaces the items.
    pub fn items(&mut self, items: Vec<Item>)
        ensures
            final(self).items@ == items@,
            *final(self) == (Response { items: final(self).items, ..*old(self) }),
    {
        self.items = items;
    }

    /// Adds `items` after the present ones.
    pub fn append_items(&mut self, items: Vec<Item>)
        ensures
            final(self).items@ == old(self).items@ + items@,
            *final(self) == (Response { items: final(self).items, ..*old(self) }),
    {
        let mut items = items;
        self.items.append(&mut items);
    }

    /// Adds `items` before the present ones.
    pub fn prepend_items(&mut self, items: Vec<Item>)
        ensures
            final(self).items@ == items@ + old(self).items@,
            *final(self) == (Response { items: final(self).items, ..*old(self) }),
    {
        let mut front = items;
        let mut rest = Vec::new();
        std::mem::swap(&mut self.items, &mut rest);
        front.append(&mut rest);
        self.items = front;
    }
}

} // verus!
