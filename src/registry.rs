//! The route registry: at most one active matcher per route identifier, with
//! whole-entry replacement and removal.

use crate::decode::decode_outcome;
use crate::decode::decode_patterns;
use crate::matcher::automaton_builds;
use crate::matcher::contains_any;
use crate::matcher::share;
use crate::matcher::LoadError;
use crate::matcher::Matcher;
use std::collections::HashMap;
use std::sync::Arc;
use vstd::prelude::*;

verus! {

broadcast use vstd::std_specs::hash::group_hash_axioms;

/// What loading a blob yields: the pattern set to install, or the first stage
/// that rejects it (decoding, then compiling).
pub open spec fn load_outcome(blob: Seq<u8>) -> Result<Seq<Seq<char>>, LoadError> {
    match decode_outcome(blob) {
        Err(e) => Err(e),
        Ok(patterns) => if automaton_builds(patterns) {
            Ok(patterns)
        } else {
            Err(LoadError::BuildFailed)
        },
    }
}

/// The rules after loading `blob` for `route_id`: replaced on success,
/// untouched on any failure.
pub open spec fn rules_after_load(
    rules: Map<u32, Seq<Seq<char>>>,
    route_id: u32,
    blob: Seq<u8>,
) -> Map<u32, Seq<Seq<char>>> {
    match load_outcome(blob) {
        Ok(patterns) => rules.insert(route_id, patterns),
        Err(_) => rules,
    }
}

/// Whether `text` trips the rules of `route_id`; a route without rules never
/// matches.
pub open spec fn route_matches(rules: Map<u32, Seq<Seq<char>>>, route_id: u32, text: Seq<char>) -> bool {
    rules.contains_key(route_id) && contains_any(rules[route_id], text)
}

/// Decodes `blob` and compiles the patterns it holds, failing at the first
/// stage that rejects it.
pub fn prepare(blob: &[u8]) -> (r: Result<Matcher, LoadError>)
    ensures
        match load_outcome(blob@) {
            Ok(patterns) => r matches Ok(m) && m@ == patterns,
            Err(e) => r matches Err(f) && f == e,
        },
{
    let patterns = match decode_patterns(blob) {
        Ok(p) => p,
        Err(e) => return Err(e),
    };
    Matcher::compile(&patterns)
}

/// A registry of active matchers, keyed by route identifier.
pub struct RouteRegistry {
    routes: HashMap<u32, Arc<Matcher>>,
}

impl View for RouteRegistry {
    type V = Map<u32, Seq<Seq<char>>>;

    /// Each configured route with the pattern set of its matcher.
    closed spec fn view(&self) -> Map<u32, Seq<Seq<char>>> {
        self.routes@.map_values(|m: Arc<Matcher>| m@)
    }
}

impl RouteRegistry {
    /// An empty registry: no route has rules.
    pub fn new() -> (r: RouteRegistry)
        ensures
            r@ == Map::<u32, Seq<Seq<char>>>::empty(),
    {
        let r = RouteRegistry { routes: HashMap::new() };
        assert(r@ =~= Map::<u32, Seq<Seq<char>>>::empty());
        r
    }

    /// Binds `matcher` to `route_id`, replacing any earlier binding.
    pub fn put(&mut self, route_id: u32, matcher: Matcher)
        ensures
            final(self)@ == old(self)@.insert(route_id, matcher@),
    {
        self.routes.insert(route_id, Arc::new(matcher));
        assert(self@ =~= old(self)@.insert(route_id, matcher@));
    }

    /// Decodes and compiles `blob`, then binds the result to `route_id`. On
    /// any failure the registry is left as it was.
    pub fn load(&mut self, route_id: u32, blob: &[u8]) -> (r: Result<(), LoadError>)
        ensures
            match load_outcome(blob@) {
                Ok(_) => r is Ok,
                Err(e) => r == Err::<(), LoadError>(e),
            },
            final(self)@ == rules_after_load(old(self)@, route_id, blob@),
    {
        match prepare(blob) {
            Ok(matcher) => {
                self.put(route_id, matcher);
                Ok(())
            },
            Err(e) => Err(e),
        }
    }

    /// Drops the rules of `route_id`, if it has any.
    pub fn remove(&mut self, route_id: u32)
        ensures
            final(self)@ == old(self)@.remove(route_id),
    {
        self.routes.remove(&route_id);
        assert(self@ =~= old(self)@.remove(route_id));
    }

    /// Drops the rules of every route.
    pub fn clear_all(&mut self)
        ensures
            final(self)@ == Map::<u32, Seq<Seq<char>>>::empty(),
    {
        self.routes.clear();
        assert(self@ =~= Map::<u32, Seq<Seq<char>>>::empty());
    }

    /// A shared handle to the matcher of `route_id`, independent of the
    /// registry once returned.
    pub fn get(&self, route_id: u32) -> (r: Option<Arc<Matcher>>)
        ensures
            match r {
                Some(m) => self@.contains_key(route_id) && m@ == self@[route_id],
                None => !self@.contains_key(route_id),
            },
    {
        match self.routes.get(&route_id) {
            Some(m) => Some(share(m)),
            None => None,
        }
    }

    /// The number of patterns configured for `route_id`, if it has rules.
    pub fn pattern_count(&self, route_id: u32) -> (r: Option<usize>)
        ensures
            match r {
                Some(n) => self@.contains_key(route_id) && n == self@[route_id].len(),
                None => !self@.contains_key(route_id),
            },
    {
        match self.routes.get(&route_id) {
            Some(m) => Some(m.pattern_count()),
            None => None,
        }
    }

    /// Whether `text` trips the rules of `route_id`.
    pub fn check(&self, route_id: u32, text: &str) -> (r: bool)
        ensures
            r == route_matches(self@, route_id, text@),
    {
        match self.routes.get(&route_id) {
            Some(m) => m.is_match(text),
            None => false,
        }
    }
}

} // verus!
