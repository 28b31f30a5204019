//! The rule engine's operations with status codes: per-route load, clear and
//! check, the route-agnostic forms that act on the default route, and a
//! registry shared between threads behind a reader/writer lock.

use crate::decode::str_from_utf8;
use crate::matcher::status_of;
use crate::matcher::Matcher;
use crate::registry::load_outcome;
use crate::registry::prepare;
use crate::registry::route_matches;
use crate::registry::rules_after_load;
use crate::registry::RouteRegistry;
use std::sync::Arc;
use vstd::prelude::*;
use vstd::rwlock::RwLock;
use vstd::rwlock::RwLockPredicate;
use vstd::utf8::decode_utf8;
use vstd::utf8::valid_utf8;

verus! {

/// The route that the route-agnostic operations act on.
pub const DEFAULT_ROUTE: u32 = 0;

/// The status code of loading `blob`: `0` on success, else the code of the
/// failing stage.
pub open spec fn load_status(blob: Seq<u8>) -> int {
    match load_outcome(blob) {
        Ok(_) => 0,
        Err(e) => status_of(e),
    }
}

/// The status code of checking `content` against `route_id`: `1` when it is
/// UTF-8 text that trips the route's rules, else `0`. Text that is not UTF-8
/// counts as no match.
pub open spec fn check_status(rules: Map<u32, Seq<Seq<char>>>, route_id: u32, content: Seq<u8>) -> int {
    if valid_utf8(content) && route_matches(rules, route_id, decode_utf8(content)) {
        1
    } else {
        0
    }
}

/// Checks `content` against an optional matcher: `1` when it is UTF-8 text in
/// which some pattern of the matcher occurs, else `0`.
fn check_with(matcher: Option<Arc<Matcher>>, content: &[u8]) -> (r: i32)
    ensures
        r == (if valid_utf8(content@) && matcher is Some && crate::matcher::contains_any(
            matcher->Some_0@,
            decode_utf8(content@),
        ) {
            1int
        } else {
            0int
        }),
{
    let text = match str_from_utf8(content) {
        Ok(s) => s,
        Err(_) => return 0,
    };
    match matcher {
        Some(m) => if m.is_match(text) {
            1
        } else {
            0
        },
        None => 0,
    }
}

/// Loads the rules in `blob` (base64 text of a JSON array of strings) for
/// `route_id`. Returns `0` on success, `-1` for an empty blob, `-2` for text
/// that is not UTF-8 or not base64, `-3` for a payload that is not a JSON
/// array of strings and `-4` when the patterns cannot be compiled. Only a
/// success changes the registry.
pub fn engine_load_route_rules(registry: &mut RouteRegistry, route_id: u32, blob: &[u8]) -> (r: i32)
    ensures
        r == load_status(blob@),
        final(registry)@ == rules_after_load(old(registry)@, route_id, blob@),
{
    match registry.load(route_id, blob) {
        Ok(()) => 0,
        Err(e) => e.status_code(),
    }
}

/// Drops the rules of `route_id`; always `0`, whether or not it had any.
pub fn engine_clear_route_rules(registry: &mut RouteRegistry, route_id: u32) -> (r: i32)
    ensures
        r == 0,
        final(registry)@ == old(registry)@.remove(route_id),
{
    registry.remove(route_id);
    0
}

/// Drops the rules of every route; always `0`.
pub fn engine_clear_all_rules(registry: &mut RouteRegistry) -> (r: i32)
    ensures
        r == 0,
        final(registry)@ == Map::<u32, Seq<Seq<char>>>::empty(),
{
    registry.clear_all();
    0
}

/// Checks `content` against the rules of `route_id`: `1` on a match, `0` for
/// no match, a route without rules, or content that is not UTF-8.
pub fn engine_check_response_for_route(registry: &RouteRegistry, route_id: u32, content: &[u8]) -> (r: i32)
    ensures
        r == check_status(registry@, route_id, content@),
{
    check_with(registry.get(route_id), content)
}

/// Loads rules for the default route.
pub fn engine_load_rules(registry: &mut RouteRegistry, blob: &[u8]) -> (r: i32)
    ensures
        r == load_status(blob@),
        final(registry)@ == rules_after_load(old(registry)@, DEFAULT_ROUTE, blob@),
{
    engine_load_route_rules(registry, DEFAULT_ROUTE, blob)
}

/// Checks `content` against the rules of the default route.
pub fn engine_check_response(registry: &RouteRegistry, content: &[u8]) -> (r: i32)
    ensures
        r == check_status(registry@, DEFAULT_ROUTE, content@),
{
    engine_check_response_for_route(registry, DEFAULT_ROUTE, content)
}

/// The lock's predicate: every registry value may be stored.
pub struct AnyRegistry;

impl RwLockPredicate<RouteRegistry> for AnyRegistry {
    open spec fn inv(self, v: RouteRegistry) -> bool {
        true
    }
}

/// A registry shared between threads. Writers build a complete matcher before
/// taking the lock and swap it in whole; readers take the lock only to clone
/// the matcher's handle and scan after releasing it.
pub struct RuleEngine {
    routes: RwLock<RouteRegistry, AnyRegistry>,
}

impl RuleEngine {
    /// An engine in which no route has rules.
    pub fn new() -> (r: RuleEngine) {
        RuleEngine { routes: RwLock::new(RouteRegistry::new(), Ghost(AnyRegistry)) }
    }

    /// Loads rules for `route_id`; the status code is that of
    /// `engine_load_route_rules`. Decoding and compiling happen before the
    /// lock is taken, so a failure never touches the registry.
    pub fn load_route_rules(&self, route_id: u32, blob: &[u8]) -> (r: i32)
        ensures
            r == load_status(blob@),
    {
        match prepare(blob) {
            Ok(matcher) => {
                let (mut registry, handle) = self.routes.acquire_write();
                registry.put(route_id, matcher);
                handle.release_write(registry);
                0
            },
            Err(e) => e.status_code(),
        }
    }

    /// Drops the rules of `route_id`; always `0`.
    pub fn clear_route_rules(&self, route_id: u32) -> (r: i32)
        ensures
            r == 0,
    {
        let (mut registry, handle) = self.routes.acquire_write();
        let r = engine_clear_route_rules(&mut registry, route_id);
        handle.release_write(registry);
        r
    }

    /// Drops the rules of every route; always `0`.
    pub fn clear_all_rules(&self) -> (r: i32)
        ensures
            r == 0,
    {
        let (mut registry, handle) = self.routes.acquire_write();
        let r = engine_clear_all_rules(&mut registry);
        handle.release_write(registry);
        r
    }

    /// Checks `content` against the rules of `route_id` as they stood at one
    /// instant: the result is that of `engine_check_response_for_route` on
    /// one whole state of the registry, never a mixture of two.
    pub fn check_response_for_route(&self, route_id: u32, content: &[u8]) -> (r: i32)
        ensures
            exists|rules: Map<u32, Seq<Seq<char>>>| #[trigger] check_status(rules, route_id, content@) == r,
    {
        let handle = self.routes.acquire_read();
        let matcher = handle.borrow().get(route_id);
        let ghost snapshot = handle.view()@;
        handle.release_read();
        let r = check_with(matcher, content);
        assert(check_status(snapshot, route_id, content@) == r);
        r
    }

    /// Loads rules for the default route.
    pub fn load_rules(&self, blob: &[u8]) -> (r: i32)
        ensures
            r == load_status(blob@),
    {
        self.load_route_rules(DEFAULT_ROUTE, blob)
    }

    /// Checks `content` against the rules of the default route.
    pub fn check_response(&self, content: &[u8]) -> (r: i32)
        ensures
            exists|rules: Map<u32, Seq<Seq<char>>>| #[trigger] check_status(rules, DEFAULT_ROUTE, content@) == r,
    {
        self.check_response_for_route(DEFAULT_ROUTE, content)
    }
}

} // verus!
