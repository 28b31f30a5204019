//! Properties that hold across the engine's operations, stated over the
//! registry's rule map and proved.

use crate::decode::base64_decoding;
use crate::decode::json_string_array;
use crate::engine::check_status;
use crate::engine::load_status;
use crate::matcher::automaton_builds;
use crate::matcher::contains_any;
use crate::registry::load_outcome;
use crate::registry::rules_after_load;
use vstd::prelude::*;
use vstd::utf8::decode_utf8;
use vstd::utf8::valid_utf8;

verus! {

/// After a load of `blob` for `route_id` succeeds with pattern set
/// `patterns`, checking any content against that route reports a match
/// exactly when the content is text in which some pattern occurs.
pub proof fn load_then_check(
    rules: Map<u32, Seq<Seq<char>>>,
    route_id: u32,
    blob: Seq<u8>,
    patterns: Seq<Seq<char>>,
    content: Seq<u8>,
)
    requires
        load_outcome(blob) == Ok::<Seq<Seq<char>>, crate::matcher::LoadError>(patterns),
    ensures
        load_status(blob) == 0,
        check_status(rules_after_load(rules, route_id, blob), route_id, content) == 1 <==> valid_utf8(
            content,
        ) && contains_any(patterns, decode_utf8(content)),
{
}

/// A failed load leaves every route's rules, and so every check, as before.
pub proof fn failed_load_changes_nothing(
    rules: Map<u32, Seq<Seq<char>>>,
    route_id: u32,
    blob: Seq<u8>,
    other: u32,
    content: Seq<u8>,
)
    requires
        load_status(blob) != 0,
    ensures
        rules_after_load(rules, route_id, blob) == rules,
        check_status(rules_after_load(rules, route_id, blob), other, content) == check_status(
            rules,
            other,
            content,
        ),
{
}

/// After the rules of `route_id` are cleared, nothing matches on that route,
/// whatever the rules were before.
pub proof fn clear_then_check(rules: Map<u32, Seq<Seq<char>>>, route_id: u32, content: Seq<u8>)
    ensures
        check_status(rules.remove(route_id), route_id, content) == 0,
        check_status(Map::<u32, Seq<Seq<char>>>::empty(), route_id, content) == 0,
{
}

/// A route that has no rules never reports a match.
pub proof fn unconfigured_route_never_matches(
    rules: Map<u32, Seq<Seq<char>>>,
    route_id: u32,
    content: Seq<u8>,
)
    requires
        !rules.contains_key(route_id),
    ensures
        check_status(rules, route_id, content) == 0,
{
}

/// Each malformed blob is reported with the code of the stage that rejects
/// it: `-1` empty, `-2` not UTF-8 or not base64, `-3` not a JSON array of
/// strings, `-4` not compilable.
pub proof fn malformed_blob_status(blob: Seq<u8>, raw: Seq<u8>, patterns: Seq<Seq<char>>)
    ensures
        blob.len() == 0 ==> load_status(blob) == -1,
        blob.len() > 0 && !valid_utf8(blob) ==> load_status(blob) == -2,
        blob.len() > 0 && valid_utf8(blob) && base64_decoding(decode_utf8(blob)) is None
            ==> load_status(blob) == -2,
        blob.len() > 0 && valid_utf8(blob) && base64_decoding(decode_utf8(blob)) == Some(raw)
            && json_string_array(raw) is None ==> load_status(blob) == -3,
        blob.len() > 0 && valid_utf8(blob) && base64_decoding(decode_utf8(blob)) == Some(raw)
            && json_string_array(raw) == Some(patterns) && !automaton_builds(patterns)
            ==> load_status(blob) == -4,
{
}

} // verus!
