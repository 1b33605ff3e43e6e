//! ReplyComposer: the body text of an outgoing post, selected and built
//! deterministically from a search result and the query it answered.
//!
//! Branch selection is the contract: an empty match list, or a first entry
//! whose status denotes "not found", yields the not-found message; anything
//! else yields the found message naming the query, the first match's
//! position, and the total number of matches.
use crate::model::{SearchResult, SearchResultV};
use crate::text::{dec_str, str_eq, u64_to_string};
use vstd::prelude::*;
use vstd::string::*;

verus! {

/// Does this result take the not-found branch: no match entry at all, or a
/// first entry whose own status says the number was not found?
pub open spec fn not_found_branch(res: SearchResultV) -> bool {
    res.r.len() == 0 || res.r[0].status == "notfound"@
}

/// The not-found reply body for a query.
pub open spec fn not_found_text(q: Seq<char>) -> Seq<char> {
    "Sorry, I couldn't find "@ + q
        + " in the first 200m digits of Pi. It's me, not you; every number should be in Pi if I had more."@
}

/// The found reply body for a query found at 1-based position `pos`, with
/// `count` matches in all.
pub open spec fn found_text(q: Seq<char>, pos: u64, count: nat) -> Seq<char> {
    "I found "@ + q + " at position "@ + dec_str(pos as nat) + ". It appears "@ + dec_str(count)
        + " times in the first 200 million digits of pi. Thanks for searching!\n\nFind all the #pi you can eat at https://angio.net/pi/"@
}

/// The reply body for a search result: branch selection plus formatting.
pub open spec fn compose_spec(res: SearchResultV, q: Seq<char>) -> Seq<char> {
    if not_found_branch(res) {
        not_found_text(q)
    } else {
        found_text(q, res.r[0].p, res.r.len())
    }
}

/// ReplyComposer: pure formatting, no side effects; the branch is selected
/// exactly as `compose_spec` says.
pub fn compose_reply(result: &SearchResult, query: &str) -> (r: String)
    ensures
        r@ == compose_spec(result@, query@),
{
    let empty = result.r.len() == 0;
    let first_not_found = if !empty {
        str_eq(result.r[0].status.as_str(), "notfound")
    } else {
        false
    };
    if empty || first_not_found {
        let mut s = String::from_str("Sorry, I couldn't find ");
        s.append(query);
        s.append(
            " in the first 200m digits of Pi. It's me, not you; every number should be in Pi if I had more.",
        );
        proof {
            assert(s@ =~= not_found_text(query@));
        }
        s
    } else {
        let mut s = String::from_str("I found ");
        s.append(query);
        s.append(" at position ");
        let pos = u64_to_string(result.r[0].p);
        s.append(pos.as_str());
        s.append(". It appears ");
        let count = u64_to_string(result.r.len() as u64);
        s.append(count.as_str());
        s.append(
            " times in the first 200 million digits of pi. Thanks for searching!\n\nFind all the #pi you can eat at https://angio.net/pi/",
        );
        proof {
            assert(s@ =~= found_text(query@, result@.r[0].p, result@.r.len()));
        }
        s
    }
}

/// The found message names the query: the query's digits stand in the
/// body right after the opening words.
pub proof fn lemma_found_text_names_query(q: Seq<char>, pos: u64, count: nat)
    ensures
        found_text(q, pos, count).subrange(8, 8 + q.len() as int) == q,
{
    reveal_strlit("I found ");
    assert(found_text(q, pos, count).subrange(8, 8 + q.len() as int) =~= q);
}

/// The found message names the first match's position: its decimal digits
/// stand in the body right after the query and the connecting words.
pub proof fn lemma_found_text_names_position(q: Seq<char>, pos: u64, count: nat)
    ensures
        found_text(q, pos, count).subrange(
            21 + q.len() as int,
            21 + q.len() as int + dec_str(pos as nat).len() as int,
        ) == dec_str(pos as nat),
{
    reveal_strlit("I found ");
    reveal_strlit(" at position ");
    assert(found_text(q, pos, count).subrange(
        21 + q.len() as int,
        21 + q.len() as int + dec_str(pos as nat).len() as int,
    ) =~= dec_str(pos as nat));
}

/// The not-found message names the query it could not find.
pub proof fn lemma_not_found_text_names_query(q: Seq<char>)
    ensures
        not_found_text(q).subrange(23, 23 + q.len() as int) == q,
{
    reveal_strlit("Sorry, I couldn't find ");
    assert(not_found_text(q).subrange(23, 23 + q.len() as int) =~= q);
}

/// The body of a standalone post about today's date found in the digits.
pub open spec fn today_text(number: u32, pos: u64, count: nat) -> Seq<char> {
    "I found today in pi, "@ + dec_str(number as nat) + ", at position "@ + dec_str(pos as nat)
        + ". It appears "@ + dec_str(count)
        + " times in the first 200 million digits of pi.\n\nFind all the #pi you can eat at https://angio.net/pi/"@
}

/// The body of a standalone post about an arbitrary number found in the
/// digits.
pub open spec fn number_text(number: u32, pos: u64, count: nat) -> Seq<char> {
    "The string "@ + dec_str(number as nat) + " was found at position "@ + dec_str(pos as nat)
        + " in Pi. It appears "@ + dec_str(count)
        + " times in the first 200 million digits of pi.\n\nFind all the #pi you can eat at https://angio.net/pi/"@
}

/// Body text for the standalone post of a daily run: the searched number
/// is today's date, `result` the response for it.
pub fn compose_today_post(number: u32, result: &SearchResult) -> (r: String)
    ensures
        r@ == today_text(number, first_position(result@), result@.r.len()),
{
    let mut s = String::from_str("I found today in pi, ");
    let num = u64_to_string(number as u64);
    s.append(num.as_str());
    s.append(", at position ");
    let pos = u64_to_string(first_position_exec(result));
    s.append(pos.as_str());
    s.append(". It appears ");
    let count = u64_to_string(result.r.len() as u64);
    s.append(count.as_str());
    s.append(
        " times in the first 200 million digits of pi.\n\nFind all the #pi you can eat at https://angio.net/pi/",
    );
    proof {
        assert(s@ =~= today_text(number, first_position(result@), result@.r.len()));
    }
    s
}

/// Body text for the standalone post of a random-number run.
pub fn compose_number_post(number: u32, result: &SearchResult) -> (r: String)
    ensures
        r@ == number_text(number, first_position(result@), result@.r.len()),
{
    let mut s = String::from_str("The string ");
    let num = u64_to_string(number as u64);
    s.append(num.as_str());
    s.append(" was found at position ");
    let pos = u64_to_string(first_position_exec(result));
    s.append(pos.as_str());
    s.append(" in Pi. It appears ");
    let count = u64_to_string(result.r.len() as u64);
    s.append(count.as_str());
    s.append(
        " times in the first 200 million digits of pi.\n\nFind all the #pi you can eat at https://angio.net/pi/",
    );
    proof {
        assert(s@ =~= number_text(number, first_position(result@), result@.r.len()));
    }
    s
}

/// The first match's 1-based position, or zero when there is no match.
pub open spec fn first_position(res: SearchResultV) -> u64 {
    if res.r.len() == 0 {
        0
    } else {
        res.r[0].p
    }
}

/// The first match's position, or zero without matches.
fn first_position_exec(result: &SearchResult) -> (r: u64)
    ensures
        r == first_position(result@),
{
    if result.r.len() == 0 {
        0
    } else {
        result.r[0].p
    }
}

} // verus!
