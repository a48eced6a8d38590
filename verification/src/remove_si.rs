//! Removing the `si` tracking parameter from YouTube links.
//!
//! A link is rewritten only if its host is one of the YouTube domains and its
//! query string carries `si` as a whole parameter name. The query string is
//! taken as it is written: its parameters are what stands between its `&`,
//! and the rewritten link keeps every parameter but those named `si`, each
//! letter for letter, in the order in which they stood.

use crate::links::{domain, opt_view, query, set_query, url_domain, url_query, url_with_query};
use crate::text::{begins_with, chars_of, contains, includes, occurs_at, same_text, starts_with};
use url::Url;
use vstd::prelude::*;
use vstd::string::*;

verus! {

/// The name of the tracking parameter.
pub open spec fn tracking_key() -> Seq<char> {
    "si"@
}

/// The host is one of the YouTube domains, letter for letter.
pub open spec fn recognized_domain(domain: Option<Seq<char>>) -> bool {
    match domain {
        Some(name) => name == "youtube.com"@ || name == "www.youtube.com"@ || name == "youtu.be"@,
        None => false,
    }
}

/// The query string carries the tracking key as a whole parameter name: it
/// begins with `si=`, or `&si=` stands somewhere in it.
pub open spec fn carries_tracking_key(query: Option<Seq<char>>) -> bool {
    match query {
        Some(query) => begins_with(query, "si="@) || includes(query, "&si="@),
        None => false,
    }
}

/// The parts of a query string: what stands between its `&`. Read from the
/// left, an `&` ends the part at hand and begins the next, and any other
/// character goes to the part at hand.
pub open spec fn query_parts(query: Seq<char>) -> Seq<Seq<char>>
    decreases query.len(),
{
    if query.len() == 0 {
        seq![Seq::empty()]
    } else {
        let before = query_parts(query.drop_last());
        if query.last() == '&' {
            before.push(Seq::empty())
        } else {
            before.drop_last().push(before.last().push(query.last()))
        }
    }
}

/// The name of a part: what stands before its first `=`, or all of it where
/// it holds none.
pub open spec fn part_name(part: Seq<char>) -> Seq<char>
    decreases part.len(),
{
    if part.len() == 0 || part[0] == '=' {
        Seq::empty()
    } else {
        seq![part[0]] + part_name(part.drop_first())
    }
}

/// The part is a parameter to keep: it is not empty, and its name is not the
/// tracking key. An empty part, as between `&&`, is no parameter.
pub open spec fn is_kept(part: Seq<char>) -> bool {
    part.len() > 0 && part_name(part) != tracking_key()
}

/// The parameters to keep, as they are written, in their order.
pub open spec fn kept_parts(query: Seq<char>) -> Seq<Seq<char>> {
    query_parts(query).filter(|part: Seq<char>| is_kept(part))
}

/// The parts written one after the other, with `&` between them.
pub open spec fn joined(parts: Seq<Seq<char>>) -> Seq<char>
    decreases parts.len(),
{
    if parts.len() == 0 {
        Seq::empty()
    } else if parts.len() == 1 {
        parts[0]
    } else {
        joined(parts.drop_last()) + seq!['&'] + parts.last()
    }
}

/// The query string without the tracking parameter: the parameters to keep,
/// joined; no query at all where none is left.
pub open spec fn cleaned_query(query: Seq<char>) -> Option<Seq<char>> {
    if kept_parts(query).len() == 0 {
        None
    } else {
        Some(joined(kept_parts(query)))
    }
}

/// The query that a link is given in place of its own.
pub open spec fn new_query(url: Url) -> Option<Seq<char>> {
    match url_query(url) {
        Some(query) => cleaned_query(query),
        None => None,
    }
}

/// The link with its query string replaced by the cleaned one.
pub open spec fn without_tracking(url: Url) -> Url {
    url_with_query(url, new_query(url))
}

/// What [`url_without_si`] returns: the rewritten link where the host is a
/// YouTube domain and the query carries the tracking key, else nothing.
pub open spec fn stripped(url: Url) -> Option<Url> {
    if recognized_domain(url_domain(url)) && carries_tracking_key(url_query(url)) {
        Some(without_tracking(url))
    } else {
        None
    }
}

/// Every character of `inner` occurs in `outer`.
pub open spec fn drawn_from(inner: Seq<char>, outer: Seq<char>) -> bool {
    forall|i: int| 0 <= i < inner.len() ==> outer.contains(#[trigger] inner[i])
}

/// Joining one more part appends it, after an `&` unless it is the first.
pub proof fn lemma_joined_push(parts: Seq<Seq<char>>, part: Seq<char>)
    ensures
        joined(parts.push(part)) == if parts.len() == 0 {
            part
        } else {
            joined(parts) + seq!['&'] + part
        },
{
    assert(parts.push(part).drop_last() == parts);
}

/// Parts of which none is empty join to an empty text only if there are
/// none.
pub proof fn lemma_joined_empty(parts: Seq<Seq<char>>)
    requires
        forall|i: int| 0 <= i < parts.len() ==> (#[trigger] parts[i]).len() > 0,
    ensures
        joined(parts).len() == 0 <==> parts.len() == 0,
{
}

/// A query string has at least one part, and no part holds an `&`.
pub proof fn lemma_parts_hold_no_separator(query: Seq<char>)
    ensures
        query_parts(query).len() > 0,
        forall|k: int, i: int|
            0 <= k < query_parts(query).len() && 0 <= i < query_parts(query)[k].len()
                ==> #[trigger] query_parts(query)[k][i] != '&',
    decreases query.len(),
{
    if query.len() > 0 {
        lemma_parts_hold_no_separator(query.drop_last());
    }
}

/// The parts are the query string cut at its `&` and nothing else: joined
/// again, they give the query string back.
pub proof fn lemma_parts_join_to_query(query: Seq<char>)
    ensures
        joined(query_parts(query)) == query,
    decreases query.len(),
{
    if query.len() > 0 {
        let shorter = query.drop_last();
        let before = query_parts(shorter);
        lemma_parts_join_to_query(shorter);
        lemma_parts_hold_no_separator(shorter);
        if query.last() == '&' {
            lemma_joined_push(before, Seq::empty());
        } else {
            let grown = before.last().push(query.last());
            lemma_joined_push(before.drop_last(), grown);
            lemma_joined_push(before.drop_last(), before.last());
            if before.len() > 1 {
                assert(joined(before.drop_last()) + seq!['&'] + grown == (joined(
                    before.drop_last(),
                ) + seq!['&'] + before.last()).push(query.last()));
            }
        }
    }
}

/// A part is named `si` exactly if it is `si` or begins with `si=`.
pub proof fn lemma_part_named_by_key(part: Seq<char>)
    ensures
        part_name(part) == tracking_key() <==> part == tracking_key() || begins_with(part, "si="@),
{
    reveal_strlit("si");
    reveal_strlit("si=");
    reveal_with_fuel(part_name, 4);
    let name = part_name(part);
    if begins_with(part, "si="@) {
        let head = part.subrange(0, 3);
        assert(head[0] == part[0] && head[1] == part[1] && head[2] == part[2]);
        assert(name =~= tracking_key());
    }
    if part == tracking_key() {
        assert(name =~= tracking_key());
    }
    if name == tracking_key() {
        // the name is two characters long, so the part goes on past them
        // with an `=` or not at all
        assert(name[0] == part[0] && name[1] == part[1]);
        if part.len() == 2 {
            assert(part =~= tracking_key());
        } else {
            assert(part[2] == '=') by {
                if part[2] != '=' {
                    assert(name.len() >= 3);
                }
            }
            assert(part.subrange(0, 3) =~= "si="@);
        }
    }
}

/// The tracking key counts only as a whole parameter name: the query
/// carries it exactly if `si=` stands in it at the very start or straight
/// after an `&`. A name that merely ends in `si`, such as `psi`, does not
/// count, nor does one that merely begins with it, such as `sip`.
pub proof fn lemma_tracking_key_is_whole_name(query: Seq<char>)
    ensures
        carries_tracking_key(Some(query)) <==> exists|at: int|
            #[trigger] occurs_at(query, "si="@, at) && (at == 0 || query[at - 1] == '&'),
{
    reveal_strlit("si=");
    reveal_strlit("&si=");
    let name = "si="@;
    let after = "&si="@;
    if includes(query, after) {
        let at = choose|at: int| occurs_at(query, after, at);
        assert(query.subrange(at, at + 4)[0] == '&');
        assert(query.subrange(at + 1, at + 4) == query.subrange(at, at + 4).subrange(1, 4));
        assert(after.subrange(1, 4) == name);
        assert(occurs_at(query, name, at + 1));
    }
    if exists|at: int| #[trigger] occurs_at(query, name, at) && (at == 0 || query[at - 1] == '&') {
        let at = choose|at: int|
            #[trigger] occurs_at(query, name, at) && (at == 0 || query[at - 1] == '&');
        if at != 0 {
            assert(query.subrange(at - 1, at + 3) == seq!['&'] + query.subrange(at, at + 3));
            assert(seq!['&'] + name == after);
            assert(occurs_at(query, after, at - 1));
        }
    }
}

/// What is kept are the other parameters, all of them and no others: each
/// kept part is a part of the query, not empty and not named `si`, and each
/// such part of the query is kept.
pub proof fn lemma_kept_parts_are_the_others(query: Seq<char>)
    ensures
        kept_parts(query).len() <= query_parts(query).len(),
        forall|i: int|
            0 <= i < kept_parts(query).len() ==> is_kept(#[trigger] kept_parts(query)[i])
                && query_parts(query).contains(kept_parts(query)[i]),
        forall|i: int|
            0 <= i < query_parts(query).len() && is_kept(query_parts(query)[i]) ==> kept_parts(
                query,
            ).contains(#[trigger] query_parts(query)[i]),
{
    let parts = query_parts(query);
    let keep = |part: Seq<char>| is_kept(part);
    parts.lemma_filter_len(keep);
    assert forall|i: int| 0 <= i < kept_parts(query).len() implies is_kept(
        #[trigger] kept_parts(query)[i],
    ) && parts.contains(kept_parts(query)[i]) by {
        parts.lemma_filter_pred(keep, i);
        parts.lemma_filter_contains_rev(keep, kept_parts(query)[i]);
    }
    assert forall|i: int| 0 <= i < parts.len() && is_kept(parts[i]) implies kept_parts(
        query,
    ).contains(#[trigger] parts[i]) by {
        parts.lemma_filter_contains(keep, i);
    }
}

/// What is kept stays in its order: wherever a list of parts is cut in two,
/// the kept parts of the whole are those of the first half, then those of
/// the second.
pub proof fn lemma_kept_parts_keep_order(front: Seq<Seq<char>>, back: Seq<Seq<char>>)
    ensures
        (front + back).filter(|part: Seq<char>| is_kept(part)) == front.filter(
            |part: Seq<char>| is_kept(part),
        ) + back.filter(|part: Seq<char>| is_kept(part)),
{
    Seq::filter_distributes_over_add(front, back, |part: Seq<char>| is_kept(part));
}

/// A query string whose parameters are all named `si` is cleared.
pub proof fn lemma_only_tracking_parts_clear_the_query(query: Seq<char>)
    requires
        forall|k: int| 0 <= k < query_parts(query).len() ==> !is_kept(#[trigger] query_parts(query)[k]),
    ensures
        cleaned_query(query) is None,
{
    lemma_kept_parts_are_the_others(query);
    if kept_parts(query).len() > 0 {
        assert(query_parts(query).contains(kept_parts(query)[0]));
    }
}

/// Joining some of the parts gives no more than joining all of them: the
/// text is no longer, and holds no character that the whole does not hold.
proof fn lemma_joined_selection(parts: Seq<Seq<char>>, keep: spec_fn(Seq<char>) -> bool)
    ensures
        joined(parts.filter(keep)).len() <= joined(parts).len(),
        drawn_from(joined(parts.filter(keep)), joined(parts)),
    decreases parts.len(),
{
    if parts.len() == 0 {
        parts.lemma_filter_len(keep);
    } else {
        let front = parts.drop_last();
        let last = parts.last();
        let whole = joined(parts);
        let chosen = joined(parts.filter(keep));
        lemma_joined_selection(front, keep);
        front.lemma_filter_push(last, keep);
        assert(front.push(last) == parts);
        lemma_joined_push(front, last);
        lemma_joined_push(front.filter(keep), last);
        front.lemma_filter_len(keep);
        let shift = whole.len() - last.len();
        assert forall|i: int| 0 <= i < chosen.len() implies whole.contains(
            #[trigger] chosen[i],
        ) by {
            let inner = joined(front.filter(keep));
            if keep(last) && i >= chosen.len() - last.len() {
                // a character of the last part
                assert(whole[i - chosen.len() + whole.len()] == chosen[i]);
            } else if keep(last) && i == chosen.len() - last.len() - 1 {
                // the `&` before the last part
                assert(whole[shift - 1] == '&');
            } else {
                // a character of what was joined before
                let j = choose|j: int| 0 <= j < joined(front).len() && joined(front)[j] == inner[i];
                assert(whole[j] == chosen[i]);
            }
        }
    }
}

/// The cleaned query is made of the query's own characters and is no longer
/// than the query.
pub proof fn lemma_cleaned_query_is_drawn_from_query(query: Seq<char>)
    ensures
        cleaned_query(query) matches Some(cleaned) ==> cleaned.len() <= query.len() && drawn_from(
            cleaned,
            query,
        ),
{
    lemma_joined_selection(query_parts(query), |part: Seq<char>| is_kept(part));
    lemma_parts_join_to_query(query);
}

/// Joined parts of which none holds an `&` or begins with `si=` do not hold
/// `&si=`.
proof fn lemma_joined_has_no_key_inside(parts: Seq<Seq<char>>, at: int)
    requires
        forall|k: int|
            0 <= k < parts.len() ==> !begins_with(#[trigger] parts[k], "si="@) && !parts[k].contains(
                '&',
            ),
    ensures
        !occurs_at(joined(parts), "&si="@, at),
    decreases parts.len(),
{
    reveal_strlit("&si=");
    reveal_strlit("si=");
    let whole = joined(parts);
    if occurs_at(whole, "&si="@, at) {
        let found = whole.subrange(at, at + 4);
        assert(found[0] == '&' && found[1] == 's' && found[2] == 'i' && found[3] == '=');
        if parts.len() == 1 {
            assert(parts[0].contains(parts[0][at]));
        } else if parts.len() > 1 {
            let front = joined(parts.drop_last());
            let last = parts.last();
            let cut = front.len() as int;
            if at + 4 <= cut {
                // the key would stand among the parts before the last
                assert(front.subrange(at, at + 4) == found);
                lemma_joined_has_no_key_inside(parts.drop_last(), at);
            } else if at < cut {
                // the `&` before the last part would be an `s`, an `i` or an `=`
                assert(found[cut - at] == whole[cut]);
            } else if at == cut {
                // the last part would begin with `si=`
                assert(last.subrange(0, 3) == found.subrange(1, 4));
                assert(found.subrange(1, 4) == "si="@);
            } else {
                // the last part would hold an `&`
                assert(last.contains(last[at - cut - 1]));
            }
        }
    }
}

/// The first of the joined parts stands at the head of the text.
proof fn lemma_joined_begins_with_first(parts: Seq<Seq<char>>)
    requires
        parts.len() > 0,
    ensures
        parts[0].is_prefix_of(joined(parts)),
    decreases parts.len(),
{
    if parts.len() > 1 {
        lemma_joined_begins_with_first(parts.drop_last());
    }
}

/// A cleaned query carries the tracking key no more, whatever the query was.
pub proof fn lemma_cleaned_query_is_clean(query: Seq<char>)
    ensures
        !carries_tracking_key(cleaned_query(query)),
{
    reveal_strlit("si=");
    let kept = kept_parts(query);
    lemma_kept_parts_are_the_others(query);
    lemma_parts_hold_no_separator(query);
    assert forall|k: int| 0 <= k < kept.len() implies !begins_with(#[trigger] kept[k], "si="@)
        && !kept[k].contains('&') by {
        lemma_part_named_by_key(kept[k]);
        let j = choose|j: int| 0 <= j < query_parts(query).len() && query_parts(query)[j] == kept[k];
        if kept[k].contains('&') {
            let i = choose|i: int| 0 <= i < kept[k].len() && kept[k][i] == '&';
            assert(query_parts(query)[j][i] != '&');
        }
    }
    if kept.len() > 0 {
        let written = joined(kept);
        let first = kept[0];
        lemma_joined_begins_with_first(kept);
        lemma_joined_head(kept);
        lemma_part_named_by_key(first);
        reveal_strlit("si");
        if begins_with(written, "si="@) {
            let head = written.subrange(0, 3);
            assert(forall|i: int| 0 <= i < first.len() ==> first[i] == written.subrange(
                0,
                first.len() as int,
            )[i]);
            if first.len() >= 3 {
                // then the first part begins with `si=`
                assert(first.subrange(0, 3) =~= head);
            } else if first.len() == 2 {
                // then the first part is `si`
                assert(first =~= tracking_key());
            } else {
                // then an `&` stands where the `i` should
                assert(written[1] == head[1]);
            }
        }
        assert forall|at: int| !occurs_at(written, "&si="@, at) by {
            lemma_joined_has_no_key_inside(kept, at);
        }
    }
}

/// Behind the first of the joined parts the text ends or an `&` stands.
proof fn lemma_joined_head(parts: Seq<Seq<char>>)
    requires
        parts.len() > 0,
    ensures
        joined(parts).len() == parts[0].len() || (joined(parts).len() > parts[0].len() && joined(
            parts,
        )[parts[0].len() as int] == '&'),
    decreases parts.len(),
{
    if parts.len() > 1 {
        lemma_joined_head(parts.drop_last());
        lemma_joined_begins_with_first(parts.drop_last());
    }
}

/// Whether a host is one of the YouTube domains. An IP address or a missing
/// host is handed in as `None`.
pub fn is_youtube_domain(domain: Option<&str>) -> (recognized: bool)
    ensures
        recognized == recognized_domain(opt_view(domain)),
{
    match domain {
        Some(name) => {
            same_text(name, "youtube.com") || same_text(name, "www.youtube.com") || same_text(
                name,
                "youtu.be",
            )
        },
        None => false,
    }
}

/// Whether a query string carries the tracking key as a whole parameter
/// name. This looks at the text as it stands: `psi=` and `sip=` do not count.
pub fn query_has_si(query: Option<&str>) -> (found: bool)
    ensures
        found == carries_tracking_key(opt_view(query)),
{
    match query {
        Some(query) => {
            let text = chars_of(query);
            let at_start = chars_of("si=");
            let inside = chars_of("&si=");
            starts_with(text.as_slice(), at_start.as_slice()) || contains(
                text.as_slice(),
                inside.as_slice(),
            )
        },
        None => false,
    }
}

/// Whether the part of `chars` from `start` up to `end` is named `si`.
fn names_key(chars: &Vec<char>, start: usize, end: usize) -> (named: bool)
    requires
        start <= end <= chars@.len(),
    ensures
        named == (part_name(chars@.subrange(start as int, end as int)) == tracking_key()),
{
    let ghost part = chars@.subrange(start as int, end as int);
    proof {
        lemma_part_named_by_key(part);
        reveal_strlit("si");
        reveal_strlit("si=");
    }
    let length: usize = end - start;
    if length < 2 || chars[start] != 's' || chars[start + 1] != 'i' {
        assert(part != tracking_key()) by {
            if length >= 2 {
                assert(part[0] == chars@[start as int] && part[1] == chars@[start + 1]);
            }
        }
        assert(!begins_with(part, "si="@)) by {
            if length >= 3 {
                assert(part.subrange(0, 3)[0] == part[0] && part.subrange(0, 3)[1] == part[1]);
            }
        }
        return false;
    }
    if length == 2 {
        assert(part =~= tracking_key());
        return true;
    }
    assert(part.subrange(0, 3)[2] == part[2]);
    if chars[start + 2] == '=' {
        assert(part.subrange(0, 3) =~= "si="@);
        true
    } else {
        false
    }
}

/// Writes the part of the query from `start` up to `end` behind the kept
/// parts, unless it is empty or named `si`.
fn keep_part(
    text: &mut String,
    query: &str,
    chars: &Vec<char>,
    start: usize,
    end: usize,
    Ghost(done): Ghost<Seq<Seq<char>>>,
)
    requires
        chars@ == query@,
        start <= end <= chars@.len(),
        old(text)@ == joined(done.filter(|part: Seq<char>| is_kept(part))),
    ensures
        final(text)@ == joined(
            done.push(query@.subrange(start as int, end as int)).filter(
                |part: Seq<char>| is_kept(part),
            ),
        ),
{
    let ghost part = query@.subrange(start as int, end as int);
    let ghost keep = |part: Seq<char>| is_kept(part);
    proof {
        reveal_strlit("&");
        done.lemma_filter_push(part, keep);
        lemma_joined_push(done.filter(keep), part);
        assert forall|i: int| 0 <= i < done.filter(keep).len() implies (#[trigger] done.filter(
            keep,
        )[i]).len() > 0 by {
            done.lemma_filter_pred(keep, i);
        }
        lemma_joined_empty(done.filter(keep));
    }
    if end > start && !names_key(chars, start, end) {
        if !text.as_str().is_empty() {
            text.append("&");
        }
        text.append(query.substring_char(start, end));
    }
}

/// The query string that is left when the parameters named `si` are taken
/// out: the other parameters as they are written, joined by `&`; `None`
/// where none is left.
pub fn query_without_si(query: &str) -> (cleaned: Option<String>)
    ensures
        match cleaned {
            Some(text) => cleaned_query(query@) == Some(text@),
            None => cleaned_query(query@) is None,
        },
{
    let chars = chars_of(query);
    let mut text = String::new();
    let mut start: usize = 0;
    let mut i: usize = 0;
    let ghost keep = |part: Seq<char>| is_kept(part);
    let ghost done: Seq<Seq<char>> = Seq::empty();
    proof {
        assert(query@.take(0) == Seq::<char>::empty());
        done.lemma_filter_len(keep);
    }
    while i < chars.len()
        invariant
            chars@ == query@,
            start <= i <= chars@.len(),
            keep == |part: Seq<char>| is_kept(part),
            query_parts(query@.take(i as int)) == done.push(query@.subrange(start as int, i as int)),
            text@ == joined(done.filter(keep)),
        decreases chars@.len() - i,
    {
        let ghost part = query@.subrange(start as int, i as int);
        proof {
            assert(query@.take(i + 1).drop_last() == query@.take(i as int));
        }
        if chars[i] == '&' {
            keep_part(&mut text, query, &chars, start, i, Ghost(done));
            proof {
                done = done.push(part);
                assert(query@.subrange(i + 1, i + 1) == Seq::<char>::empty());
            }
            start = i + 1;
        } else {
            assert(query@.subrange(start as int, i + 1) == part.push(query@[i as int]));
        }
        i += 1;
    }
    keep_part(&mut text, query, &chars, start, i, Ghost(done));
    proof {
        assert(query@.take(i as int) == query@);
        lemma_kept_parts_are_the_others(query@);
        lemma_joined_empty(kept_parts(query@));
    }
    if text.as_str().is_empty() {
        None
    } else {
        Some(text)
    }
}

/// Whether the link's host is one of the YouTube domains.
pub fn url_belongs_to_youtube(url: &Url) -> (recognized: bool)
    ensures
        recognized == recognized_domain(url_domain(*url)),
{
    is_youtube_domain(domain(url))
}

/// Whether the link's query string carries the tracking key.
pub fn url_has_si(url: &Url) -> (found: bool)
    ensures
        found == carries_tracking_key(url_query(*url)),
{
    query_has_si(query(url))
}

/// The link with the parameters named `si` taken out of its query string.
/// The other parameters stay as they are written, and the query reads back
/// as it was put together. Where no parameter is left the query component
/// is cleared, so that no `?` trails the link.
pub fn remove_si_from_url(url: Url) -> (cleaned: Url)
    ensures
        cleaned == without_tracking(url),
        url_domain(cleaned) == url_domain(url),
        url_query(cleaned) == new_query(url),
        !carries_tracking_key(url_query(cleaned)),
{
    let mut url = url;
    let cleaned = match query(&url) {
        Some(query) => {
            proof {
                lemma_cleaned_query_is_drawn_from_query(query@);
                lemma_cleaned_query_is_clean(query@);
            }
            query_without_si(query)
        },
        None => None,
    };
    match cleaned {
        Some(text) => set_query(&mut url, Some(text.as_str())),
        None => set_query(&mut url, None),
    }
    url
}

/// If the link belongs to YouTube and its query carries an `si` parameter,
/// the link without that parameter; else `None`.
///
/// A link of another host is left alone whatever its query holds, and so is
/// a YouTube link whose query does not carry the key as a whole parameter
/// name. In the rewritten link the host is as before and the query is the
/// cleaned one: the other parameters as they were written, in their order,
/// or no query at all. Stripping the rewritten link again gives nothing.
pub fn url_without_si(url: Url) -> (cleaned: Option<Url>)
    ensures
        cleaned == stripped(url),
        cleaned is Some <==> recognized_domain(url_domain(url)) && carries_tracking_key(
            url_query(url),
        ),
        cleaned matches Some(link) ==> {
            &&& url_domain(link) == url_domain(url)
            &&& url_query(link) == new_query(url)
            &&& stripped(link) is None
        },
{
    if !url_belongs_to_youtube(&url) || !url_has_si(&url) {
        return None;
    }
    Some(remove_si_from_url(url))
}

} // verus!
