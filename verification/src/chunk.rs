//! Splitting long reply texts into transport-sized segments.
//!
//! Lengths are measured in Unicode scalar values, not bytes, so a segment
//! boundary can never fall inside a multi-byte encoding.

use vstd::prelude::*;
use vstd::arithmetic::div_mod::{lemma_basic_div, lemma_div_plus_one};

verus! {

/// The segments of `text`, cut every `limit` characters: each segment holds
/// at most `limit` scalar values, every segment before the last holds exactly
/// `limit`, and the segments concatenate back to `text`. An empty text has no
/// segments at all.
pub open spec fn spec_chunks(text: Seq<char>, limit: nat) -> Seq<Seq<char>>
    decreases text.len(),
{
    if limit == 0 || text.len() == 0 {
        Seq::empty()
    } else if text.len() <= limit {
        seq![text]
    } else {
        seq![text.subrange(0, limit as int)] + spec_chunks(
            text.subrange(limit as int, text.len() as int),
            limit,
        )
    }
}

/// Concatenation of an ordered run of segments.
pub open spec fn concat_chunks(segs: Seq<Seq<char>>) -> Seq<char>
    decreases segs.len(),
{
    if segs.len() == 0 {
        Seq::empty()
    } else {
        segs[0] + concat_chunks(segs.drop_first())
    }
}

/// Splitting and then concatenating gives the original text back, for every
/// text and every positive limit.
pub proof fn lemma_chunks_concat(text: Seq<char>, limit: nat)
    requires
        limit > 0,
    ensures
        concat_chunks(spec_chunks(text, limit)) == text,
    decreases text.len(),
{
    if text.len() == 0 {
        assert(concat_chunks(spec_chunks(text, limit)) =~= text);
    } else if text.len() <= limit {
        let c = spec_chunks(text, limit);
        assert(c[0] == text);
        assert(c.drop_first() =~= Seq::<Seq<char>>::empty());
        assert(concat_chunks(c.drop_first()) == Seq::<char>::empty());
        assert(text + Seq::<char>::empty() =~= text);
    } else {
        let head = text.subrange(0, limit as int);
        let tail = text.subrange(limit as int, text.len() as int);
        lemma_chunks_concat(tail, limit);
        let c = spec_chunks(text, limit);
        assert(c[0] == head);
        assert(c.drop_first() =~= spec_chunks(tail, limit));
        assert(concat_chunks(c) == head + concat_chunks(spec_chunks(tail, limit)));
        assert(head + tail =~= text);
    }
}

/// Every segment is non-empty and at most `limit` long, and every segment
/// before the last is exactly `limit` long; the run of segments is therefore
/// the shortest one possible.
pub proof fn lemma_chunks_sizes(text: Seq<char>, limit: nat)
    requires
        limit > 0,
    ensures
        forall|i: int|
            0 <= i < spec_chunks(text, limit).len() ==> 0 < (#[trigger] spec_chunks(text, limit)[i]).len()
                <= limit,
        forall|i: int|
            0 <= i < spec_chunks(text, limit).len() - 1 ==> (#[trigger] spec_chunks(text, limit)[i]).len()
                == limit,
    decreases text.len(),
{
    if text.len() == 0 {
    } else if text.len() <= limit {
    } else {
        let tail = text.subrange(limit as int, text.len() as int);
        lemma_chunks_sizes(tail, limit);
        let c = spec_chunks(text, limit);
        let ct = spec_chunks(tail, limit);
        assert forall|i: int| 0 <= i < c.len() implies 0 < (#[trigger] c[i]).len() <= limit by {
            if i > 0 {
                assert(c[i] == ct[i - 1]);
            }
        }
        assert forall|i: int| 0 <= i < c.len() - 1 implies (#[trigger] c[i]).len() == limit by {
            if i > 0 {
                assert(c[i] == ct[i - 1]);
            }
        }
    }
}

/// There are exactly as many segments as the limit forces: the length of the
/// text divided by the limit, rounded up. Together with the size bound this
/// makes the run of segments the minimal one.
pub proof fn lemma_chunks_count(text: Seq<char>, limit: nat)
    requires
        limit > 0,
    ensures
        spec_chunks(text, limit).len() as int == (text.len() as int + limit as int - 1) / (
        limit as int),
    decreases text.len(),
{
    let l = limit as int;
    if text.len() == 0 {
        lemma_basic_div(l - 1, l);
    } else if text.len() <= limit {
        lemma_basic_div(text.len() as int - 1, l);
        lemma_div_plus_one(text.len() as int - 1, l);
        assert(spec_chunks(text, limit).len() == 1);
    } else {
        let tail = text.subrange(limit as int, text.len() as int);
        lemma_chunks_count(tail, limit);
        lemma_div_plus_one(text.len() as int - 1, l);
        assert(spec_chunks(text, limit).len() == 1 + spec_chunks(tail, limit).len());
    }
}

/// An empty text yields an empty run of segments, for any limit.
pub proof fn lemma_chunks_of_empty(limit: nat)
    ensures
        spec_chunks(Seq::<char>::empty(), limit) == Seq::<Seq<char>>::empty(),
{
}

/// Split `string` into the minimal ordered run of contiguous substrings of at
/// most `sub_len` characters each. Boundaries always fall between Unicode
/// scalar values, never inside one, because positions are counted in
/// characters.
pub fn sub_strings<'a>(string: &'a str, sub_len: usize) -> (segs: Vec<&'a str>)
    requires
        sub_len > 0,
    ensures
        segs@.map_values(|s: &str| s@) == spec_chunks(string@, sub_len as nat),
{
    let total: usize = string.unicode_len();
    let mut segs: Vec<&'a str> = Vec::new();
    let mut pos: usize = 0;
    proof {
        assert(segs@.map_values(|s: &str| s@) =~= Seq::<Seq<char>>::empty());
        assert(string@.subrange(0, total as int) =~= string@);
        assert(segs@.map_values(|s: &str| s@) + spec_chunks(string@, sub_len as nat)
            =~= spec_chunks(string@, sub_len as nat));
    }
    while pos < total
        invariant
            sub_len > 0,
            pos <= total,
            total == string@.len(),
            spec_chunks(string@, sub_len as nat) == segs@.map_values(|s: &str| s@) + spec_chunks(
                string@.subrange(pos as int, total as int),
                sub_len as nat,
            ),
        decreases total - pos,
    {
        let len: usize = if total - pos < sub_len {
            total - pos
        } else {
            sub_len
        };
        let seg: &str = string.substring_char(pos, pos + len);
        proof {
            let rem = string@.subrange(pos as int, total as int);
            let rem2 = string@.subrange(pos as int + len as int, total as int);
            if rem.len() <= sub_len {
                assert(seg@ =~= rem);
                assert(rem2 =~= Seq::<char>::empty());
                assert(spec_chunks(rem, sub_len as nat) =~= seq![seg@] + spec_chunks(
                    rem2,
                    sub_len as nat,
                ));
            } else {
                assert(seg@ =~= rem.subrange(0, sub_len as int));
                assert(rem.subrange(sub_len as int, rem.len() as int) =~= rem2);
                assert(spec_chunks(rem, sub_len as nat) =~= seq![seg@] + spec_chunks(
                    rem2,
                    sub_len as nat,
                ));
            }
            assert(segs@.push(seg).map_values(|s: &str| s@) =~= segs@.map_values(|s: &str| s@)
                + seq![seg@]);
            assert((segs@.map_values(|s: &str| s@) + seq![seg@]) + spec_chunks(
                rem2,
                sub_len as nat,
            ) =~= segs@.map_values(|s: &str| s@) + (seq![seg@] + spec_chunks(rem2, sub_len as nat)));
        }
        segs.push(seg);
        pos = pos + len;
    }
    proof {
        assert(string@.subrange(total as int, total as int) =~= Seq::<char>::empty());
        assert(segs@.map_values(|s: &str| s@) + spec_chunks(
            string@.subrange(total as int, total as int),
            sub_len as nat,
        ) =~= segs@.map_values(|s: &str| s@));
    }
    segs
}

/// Owned-string form of `sub_strings`, used when the segments outlive the
/// reply text they were cut from.
pub fn chunk_message(text: &str, limit: usize) -> (segs: Vec<String>)
    requires
        limit > 0,
    ensures
        segs@.map_values(|s: String| s@) == spec_chunks(text@, limit as nat),
{
    let parts = sub_strings(text, limit);
    let mut segs: Vec<String> = Vec::new();
    let mut i: usize = 0;
    while i < parts.len()
        invariant
            i <= parts@.len(),
            parts@.map_values(|s: &str| s@) == spec_chunks(text@, limit as nat),
            segs@.len() == i,
            forall|j: int| 0 <= j < i ==> (#[trigger] segs@[j])@ == parts@[j]@,
        decreases parts@.len() - i,
    {
        segs.push(String::from_str(parts[i]));
        i = i + 1;
    }
    proof {
        assert(segs@.map_values(|s: String| s@) =~= parts@.map_values(|s: &str| s@));
    }
    segs
}

} // verus!
