//! Payload encoder: turns a raw question string into the JSON object body
//! `{"question":"<escaped text>"}`, escaping double quotes so that the field
//! stays a single string value.
//!
//! Only double quotes are escaped. A question holding a raw backslash or a
//! control character can therefore still produce an invalid body; that
//! narrower guarantee is stated by [`lemma_escape_well_formed`].
use vstd::prelude::*;

verus! {

/// What the encoder emits for one character of the question: a double quote
/// gains a backslash, every other character passes through unchanged.
pub open spec fn escape_char(c: char) -> Seq<char> {
    if c == '"' {
        seq!['\\', '"']
    } else {
        seq![c]
    }
}

/// The escaped form of a whole question.
pub open spec fn spec_escape(s: Seq<char>) -> Seq<char>
    decreases s.len(),
{
    if s.len() == 0 {
        Seq::empty()
    } else {
        spec_escape(s.drop_last()) + escape_char(s.last())
    }
}

/// Reverses the escaping: each backslash-quote pair collapses back to a
/// double quote, every other character is kept.
pub open spec fn spec_unescape(s: Seq<char>) -> Seq<char>
    decreases s.len(),
{
    if s.len() == 0 {
        Seq::empty()
    } else if s.len() >= 2 && s[s.len() - 2] == '\\' && s.last() == '"' {
        spec_unescape(s.subrange(0, s.len() - 2)) + seq!['"']
    } else {
        spec_unescape(s.drop_last()) + seq![s.last()]
    }
}

/// The complete JSON body built around an escaped question.
pub open spec fn spec_payload(q: Seq<char>) -> Seq<char> {
    "{\"question\":\""@ + spec_escape(q) + "\"}"@
}

/// Escaping loses nothing: reversing it recovers the question exactly.
pub proof fn lemma_escape_round_trip(s: Seq<char>)
    ensures
        spec_unescape(spec_escape(s)) == s,
    decreases s.len(),
{
    if s.len() == 0 {
        assert(spec_escape(s) == Seq::<char>::empty());
        assert(spec_unescape(spec_escape(s)) =~= s);
    } else {
        let prefix = s.drop_last();
        let e = spec_escape(s);
        lemma_escape_round_trip(prefix);
        if s.last() == '"' {
            assert(e == spec_escape(prefix) + seq!['\\', '"']);
            assert(e.len() >= 2);
            assert(e[e.len() - 2] == '\\');
            assert(e.last() == '"');
            assert(e.subrange(0, e.len() - 2) =~= spec_escape(prefix));
            assert(spec_unescape(e) == spec_unescape(spec_escape(prefix)) + seq!['"']);
            assert(spec_unescape(e) =~= s);
        } else {
            assert(e == spec_escape(prefix) + seq![s.last()]);
            assert(e.last() == s.last());
            assert(e.last() != '"');
            assert(e.drop_last() =~= spec_escape(prefix));
            assert(spec_unescape(e) == spec_unescape(spec_escape(prefix)) + seq![s.last()]);
            assert(spec_unescape(e) =~= s);
        }
    }
}

/// The character sequence is acceptable as the inside of a JSON string
/// literal: no control characters, every double quote is preceded by a
/// backslash, and every backslash is followed by a double quote.
pub open spec fn wf_json_string_content(s: Seq<char>) -> bool {
    forall|i: int|
        0 <= i < s.len() ==> {
            &&& (#[trigger] s[i]) as int >= 32
            &&& (s[i] == '"' ==> i > 0 && s[i - 1] == '\\')
            &&& (s[i] == '\\' ==> i + 1 < s.len() && s[i + 1] == '"')
        }
}

/// A question free of backslashes and control characters escapes to a
/// well-formed JSON string body, so the whole payload is valid JSON.
pub proof fn lemma_escape_well_formed(s: Seq<char>)
    requires
        forall|i: int| 0 <= i < s.len() ==> (#[trigger] s[i]) != '\\' && s[i] as int >= 32,
    ensures
        wf_json_string_content(spec_escape(s)),
    decreases s.len(),
{
    if s.len() == 0 {
    } else {
        let prefix = s.drop_last();
        let ep = spec_escape(prefix);
        let e = spec_escape(s);
        lemma_escape_well_formed(prefix);
        assert(e == ep + escape_char(s.last()));
        assert forall|i: int| 0 <= i < e.len() implies {
            &&& (#[trigger] e[i]) as int >= 32
            &&& (e[i] == '"' ==> i > 0 && e[i - 1] == '\\')
            &&& (e[i] == '\\' ==> i + 1 < e.len() && e[i + 1] == '"')
        } by {
            if i < ep.len() {
                assert(e[i] == ep[i]);
                if e[i] == '\\' {
                    assert(i + 1 < ep.len() && ep[i + 1] == '"');
                    assert(e[i + 1] == ep[i + 1]);
                }
                if e[i] == '"' {
                    assert(i > 0 && ep[i - 1] == '\\');
                    assert(e[i - 1] == ep[i - 1]);
                }
            } else {
                if s.last() == '"' {
                    assert(e[ep.len() as int] == '\\');
                    assert(e[ep.len() as int + 1] == '"');
                } else {
                    assert(e[ep.len() as int] == s.last());
                    assert(s.last() != '\\');
                    assert(s.last() as int >= 32);
                }
            }
        }
    }
}

/// The encoding is sound: for any question free of backslashes and control
/// characters (quotes included or not), the payload wraps a well-formed JSON
/// string body, and reversing the escaping recovers the question exactly.
pub proof fn lemma_encoding_sound(q: Seq<char>)
    requires
        forall|i: int| 0 <= i < q.len() ==> (#[trigger] q[i]) != '\\' && q[i] as int >= 32,
    ensures
        spec_payload(q) == "{\"question\":\""@ + spec_escape(q) + "\"}"@,
        wf_json_string_content(spec_escape(q)),
        spec_unescape(spec_escape(q)) == q,
{
    lemma_escape_well_formed(q);
    lemma_escape_round_trip(q);
}

/// Appends the given character to the string.
///
/// Relies on `String::push`, which appends exactly the one character.
#[verifier::external_body]
fn push_char(s: &mut String, c: char)
    ensures
        final(s)@ == old(s)@ + seq![c],
{
    s.push(c);
}

/// Encodes a question into the outbound JSON body: a single object with one
/// string field `"question"` holding the quote-escaped question text.
pub fn encode_payload(question: &str) -> (r: String)
    ensures
        r@ == spec_payload(question@),
{
    let mut out = String::from_str("{\"question\":\"");
    let n = question.unicode_len();
    let mut i: usize = 0;
    while i < n
        invariant
            n == question@.len(),
            0 <= i <= n,
            out@ == "{\"question\":\""@ + spec_escape(question@.subrange(0, i as int)),
        decreases n - i,
    {
        let c = question.get_char(i);
        proof {
            let q = question@;
            assert(q.subrange(0, i + 1).drop_last() =~= q.subrange(0, i as int));
            assert(q.subrange(0, i + 1).last() == q[i as int]);
        }
        if c == '"' {
            push_char(&mut out, '\\');
            push_char(&mut out, '"');
            proof {
                assert(escape_char('"') == seq!['\\', '"']);
                assert(out@ =~= "{\"question\":\""@ + spec_escape(
                    question@.subrange(0, i + 1),
                ));
            }
        } else {
            push_char(&mut out, c);
            proof {
                assert(escape_char(c) == seq![c]);
                assert(out@ =~= "{\"question\":\""@ + spec_escape(
                    question@.subrange(0, i + 1),
                ));
            }
        }
        i += 1;
    }
    proof {
        assert(question@.subrange(0, n as int) =~= question@);
    }
    out.append("\"}");
    proof {
        assert(out@ =~= spec_payload(question@));
    }
    out
}

} // verus!
