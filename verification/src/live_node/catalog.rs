//! The canonical digest of a legal-action catalog: the SHA-256 of its compact
//! JSON rendering, a list of `{"action_id":..,"kind":..}` objects in catalog
//! order. Strings and integers are encoded by `serde_json`; the objects are laid
//! out in its compact form, keys in sorted order as its default map keeps them.

use vstd::prelude::*;
use vstd::utf8::encode_utf8;
use crate::digest::{decimal_of, hex_char, sha256_hex, sha256_hex_of};
use super::episode::{ActionView, EpisodeLegalAction, EpisodeLegalActionSet, action_views};

verus! {

/// The JSON escape of one character inside a string literal.
pub open spec fn escape_char(c: char) -> Seq<char> {
    if c == '"' {
        seq!['\\', '"']
    } else if c == '\\' {
        seq!['\\', '\\']
    } else if c == '\n' {
        seq!['\\', 'n']
    } else if c == '\r' {
        seq!['\\', 'r']
    } else if c == '\t' {
        seq!['\\', 't']
    } else if c == '\u{8}' {
        seq!['\\', 'b']
    } else if c == '\u{c}' {
        seq!['\\', 'f']
    } else if (c as u32) < 0x20 {
        seq!['\\', 'u', '0', '0', hex_char((c as u32 / 16) as u8), hex_char((c as u32 % 16) as u8)]
    } else {
        seq![c]
    }
}

/// The JSON escape of a text.
pub open spec fn escape_text(s: Seq<char>) -> Seq<char>
    decreases s.len(),
{
    if s.len() == 0 {
        Seq::empty()
    } else {
        escape_text(s.drop_last()) + escape_char(s.last())
    }
}

/// A JSON string literal.
pub open spec fn json_text(s: Seq<char>) -> Seq<char> {
    seq!['"'] + escape_text(s) + seq!['"']
}

/// The JSON object of one legal action.
pub open spec fn action_json(a: ActionView) -> Seq<char> {
    "{\"action_id\":"@ + json_text(a.action_id) + ",\"kind\":"@ + json_text(a.kind) + "}"@
}

/// The comma-separated JSON objects of a list of legal actions.
pub open spec fn actions_json(s: Seq<ActionView>) -> Seq<char>
    decreases s.len(),
{
    if s.len() == 0 {
        Seq::empty()
    } else if s.len() == 1 {
        action_json(s[0])
    } else {
        actions_json(s.drop_last()) + ","@ + action_json(s.last())
    }
}

/// The compact JSON list of a catalog's actions.
pub open spec fn catalog_json(s: Seq<ActionView>) -> Seq<char> {
    "["@ + actions_json(s) + "]"@
}

/// The digest a decision proposal binds its catalog by.
pub open spec fn catalog_digest_of(s: Seq<ActionView>) -> Seq<char> {
    sha256_hex_of(encode_utf8(catalog_json(s)))
}

/// Calls `serde_json::to_string` on a text. The contract claims what the
/// crate's string serializer writes (`format_escaped_str` and its `ESCAPE`
/// table): the text in double quotes, `"` and `\` escaped by a backslash,
/// backspace, form feed, line feed, carriage return and tab by their short
/// escapes, every other character below U+0020 as `\u00` and two lowercase hex
/// digits, and every other character as it is. Writing a `str` into the
/// crate's in-memory buffer has no failing path, so the result is stated for
/// every text.
#[verifier::external_body]
fn json_string(s: &str) -> (r: String)
    ensures
        r@ == json_text(s@),
{
    serde_json::to_string(s).unwrap_or_default()
}

/// Calls `serde_json::to_string` on an unsigned integer. The contract claims
/// what the crate writes for it: its decimal digits, with no sign, point or
/// leading zero. Writing an integer into the in-memory buffer has no failing
/// path.
#[verifier::external_body]
fn json_u64(n: u64) -> (r: String)
    ensures
        r@ == decimal_of(n as nat),
{
    serde_json::to_string(&n).unwrap_or_default()
}

/// Appends the JSON string literal of a text.
pub(crate) fn append_json_text(out: &mut String, s: &str)
    ensures
        final(out)@ == old(out)@ + json_text(s@),
{
    let text = json_string(s);
    out.append(text.as_str());
}

/// The compact JSON list of a catalog's actions.
pub fn catalog_json_text(actions: &Vec<EpisodeLegalAction>) -> (r: String)
    ensures
        r@ == catalog_json(action_views(actions@)),
{
    proof {
        reveal_strlit("[");
        reveal_strlit("]");
        reveal_strlit(",");
        reveal_strlit("{\"action_id\":");
        reveal_strlit(",\"kind\":");
        reveal_strlit("}");
    }
    let ghost s = action_views(actions@);
    let mut out = "[".to_owned();
    let mut i: usize = 0;
    assert(s.take(0) =~= Seq::<ActionView>::empty());
    while i < actions.len()
        invariant
            i <= actions.len(),
            s == action_views(actions@),
            out@ == "["@ + actions_json(s.take(i as int)),
        decreases actions.len() - i,
    {
        let ghost before = out@;
        if i > 0 {
            out.append(",");
        }
        out.append("{\"action_id\":");
        append_json_text(&mut out, actions[i].action_id.as_str());
        out.append(",\"kind\":");
        append_json_text(&mut out, actions[i].kind.as_str());
        out.append("}");
        proof {
            let t = s.take(i + 1);
            assert(t.drop_last() =~= s.take(i as int));
            assert(t.last() == s[i as int]);
            if i == 0 {
                assert(t.len() == 1);
                assert(t[0] == s[0]);
            }
            assert(out@ =~= "["@ + actions_json(t));
        }
        i = i + 1;
    }
    out.append("]");
    proof {
        assert(s.take(actions.len() as int) =~= s);
    }
    out
}

/// The digest a decision proposal binds its catalog by.
pub fn catalog_digest(actions: &EpisodeLegalActionSet) -> (r: String)
    ensures
        r@ == catalog_digest_of(actions@.actions),
{
    let text = catalog_json_text(&actions.actions);
    sha256_hex(text.as_str().as_bytes())
}

/// The comma-separated JSON string literals of a list of texts.
pub open spec fn texts_json(s: Seq<Seq<char>>) -> Seq<char>
    decreases s.len(),
{
    if s.len() == 0 {
        Seq::empty()
    } else if s.len() == 1 {
        json_text(s[0])
    } else {
        texts_json(s.drop_last()) + ","@ + json_text(s.last())
    }
}

/// The compact JSON envelope of one decision request, keys in sorted order.
pub open spec fn decision_envelope_json(
    execution_id: u64,
    state_id: Seq<char>,
    generation: u64,
    actions: Seq<ActionView>,
    objective: Seq<char>,
    hard_constraints: Seq<Seq<char>>,
) -> Seq<char> {
    "{\"catalog\":"@ + catalog_json(actions) + ",\"execution_id\":"@ + decimal_of(execution_id as nat)
        + ",\"generation\":"@ + decimal_of(generation as nat) + ",\"hard_constraints\":["@
        + texts_json(hard_constraints) + "],\"objective\":"@ + json_text(objective)
        + ",\"state_id\":"@ + json_text(state_id) + "}"@
}

/// The canonical digest of the exact admitted request one held decision
/// attempt was paid for.
pub open spec fn decision_digest_of(
    execution_id: u64,
    state_id: Seq<char>,
    generation: u64,
    actions: Seq<ActionView>,
    objective: Seq<char>,
    hard_constraints: Seq<Seq<char>>,
) -> Seq<char> {
    sha256_hex_of(
        encode_utf8(
            decision_envelope_json(
                execution_id,
                state_id,
                generation,
                actions,
                objective,
                hard_constraints,
            ),
        ),
    )
}

/// The views of a list of owned texts.
pub open spec fn string_views(v: Seq<String>) -> Seq<Seq<char>> {
    v.map_values(|s: String| s@)
}

fn append_texts_json(out: &mut String, texts: &Vec<String>)
    ensures
        final(out)@ == old(out)@ + texts_json(string_views(texts@)),
{
    proof {
        reveal_strlit(",");
    }
    let ghost start = out@;
    let ghost s = string_views(texts@);
    let mut i: usize = 0;
    assert(s.take(0) =~= Seq::<Seq<char>>::empty());
    assert(out@ =~= start + texts_json(s.take(0)));
    while i < texts.len()
        invariant
            i <= texts.len(),
            s == string_views(texts@),
            out@ == start + texts_json(s.take(i as int)),
        decreases texts.len() - i,
    {
        if i > 0 {
            out.append(",");
        }
        append_json_text(out, texts[i].as_str());
        proof {
            let t = s.take(i + 1);
            assert(t.drop_last() =~= s.take(i as int));
            assert(t.last() == s[i as int]);
            if i == 0 {
                assert(t.len() == 1);
                assert(t[0] == s[0]);
            }
            assert(out@ =~= start + texts_json(t));
        }
        i = i + 1;
    }
    assert(s.take(texts.len() as int) =~= s);
}

/// The canonical digest of one decision request; see [`decision_digest_of`].
pub fn decision_input_digest(
    execution_id: u64,
    state_id: &str,
    generation: u64,
    actions: &EpisodeLegalActionSet,
    objective: &str,
    hard_constraints: &Vec<String>,
) -> (r: String)
    ensures
        r@ == decision_digest_of(
            execution_id,
            state_id@,
            generation,
            actions@.actions,
            objective@,
            string_views(hard_constraints@),
        ),
{
    proof {
        reveal_strlit("{\"catalog\":");
        reveal_strlit(",\"execution_id\":");
        reveal_strlit(",\"generation\":");
        reveal_strlit(",\"hard_constraints\":[");
        reveal_strlit("],\"objective\":");
        reveal_strlit(",\"state_id\":");
        reveal_strlit("}");
    }
    let mut out = "{\"catalog\":".to_owned();
    out.append(catalog_json_text(&actions.actions).as_str());
    out.append(",\"execution_id\":");
    out.append(json_u64(execution_id).as_str());
    out.append(",\"generation\":");
    out.append(json_u64(generation).as_str());
    out.append(",\"hard_constraints\":[");
    append_texts_json(&mut out, hard_constraints);
    out.append("],\"objective\":");
    append_json_text(&mut out, objective);
    out.append(",\"state_id\":");
    append_json_text(&mut out, state_id);
    out.append("}");
    assert(out@ =~= decision_envelope_json(
        execution_id,
        state_id@,
        generation,
        actions@.actions,
        objective@,
        string_views(hard_constraints@),
    ));
    sha256_hex(out.as_str().as_bytes())
}

} // verus!
