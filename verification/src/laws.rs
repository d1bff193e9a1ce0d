//! What holds of every answer.

use vstd::prelude::*;
use crate::json::JsonModel;
use crate::render::{pos_json, token_json, tokens_json};
use crate::token::{surface_text, TokenView};

verus! {

/// The value that an object has under a key, if it is an object and has one.
pub open spec fn json_field(j: JsonModel, key: Seq<char>) -> Option<JsonModel> {
    match j {
        JsonModel::Object(entries) => if entries.contains_key(key) {
            Some(entries[key])
        } else {
            None
        },
        _ => None,
    }
}

/// The string that an object has under `surface`; empty where it has none.
pub open spec fn json_surface(j: JsonModel) -> Seq<char> {
    match json_field(j, "surface"@) {
        Some(JsonModel::Str(s)) => s,
        _ => Seq::empty(),
    }
}

/// The `surface` strings of the objects of an array, one after the other.
pub open spec fn json_surface_text(j: JsonModel) -> Seq<char> {
    match j {
        JsonModel::Array(items) => items.map_values(|o: JsonModel| json_surface(o)).flatten(),
        _ => Seq::empty(),
    }
}

/// The six keys of a token's object.
pub open spec fn token_keys() -> Set<Seq<char>> {
    set![
        "surface"@,
        "pos"@,
        "normalized_form"@,
        "reading_form"@,
        "dictionary_form"@,
        "is_oov"@,
    ]
}

/// The six keys are six different strings.
pub proof fn lemma_keys_differ()
    ensures
        "surface"@ != "pos"@,
        "surface"@ != "normalized_form"@,
        "surface"@ != "reading_form"@,
        "surface"@ != "dictionary_form"@,
        "surface"@ != "is_oov"@,
        "pos"@ != "normalized_form"@,
        "pos"@ != "reading_form"@,
        "pos"@ != "dictionary_form"@,
        "pos"@ != "is_oov"@,
        "normalized_form"@ != "reading_form"@,
        "normalized_form"@ != "dictionary_form"@,
        "normalized_form"@ != "is_oov"@,
        "reading_form"@ != "dictionary_form"@,
        "reading_form"@ != "is_oov"@,
        "dictionary_form"@ != "is_oov"@,
{
    reveal_strlit("surface");
    reveal_strlit("pos");
    reveal_strlit("normalized_form");
    reveal_strlit("reading_form");
    reveal_strlit("dictionary_form");
    reveal_strlit("is_oov");
    assert("surface"@.len() == 7);
    assert("pos"@.len() == 3);
    assert("normalized_form"@.len() == 15);
    assert("reading_form"@.len() == 12);
    assert("dictionary_form"@.len() == 15);
    assert("is_oov"@.len() == 6);
    assert("normalized_form"@[0] != "dictionary_form"@[0]);
}

/// A token's object has exactly the six keys, and under each the attribute
/// of that name, unchanged.
pub proof fn lemma_token_object(t: TokenView)
    ensures
        token_json(t) matches JsonModel::Object(entries) && entries.dom() == token_keys(),
        json_field(token_json(t), "surface"@) == Some(JsonModel::Str(t.surface)),
        json_field(token_json(t), "pos"@) == Some(pos_json(t.pos)),
        json_field(token_json(t), "normalized_form"@) == Some(JsonModel::Str(t.normalized_form)),
        json_field(token_json(t), "reading_form"@) == Some(JsonModel::Str(t.reading_form)),
        json_field(token_json(t), "dictionary_form"@) == Some(JsonModel::Str(t.dictionary_form)),
        json_field(token_json(t), "is_oov"@) == Some(JsonModel::Bool(t.is_oov)),
        json_surface(token_json(t)) == t.surface,
{
    lemma_keys_differ();
    let entries = token_json(t)->Object_0;
    assert(entries.dom() =~= token_keys());
}

/// A part-of-speech array has one string for each string of the tag, in the
/// order of the tag.
pub proof fn lemma_pos_array(pos: Seq<Seq<char>>)
    ensures
        pos_json(pos) matches JsonModel::Array(items) && items.len() == pos.len(),
        forall|i: int|
            0 <= i < pos.len() ==> #[trigger] pos_json(pos)->Array_0[i] == JsonModel::Str(pos[i]),
{
}

/// An answer has one object for each token, in the order of the tokens.
pub proof fn lemma_answer_in_token_order(tokens: Seq<TokenView>)
    ensures
        tokens_json(tokens) matches JsonModel::Array(items) && items.len() == tokens.len(),
        forall|i: int|
            0 <= i < tokens.len() ==> #[trigger] tokens_json(tokens)->Array_0[i] == token_json(
                tokens[i],
            ),
{
}

/// No tokens are answered with the empty array.
pub proof fn lemma_no_tokens_empty_array()
    ensures
        tokens_json(Seq::empty()) == JsonModel::Array(Seq::empty()),
{
    assert(Seq::<TokenView>::empty().map_values(|t: TokenView| token_json(t)) =~= Seq::empty());
}

/// The surfaces that a client reads from an answer, one after the other, are
/// the surfaces of the tokens, one after the other. So where the tokens cover
/// a text, what the client puts together is that text.
pub proof fn lemma_surfaces_rebuild_text(tokens: Seq<TokenView>, text: Seq<char>)
    requires
        surface_text(tokens) == text,
    ensures
        json_surface_text(tokens_json(tokens)) == text,
{
    let items = tokens.map_values(|t: TokenView| token_json(t));
    let read = items.map_values(|o: JsonModel| json_surface(o));
    let given = tokens.map_values(|t: TokenView| t.surface);
    assert forall|i: int| 0 <= i < tokens.len() implies read[i] == given[i] by {
        lemma_token_object(tokens[i]);
    }
    assert(read =~= given);
}

/// Different attributes give different objects: nothing of a token is lost
/// in its object.
pub proof fn lemma_token_object_injective(a: TokenView, b: TokenView)
    requires
        token_json(a) == token_json(b),
    ensures
        a == b,
{
    lemma_token_object(a);
    lemma_token_object(b);
    lemma_pos_array(a.pos);
    lemma_pos_array(b.pos);
    assert(a.pos =~= b.pos) by {
        let x = pos_json(a.pos)->Array_0;
        let y = pos_json(b.pos)->Array_0;
        assert(x == y);
        assert forall|i: int| 0 <= i < a.pos.len() implies a.pos[i] == b.pos[i] by {
            assert(x[i] == JsonModel::Str(a.pos[i]));
            assert(y[i] == JsonModel::Str(b.pos[i]));
        }
    }
}

/// Different token sequences give different answers: an answer belongs to
/// the tokens it was built from and to no others.
pub proof fn lemma_answer_injective(a: Seq<TokenView>, b: Seq<TokenView>)
    requires
        tokens_json(a) == tokens_json(b),
    ensures
        a == b,
{
    lemma_answer_in_token_order(a);
    lemma_answer_in_token_order(b);
    let x = tokens_json(a)->Array_0;
    let y = tokens_json(b)->Array_0;
    assert(x == y);
    assert forall|i: int| 0 <= i < a.len() implies a[i] == b[i] by {
        assert(x[i] == token_json(a[i]));
        assert(y[i] == token_json(b[i]));
        lemma_token_object_injective(a[i], b[i]);
    }
    assert(a =~= b);
}

} // verus!
