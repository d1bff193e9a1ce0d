//! The JSON document that answers a tokenize request.

use vstd::prelude::*;
use crate::json::{
    json_array, json_bool, json_object, json_string, object_insert, object_new, value_model,
    value_models, JsonModel,
};
use crate::token::{string_views, token_views, Token, TokenView};

verus! {

/// A part-of-speech tag as JSON: the array of its strings, in order.
pub open spec fn pos_json(pos: Seq<Seq<char>>) -> JsonModel {
    JsonModel::Array(pos.map_values(|s: Seq<char>| JsonModel::Str(s)))
}

/// A token as JSON: an object of six entries, one for each attribute.
pub open spec fn token_json(t: TokenView) -> JsonModel {
    JsonModel::Object(
        map![
            "surface"@ => JsonModel::Str(t.surface),
            "pos"@ => pos_json(t.pos),
            "normalized_form"@ => JsonModel::Str(t.normalized_form),
            "reading_form"@ => JsonModel::Str(t.reading_form),
            "dictionary_form"@ => JsonModel::Str(t.dictionary_form),
            "is_oov"@ => JsonModel::Bool(t.is_oov),
        ],
    )
}

/// The answer for a sequence of tokens: the array of their objects, in the
/// order of the tokens.
pub open spec fn tokens_json(tokens: Seq<TokenView>) -> JsonModel {
    JsonModel::Array(tokens.map_values(|t: TokenView| token_json(t)))
}

/// Builds the JSON array for a part-of-speech tag.
pub fn pos_to_json(pos: &Vec<String>) -> (v: serde_json::Value)
    ensures
        value_model(v) == pos_json(string_views(pos@)),
{
    let mut items: Vec<serde_json::Value> = Vec::new();
    let mut i: usize = 0;
    while i < pos.len()
        invariant
            i <= pos.len(),
            items.len() == i,
            forall|j: int| 0 <= j < i ==> value_model(#[trigger] items[j]) == JsonModel::Str(pos[j]@),
        decreases pos.len() - i,
    {
        items.push(json_string(pos[i].clone()));
        i += 1;
    }
    let v = json_array(items);
    proof {
        assert(value_models(items@) =~= string_views(pos@).map_values(
            |s: Seq<char>| JsonModel::Str(s),
        ));
    }
    v
}

/// Builds the JSON object for one token.
pub fn token_to_json(token: &Token) -> (v: serde_json::Value)
    ensures
        value_model(v) == token_json(token@),
{
    let mut fields = object_new();
    object_insert(&mut fields, "surface".to_owned(), json_string(token.surface.clone()));
    object_insert(&mut fields, "pos".to_owned(), pos_to_json(&token.pos));
    object_insert(
        &mut fields,
        "normalized_form".to_owned(),
        json_string(token.normalized_form.clone()),
    );
    object_insert(&mut fields, "reading_form".to_owned(), json_string(token.reading_form.clone()));
    object_insert(
        &mut fields,
        "dictionary_form".to_owned(),
        json_string(token.dictionary_form.clone()),
    );
    object_insert(&mut fields, "is_oov".to_owned(), json_bool(token.is_oov));
    json_object(fields)
}

/// Builds the JSON array that answers a request: one object for each token,
/// in the order of the tokens.
pub fn tokens_to_json(tokens: &Vec<Token>) -> (v: serde_json::Value)
    ensures
        value_model(v) == tokens_json(token_views(tokens@)),
{
    let mut items: Vec<serde_json::Value> = Vec::new();
    let mut i: usize = 0;
    while i < tokens.len()
        invariant
            i <= tokens.len(),
            items.len() == i,
            forall|j: int| 0 <= j < i ==> value_model(#[trigger] items[j]) == token_json(tokens[j]@),
        decreases tokens.len() - i,
    {
        items.push(token_to_json(&tokens[i]));
        i += 1;
    }
    let v = json_array(items);
    proof {
        assert(value_models(items@) =~= token_views(tokens@).map_values(
            |t: TokenView| token_json(t),
        ));
    }
    v
}

} // verus!
