//! A token of an analysed text.

use vstd::prelude::*;

verus! {

/// One lexical unit of the input, with what the dictionary says of it.
#[derive(Clone, Debug)]
pub struct Token {
    /// The piece of the input that the token covers, as it was written.
    pub surface: String,
    /// The part-of-speech tag, from the major category down.
    pub pos: Vec<String>,
    pub normalized_form: String,
    pub reading_form: String,
    pub dictionary_form: String,
    /// Whether the token is missing from the dictionary and was made up by
    /// fallback segmentation.
    pub is_oov: bool,
}

/// A token as plain mathematical values.
pub struct TokenView {
    pub surface: Seq<char>,
    pub pos: Seq<Seq<char>>,
    pub normalized_form: Seq<char>,
    pub reading_form: Seq<char>,
    pub dictionary_form: Seq<char>,
    pub is_oov: bool,
}

/// The text of each string of a sequence, in order.
pub open spec fn string_views(strings: Seq<String>) -> Seq<Seq<char>> {
    strings.map_values(|s: String| s@)
}

impl View for Token {
    type V = TokenView;

    open spec fn view(&self) -> TokenView {
        TokenView {
            surface: self.surface@,
            pos: string_views(self.pos@),
            normalized_form: self.normalized_form@,
            reading_form: self.reading_form@,
            dictionary_form: self.dictionary_form@,
            is_oov: self.is_oov,
        }
    }
}

/// The view of each token of a sequence, in order.
pub open spec fn token_views(tokens: Seq<Token>) -> Seq<TokenView> {
    tokens.map_values(|t: Token| t@)
}

/// The input text that a sequence of tokens covers: their surfaces, one
/// after the other.
pub open spec fn surface_text(tokens: Seq<TokenView>) -> Seq<char> {
    tokens.map_values(|t: TokenView| t.surface).flatten()
}

} // verus!
