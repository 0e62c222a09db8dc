use vstd::prelude::*;

verus! {

#[derive(Debug, Clone)]
pub enum LoremMethod {
    /// Generate random words.
    Words { options: LoremOptions },
    /// Generate random sentences.
    Sentences { options: LoremOptions },
    /// Generate random paragraphs.
    Paragraphs { options: LoremOptions },
}

#[derive(Debug, Clone)]
pub struct LoremOptions {
    /// How many words, sentences or paragraphs.
    pub count: u32,
}

} // verus!
