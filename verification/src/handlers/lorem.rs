//! The `lorem` command: placeholder text by the word, the sentence and the
//! paragraph.
//!
//! The words come from `lipsum`, which makes the same text of the same
//! count and seed every time. Counts and seeds are drawn at random; what
//! is made of them is stated for every draw.

use vstd::prelude::*;
use rand::Rng;
use crate::cli::{LoremMethod, LoremOptions};
use crate::handlers::{handled, CommandHandlerError, HandlerFailure};
use crate::text::{join, joined, strings_view};

verus! {

/// What `lipsum::lipsum_words_from_seed` returns for a count of words and
/// a seed.
pub uninterp spec fn lorem_words(count: int, seed: int) -> Seq<char>;

/// `lipsum::lipsum_words_from_seed`.
#[verifier::external_body]
fn lipsum_words(count: usize, seed: u64) -> (text: String)
    ensures
        text@ == lorem_words(count as int, seed as int),
{
    lipsum::lipsum_words_from_seed(count, seed)
}

/// `Rng::random` on the thread's generator: any seed may come back.
#[verifier::external_body]
fn random_seed() -> (seed: u64) {
    rand::rng().random()
}

/// `Rng::random_range` on the thread's generator: a number from `low` up
/// to but not counting `high`.
#[verifier::external_body]
fn random_in(low: usize, high: usize) -> (drawn: usize)
    requires
        low < high,
    ensures
        low <= drawn < high,
{
    rand::rng().random_range(low..high)
}

/// One draw: how many words a sentence gets and the seed it grows from.
#[derive(Clone, Copy, Debug, PartialEq, Eq, Structural)]
pub struct Draw {
    pub words: usize,
    pub seed: u64,
}

/// The sentence of each draw.
pub open spec fn sentences(draws: Seq<Draw>) -> Seq<Seq<char>> {
    Seq::new(draws.len(), |i: int| lorem_words(draws[i].words as int, draws[i].seed as int))
}

/// The sentences of the draws, a unit separator between each two.
pub open spec fn sentences_text(draws: Seq<Draw>) -> Seq<char> {
    joined(sentences(draws), "\u{001F}"@)
}

/// The sentences of the draws as one paragraph, a space between each two.
pub open spec fn paragraph(draws: Seq<Draw>) -> Seq<char> {
    joined(sentences(draws), " "@)
}

/// The paragraph of each plan.
pub open spec fn paragraphs(plans: Seq<Vec<Draw>>) -> Seq<Seq<char>> {
    Seq::new(plans.len(), |i: int| paragraph(plans[i]@))
}

/// The paragraphs of the plans, a rule and a unit separator between each
/// two.
pub open spec fn paragraphs_text(plans: Seq<Vec<Draw>>) -> Seq<char> {
    joined(paragraphs(plans), "\n------------\n\u{001F}"@)
}

/// Whether every draw asks for at least `low` and fewer than `high` words.
pub open spec fn words_within(draws: Seq<Draw>, low: int, high: int) -> bool {
    forall|i: int| 0 <= i < draws.len() ==> low <= (#[trigger] draws[i]).words < high
}

/// Whether a plan for paragraphs has five or six sentences in each
/// paragraph and ten to twenty-four words in each sentence.
pub open spec fn paragraphs_planned(plans: Seq<Vec<Draw>>) -> bool {
    forall|i: int|
        0 <= i < plans.len() ==> 5 <= (#[trigger] plans[i]).len() < 7 && words_within(
            plans[i]@,
            10,
            25,
        )
}

/// Whether `r` is a text that the request may generate: the text of some
/// draw within the request's bounds.
pub open spec fn generated(method: &LoremMethod, r: Result<Seq<char>, HandlerFailure>) -> bool {
    match method {
        LoremMethod::Words { options } => exists|seed: int|
            0 <= seed <= u64::MAX && r == Ok::<Seq<char>, HandlerFailure>(
                #[trigger] lorem_words(options.count as int, seed),
            ),
        LoremMethod::Sentences { options } => exists|draws: Seq<Draw>|
            draws.len() == options.count && words_within(draws, 5, 12) && r == Ok::<
                Seq<char>,
                HandlerFailure,
            >(sentences_text(draws)),
        LoremMethod::Paragraphs { options } => exists|plans: Seq<Vec<Draw>>|
            plans.len() == options.count && paragraphs_planned(plans) && r == Ok::<
                Seq<char>,
                HandlerFailure,
            >(paragraphs_text(plans)),
    }
}

fn sentence_list(draws: &Vec<Draw>) -> (texts: Vec<String>)
    ensures
        strings_view(texts@) == sentences(draws@),
{
    let mut texts: Vec<String> = Vec::new();
    let mut index: usize = 0;
    while index < draws.len()
        invariant
            index <= draws.len(),
            texts.len() == index,
            forall|i: int|
                0 <= i < index ==> (#[trigger] texts@[i])@ == lorem_words(
                    draws@[i].words as int,
                    draws@[i].seed as int,
                ),
        decreases draws.len() - index,
    {
        texts.push(lipsum_words(draws[index].words, draws[index].seed));
        index += 1;
    }
    proof {
        assert(strings_view(texts@) =~= sentences(draws@));
    }
    texts
}

fn draw_sentences(count: usize, low: usize, high: usize) -> (draws: Vec<Draw>)
    requires
        low < high,
    ensures
        draws.len() == count,
        words_within(draws@, low as int, high as int),
{
    let mut draws: Vec<Draw> = Vec::new();
    while draws.len() < count
        invariant
            low < high,
            draws.len() <= count,
            words_within(draws@, low as int, high as int),
        decreases count - draws.len(),
    {
        let words = random_in(low, high);
        let seed = random_seed();
        draws.push(Draw { words, seed });
    }
    draws
}

pub struct LoremHandler {}

impl LoremHandler {
    /// Generates what the request asks for. Generation never fails.
    pub fn handle_method(method: &LoremMethod) -> (r: Result<String, CommandHandlerError>)
        ensures
            r is Ok,
            generated(method, handled(r)),
    {
        match method {
            LoremMethod::Words { options } => Self::gen_words(options),
            LoremMethod::Sentences { options } => Self::gen_sentences(options),
            LoremMethod::Paragraphs { options } => Self::gen_paragraphs(options),
        }
    }

    /// The sentences of the given draws, a unit separator between each two.
    pub fn sentences_from(draws: &Vec<Draw>) -> (text: String)
        ensures
            text@ == sentences_text(draws@),
    {
        join(&sentence_list(draws), "\u{001F}")
    }

    /// The paragraphs of the given plans, a rule and a unit separator
    /// between each two.
    pub fn paragraphs_from(plans: &Vec<Vec<Draw>>) -> (text: String)
        ensures
            text@ == paragraphs_text(plans@),
    {
        let mut texts: Vec<String> = Vec::new();
        let mut index: usize = 0;
        while index < plans.len()
            invariant
                index <= plans.len(),
                texts.len() == index,
                forall|i: int| 0 <= i < index ==> (#[trigger] texts@[i])@ == paragraph(plans@[i]@),
            decreases plans.len() - index,
        {
            texts.push(join(&sentence_list(&plans[index]), " "));
            index += 1;
        }
        proof {
            assert(strings_view(texts@) =~= paragraphs(plans@));
        }
        join(&texts, "\n------------\n\u{001F}")
    }

    /// As many words as asked for, grown from a seed drawn at random.
    pub fn gen_words(options: &LoremOptions) -> (r: Result<String, CommandHandlerError>)
        ensures
            generated(&LoremMethod::Words { options: *options }, handled(r)),
    {
        let seed = random_seed();
        let text = lipsum_words(options.count as usize, seed);
        let r = Ok(text);
        proof {
            let drawn = seed as int;
            assert(0 <= drawn <= u64::MAX && handled(r) == Ok::<Seq<char>, HandlerFailure>(
                lorem_words(options.count as int, drawn),
            ));
            assert(exists|seed: int|
                0 <= seed <= u64::MAX && handled(r) == Ok::<Seq<char>, HandlerFailure>(
                    #[trigger] lorem_words(options.count as int, seed),
                ));
            let method = LoremMethod::Words { options: *options };
            assert(method matches LoremMethod::Words { options: chosen } && chosen.count
                == options.count);
            assert(generated(&method, handled(r)));
        }
        r
    }

    /// As many sentences as asked for, each of five to eleven words.
    pub fn gen_sentences(options: &LoremOptions) -> (r: Result<String, CommandHandlerError>)
        ensures
            generated(&LoremMethod::Sentences { options: *options }, handled(r)),
    {
        let draws = draw_sentences(options.count as usize, 5, 12);
        let r = Ok(Self::sentences_from(&draws));
        proof {
            assert(draws@.len() == options.count && words_within(draws@, 5, 12) && handled(r)
                == Ok::<Seq<char>, HandlerFailure>(sentences_text(draws@)));
        }
        r
    }

    /// As many paragraphs as asked for, each of five or six sentences of
    /// ten to twenty-four words.
    pub fn gen_paragraphs(options: &LoremOptions) -> (r: Result<String, CommandHandlerError>)
        ensures
            generated(&LoremMethod::Paragraphs { options: *options }, handled(r)),
    {
        let count = options.count as usize;
        let mut plans: Vec<Vec<Draw>> = Vec::new();
        while plans.len() < count
            invariant
                plans.len() <= count,
                paragraphs_planned(plans@),
            decreases count - plans.len(),
        {
            let size = random_in(5, 7);
            plans.push(draw_sentences(size, 10, 25));
        }
        let r = Ok(Self::paragraphs_from(&plans));
        proof {
            assert(plans@.len() == options.count && paragraphs_planned(plans@) && handled(r)
                == Ok::<Seq<char>, HandlerFailure>(paragraphs_text(plans@)));
        }
        r
    }
}

} // verus!
