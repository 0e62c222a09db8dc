use dx::cli::{LoremMethod, LoremOptions};
use dx::handlers::lorem::{Draw, LoremHandler};

#[test]
fn generate_ten_lorem_words() -> Result<(), String> {
    match LoremHandler::gen_words(&LoremOptions { count: 10 }) {
        Ok(result) => {
            let count = result.split(" ").map(|val| val.to_string()).collect::<Vec<String>>().len();
            if count != 10 {
                return Err(format!("The generated lorem has {count} words!"));
            }

            Ok(())
        }
        Err(_) => Err(String::from("Failed to generate lorem words!")),
    }
}

#[test]
fn generate_ten_lorem_sentences() -> Result<(), String> {
    match LoremHandler::gen_sentences(&LoremOptions { count: 10 }) {
        Ok(result) => {
            println!("{result}");
            let count =
                result.split("\u{001F}").map(|val| val.to_string()).collect::<Vec<String>>().len();
            if count != 10 {
                return Err(format!("The generated lorem has {count} sentences!"));
            }

            Ok(())
        }
        Err(_) => Err(String::from("Failed to generate lorem sentences!")),
    }
}

#[test]
fn generate_ten_lorem_paragraphs() -> Result<(), String> {
    match LoremHandler::gen_paragraphs(&LoremOptions { count: 10 }) {
        Ok(result) => {
            let count =
                result.split("\u{001F}").map(|val| val.to_string()).collect::<Vec<String>>().len();
            if count != 10 {
                return Err(format!("The generated lorem has {count} paragraphs!"));
            }

            Ok(())
        }
        Err(_) => Err(String::from("Failed to generate lorem paragraphs!")),
    }
}

#[test]
fn sentences_are_decided_by_the_draws() {
    let one = vec![Draw { words: 7, seed: 1234 }];
    assert_eq!(
        LoremHandler::sentences_from(&one),
        "Anteponant iis, quae recordamur. Stulti autem malorum."
    );
    let two = vec![Draw { words: 7, seed: 1234 }, Draw { words: 7, seed: 1234 }];
    assert_eq!(
        LoremHandler::sentences_from(&two),
        "Anteponant iis, quae recordamur. Stulti autem malorum.\u{001F}Anteponant iis, quae recordamur. Stulti autem malorum."
    );
    assert_eq!(LoremHandler::sentences_from(&vec![]), "");
}

#[test]
fn paragraphs_are_decided_by_the_plans() {
    let sentence = "Anteponant iis, quae recordamur. Stulti autem malorum.";
    let plan = vec![Draw { words: 7, seed: 1234 }, Draw { words: 7, seed: 1234 }];
    assert_eq!(
        LoremHandler::paragraphs_from(&vec![plan.clone(), plan]),
        format!("{sentence} {sentence}\n------------\n\u{001F}{sentence} {sentence}")
    );
    assert_eq!(LoremHandler::paragraphs_from(&vec![]), "");
    assert_eq!(LoremHandler::paragraphs_from(&vec![vec![]]), "");
}

#[test]
fn lorem_sentences_keep_to_their_lengths() {
    let text = LoremHandler::handle_method(&LoremMethod::Sentences {
        options: LoremOptions { count: 20 },
    })
    .unwrap();
    for sentence in text.split('\u{001F}') {
        let words = sentence.split(' ').count();
        assert!((5..12).contains(&words), "{sentence}");
    }
}

#[test]
fn lorem_paragraphs_keep_to_their_lengths() {
    let text = LoremHandler::handle_method(&LoremMethod::Paragraphs {
        options: LoremOptions { count: 3 },
    })
    .unwrap();
    let paragraphs: Vec<&str> = text.split("\n------------\n\u{001F}").collect();
    assert_eq!(paragraphs.len(), 3);
    for paragraph in paragraphs {
        let words = paragraph.split(' ').count();
        assert!((50..150).contains(&words), "{paragraph}");
    }
}

#[test]
fn lorem_of_nothing_is_empty() {
    assert_eq!(LoremHandler::gen_words(&LoremOptions { count: 0 }), Ok(String::new()));
    assert_eq!(LoremHandler::gen_sentences(&LoremOptions { count: 0 }), Ok(String::new()));
    assert_eq!(LoremHandler::gen_paragraphs(&LoremOptions { count: 0 }), Ok(String::new()));
}
