use vstd::prelude::*;

verus! {

#[derive(Debug, Clone)]
pub enum TextMethod {
    Upper { options: TextOptions },
    Lower { options: TextOptions },
    Title { options: TextOptions },
    Camel { options: TextOptions },
    Pascal { options: TextOptions },
    Snake { options: TextOptions },
    Kebab { options: TextOptions },
}

#[derive(Debug, Clone)]
pub struct TextOptions {
    /// Text to transform.
    pub text: String,
}

} // verus!
