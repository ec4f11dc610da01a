//! Model families and the tags that select them.

use crate::text::same_text;
use vstd::prelude::*;

verus! {

/// The architecture of a model file, which decides the backend that reads it.
#[derive(Clone, Copy, Debug, PartialEq, Eq, Structural)]
pub enum ModelFamily {
    Llama,
    Bloom,
    Gpt2,
    GptJ,
    /// The family that every tag without a family of its own resolves to.
    NeoX,
}

/// The family that a tag selects: one of the four named families for its own
/// tag, the default family for every other text.
pub open spec fn family_of_tag(tag: Seq<char>) -> ModelFamily {
    if tag == "llama"@ {
        ModelFamily::Llama
    } else if tag == "bloom"@ {
        ModelFamily::Bloom
    } else if tag == "gpt2"@ {
        ModelFamily::Gpt2
    } else if tag == "gptj"@ {
        ModelFamily::GptJ
    } else {
        ModelFamily::NeoX
    }
}

/// The tag under which a family is offered for selection.
pub open spec fn tag_of_family(family: ModelFamily) -> Seq<char> {
    match family {
        ModelFamily::Llama => "llama"@,
        ModelFamily::Bloom => "bloom"@,
        ModelFamily::Gpt2 => "gpt2"@,
        ModelFamily::GptJ => "gptj"@,
        ModelFamily::NeoX => "neox"@,
    }
}

/// The families in the order in which they are offered for selection.
pub open spec fn offered_families() -> Seq<ModelFamily> {
    seq![
        ModelFamily::Llama,
        ModelFamily::Bloom,
        ModelFamily::Gpt2,
        ModelFamily::GptJ,
        ModelFamily::NeoX,
    ]
}

impl ModelFamily {
    /// Resolves a tag to its family. A tag that names no family is not an
    /// error: it selects the default family.
    pub fn from_tag(tag: &str) -> (family: ModelFamily)
        ensures
            family == family_of_tag(tag@),
    {
        if same_text(tag, "llama") {
            ModelFamily::Llama
        } else if same_text(tag, "bloom") {
            ModelFamily::Bloom
        } else if same_text(tag, "gpt2") {
            ModelFamily::Gpt2
        } else if same_text(tag, "gptj") {
            ModelFamily::GptJ
        } else {
            ModelFamily::NeoX
        }
    }

    /// The tag of this family. Resolving it gives the family back.
    pub fn tag(self) -> (tag: &'static str)
        ensures
            tag@ == tag_of_family(self),
            family_of_tag(tag@) == self,
    {
        proof {
            law_tag_round_trip(self);
        }
        match self {
            ModelFamily::Llama => "llama",
            ModelFamily::Bloom => "bloom",
            ModelFamily::Gpt2 => "gpt2",
            ModelFamily::GptJ => "gptj",
            ModelFamily::NeoX => "neox",
        }
    }

    /// The family chosen when a tag names none.
    pub fn fallback() -> (family: ModelFamily)
        ensures
            family == ModelFamily::NeoX,
    {
        ModelFamily::NeoX
    }

    /// All families, in the order in which they are offered for selection.
    pub fn all() -> (families: Vec<ModelFamily>)
        ensures
            families@ == offered_families(),
    {
        let mut families: Vec<ModelFamily> = Vec::new();
        families.push(ModelFamily::Llama);
        families.push(ModelFamily::Bloom);
        families.push(ModelFamily::Gpt2);
        families.push(ModelFamily::GptJ);
        families.push(ModelFamily::NeoX);
        assert(families@ =~= offered_families());
        families
    }
}

/// Every family is found again from its own tag: the five tags are pairwise
/// different texts.
pub proof fn law_tag_round_trip(family: ModelFamily)
    ensures
        family_of_tag(tag_of_family(family)) == family,
{
    reveal_strlit("llama");
    reveal_strlit("bloom");
    reveal_strlit("gpt2");
    reveal_strlit("gptj");
    reveal_strlit("neox");
    // Tags of one length differ in a letter.
    assert("llama"@[0] != "bloom"@[0]);
    assert("gpt2"@[3] != "gptj"@[3]);
    assert("gpt2"@[0] != "neox"@[0]);
    assert("gptj"@[0] != "neox"@[0]);
}

/// A tag resolves to a named family only if it is that family's own tag; every
/// other text resolves to the default family.
pub proof fn law_unknown_tag_selects_the_default(tag: Seq<char>)
    ensures
        family_of_tag(tag) != ModelFamily::NeoX ==> tag == tag_of_family(family_of_tag(tag)),
        (tag != "llama"@ && tag != "bloom"@ && tag != "gpt2"@ && tag != "gptj"@) ==> family_of_tag(tag)
            == ModelFamily::NeoX,
{
}

} // verus!
