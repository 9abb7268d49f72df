//! The instruction sent to the model: a fixed template with two placeholders.

use crate::text::{
    decimal, decimal_digits, free_of, lacks, lemma_free_of_first_lacks, lemma_joint_holds,
    lemma_replaced_behind_free, lemma_replaced_joined, lemma_replaced_lacking, lemma_replaced_once,
    occurs_at, replace_all, replaced,
};
use vstd::prelude::*;

verus! {

/// The instruction template. `{genre}` and `{twist}` mark where the parameters go.
pub const TEMPLATE: &'static str = "You are a creative story seed generator for a CLI tool called 'storyline'.\n\
Always return exactly one story idea in the following format, no extra text:\n\
\n\
Title: <Short, catchy title>\n\
Genre: <One or two genres>\n\
Premise: <1–2 sentences setting up the scenario>\n\
Twist: <One sentence describing an unexpected turn>\n\
\n\
Constraints:\n\
- Genre must be: {genre}\n\
- Number of twists: {twist}\n\
- Never use more than 60 words in total.\n\
- Title must be 3–6 words.\n\
- Premise should sound intriguing and vivid.\n\
- Twist(s) must be surprising but plausible.\n\
- Avoid clichés like 'it was all a dream' or 'the villain was the hero's father'.\n\
- No explanations or meta comments; output only in the above format.";

/// The placeholder for the genre.
pub const GENRE_TOKEN: &'static str = "{genre}";

/// The placeholder for the number of twists.
pub const TWIST_TOKEN: &'static str = "{twist}";

/// The prompt for `genre` and `twist`: the template with the genre put in for every
/// `{genre}`, and then, in the text so obtained, the decimal numeral of `twist` put in for
/// every `{twist}`. A `{twist}` inside the genre is therefore replaced too.
pub open spec fn prompt_text(genre: Seq<char>, twist: nat) -> Seq<char> {
    replaced(replaced(TEMPLATE@, GENRE_TOKEN@, genre), TWIST_TOKEN@, decimal_digits(twist))
}

/// Builds the prompt for one story idea.
pub fn build_prompt(genre: &str, twist: usize) -> (prompt: String)
    ensures
        prompt@ == prompt_text(genre@, twist as nat),
{
    let with_genre = replace_all(TEMPLATE, GENRE_TOKEN, genre);
    let count = decimal(twist);
    replace_all(with_genre.as_str(), TWIST_TOKEN, count.as_str())
}

/// The template up to the genre placeholder.
pub open spec fn template_head() -> Seq<char> {
    TEMPLATE@.subrange(0, 341)
}

/// The template between the two placeholders.
pub open spec fn template_middle() -> Seq<char> {
    TEMPLATE@.subrange(348, 369)
}

/// The template behind the twist placeholder.
pub open spec fn template_tail() -> Seq<char> {
    TEMPLATE@.subrange(376, 685)
}

/// The template is its three fixed stretches with the two placeholders between them, and no
/// placeholder begins inside a fixed stretch: none of them holds an opening brace. The
/// stretch between the placeholders is the line break and the words that lead to the number
/// of twists.
pub proof fn lemma_template_parts()
    ensures
        TEMPLATE@ == template_head() + GENRE_TOKEN@ + template_middle() + TWIST_TOKEN@
            + template_tail(),
        free_of(template_head(), '{'),
        free_of(template_middle(), '{'),
        free_of(template_tail(), '{'),
        template_middle() == "\n- Number of twists: "@,
        template_middle().len() > 0,
        template_middle()[0] == '\n',
        GENRE_TOKEN@ == seq!['{', 'g', 'e', 'n', 'r', 'e', '}'],
        TWIST_TOKEN@ == seq!['{', 't', 'w', 'i', 's', 't', '}'],
{
    reveal_strlit("You are a creative story seed generator for a CLI tool called 'storyline'.\n\
Always return exactly one story idea in the following format, no extra text:\n\
\n\
Title: <Short, catchy title>\n\
Genre: <One or two genres>\n\
Premise: <1–2 sentences setting up the scenario>\n\
Twist: <One sentence describing an unexpected turn>\n\
\n\
Constraints:\n\
- Genre must be: {genre}\n\
- Number of twists: {twist}\n\
- Never use more than 60 words in total.\n\
- Title must be 3–6 words.\n\
- Premise should sound intriguing and vivid.\n\
- Twist(s) must be surprising but plausible.\n\
- Avoid clichés like 'it was all a dream' or 'the villain was the hero's father'.\n\
- No explanations or meta comments; output only in the above format.");
    reveal_strlit("{genre}");
    reveal_strlit("{twist}");
    reveal_strlit("\n- Number of twists: ");
    assert(template_middle() =~= "\n- Number of twists: "@);
    assert(TEMPLATE@ =~= template_head() + GENRE_TOKEN@ + template_middle() + TWIST_TOKEN@
        + template_tail());
    assert(GENRE_TOKEN@ =~= seq!['{', 'g', 'e', 'n', 'r', 'e', '}']);
    assert(TWIST_TOKEN@ =~= seq!['{', 't', 'w', 'i', 's', 't', '}']);
}

/// The template with the genre put in: the genre stands where the placeholder stood, and
/// the rest is the template's own text, the twist placeholder still in it.
pub proof fn lemma_genre_filled(genre: Seq<char>)
    ensures
        replaced(TEMPLATE@, GENRE_TOKEN@, genre) == template_head() + genre + (template_middle()
            + TWIST_TOKEN@ + template_tail()),
{
    lemma_template_parts();
    let head = template_head();
    let rest = template_middle() + TWIST_TOKEN@ + template_tail();
    let token = GENRE_TOKEN@;
    assert forall|at: int| !occurs_at(rest, token, at) by {
        if occurs_at(rest, token, at) {
            let found = rest.subrange(at, at + token.len());
            assert(found[0] == token[0] && found[1] == token[1]);
            assert(rest[at] == '{' && rest[at + 1] == 'g');
            assert(at == template_middle().len());
            assert(rest[at + 1] == TWIST_TOKEN@[1]);
        }
    }
    lemma_replaced_once(head, token, rest, genre);
    assert(TEMPLATE@ =~= head + token + rest);
}

/// What the prompt holds, for every genre and every number of twists: the template's text,
/// with the numeral of `twist` in place of the twist placeholder and, in place of the genre
/// placeholder, the genre, in which the numeral has also replaced each `{twist}`.
pub proof fn lemma_prompt_parts(genre: Seq<char>, twist: nat)
    ensures
        prompt_text(genre, twist) == template_head() + replaced(
            genre,
            TWIST_TOKEN@,
            decimal_digits(twist),
        ) + template_middle() + decimal_digits(twist) + template_tail(),
{
    lemma_template_parts();
    lemma_genre_filled(genre);
    let head = template_head();
    let middle = template_middle();
    let tail = template_tail();
    let token = TWIST_TOKEN@;
    let numeral = decimal_digits(twist);
    let rest = middle + token + tail;
    let genre_filled = replaced(genre, token, numeral);
    assert(replaced(rest, token, numeral) == middle + numeral + tail) by {
        lemma_free_of_first_lacks(tail, token);
        lemma_replaced_once(middle, token, tail, numeral);
    }
    assert(replaced(genre + rest, token, numeral) == genre_filled + (middle + numeral + tail)) by {
        assert(rest[0] == middle[0]);
        lemma_joint_holds(genre, rest, token);
        lemma_replaced_joined(genre, rest, token, numeral);
    }
    assert(prompt_text(genre, twist) == head + (genre_filled + (middle + numeral + tail))) by {
        assert(head + genre + rest =~= head + (genre + rest));
        lemma_replaced_behind_free(head, genre + rest, token, numeral);
    }
    assert(head + (genre_filled + (middle + numeral + tail)) =~= head + genre_filled + middle
        + numeral + tail);
}

/// A genre that holds no `{twist}` stands in the prompt as it was given: the prompt is the
/// template with the genre and the numeral of `twist` in place of their placeholders, and
/// nothing else changed.
pub proof fn lemma_prompt_fills_placeholders(genre: Seq<char>, twist: nat)
    requires
        lacks(genre, TWIST_TOKEN@),
    ensures
        prompt_text(genre, twist) == template_head() + genre + template_middle()
            + decimal_digits(twist) + template_tail(),
{
    lemma_prompt_parts(genre, twist);
    lemma_replaced_lacking(genre, TWIST_TOKEN@, decimal_digits(twist));
}

/// With no twists asked for, the numeral that stands for the twist placeholder is `0`.
pub proof fn lemma_prompt_without_twists(genre: Seq<char>)
    requires
        lacks(genre, TWIST_TOKEN@),
    ensures
        prompt_text(genre, 0) == template_head() + genre + template_middle() + seq!['0']
            + template_tail(),
{
    lemma_prompt_fills_placeholders(genre, 0);
    assert(decimal_digits(0) =~= seq!['0']);
}

} // verus!
