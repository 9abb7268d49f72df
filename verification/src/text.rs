//! Character sequences: decimal numerals and literal substitution.

use vstd::prelude::*;

verus! {

/// The character that writes the digit `d`.
pub open spec fn digit_char(d: nat) -> char
    recommends
        d < 10,
{
    ('0' as nat + d) as char
}

/// The decimal numeral of `n`: no sign, no padding, `"0"` for zero.
pub open spec fn decimal_digits(n: nat) -> Seq<char>
    decreases n,
{
    if n < 10 {
        seq![digit_char(n)]
    } else {
        decimal_digits(n / 10).push(digit_char(n % 10))
    }
}

/// `String::push` appends one character.
pub assume_specification[ String::push ](s: &mut String, c: char)
    ensures
        final(s)@ == old(s)@.push(c),
;

fn digit(d: u8) -> (c: char)
    requires
        d < 10,
    ensures
        c == digit_char(d as nat),
{
    (48u8 + d) as char
}

/// Writes `n` in decimal.
pub fn decimal(n: usize) -> (text: String)
    ensures
        text@ == decimal_digits(n as nat),
{
    let mut reversed: Vec<char> = Vec::new();
    let mut rest: usize = n;
    while rest >= 10
        invariant
            decimal_digits(n as nat) == decimal_digits(rest as nat) + reversed@.reverse(),
        decreases rest,
    {
        let d: u8 = (rest % 10) as u8;
        reversed.push(digit(d));
        rest = rest / 10;
    }
    let mut text = String::new();
    text.push(digit(rest as u8));
    let mut i: usize = reversed.len();
    while i > 0
        invariant
            i <= reversed.len(),
            text@ == decimal_digits(rest as nat) + reversed@.reverse().subrange(
                0,
                reversed.len() - i,
            ),
        decreases i,
    {
        i = i - 1;
        text.push(reversed[i]);
    }
    text
}

/// Whether `token` stands in `text` at position `at`. An empty token stands nowhere.
pub open spec fn occurs_at(text: Seq<char>, token: Seq<char>, at: int) -> bool {
    &&& token.len() > 0
    &&& 0 <= at
    &&& at + token.len() <= text.len()
    &&& text.subrange(at, at + token.len()) =~= token
}

/// What a scan of `text` from position `at` to the end writes: `with` for each occurrence of
/// `token` it meets, going on behind the occurrence, and every other character as it stands.
pub open spec fn replaced_from(text: Seq<char>, token: Seq<char>, with: Seq<char>, at: int) -> Seq<
    char,
>
    decreases text.len() - at,
{
    if at < 0 || at >= text.len() {
        Seq::empty()
    } else if occurs_at(text, token, at) {
        with + replaced_from(text, token, with, at + token.len())
    } else {
        seq![text[at]] + replaced_from(text, token, with, at + 1)
    }
}

/// `text` with every occurrence of `token`, found from left to right without overlap,
/// replaced by `with`.
pub open spec fn replaced(text: Seq<char>, token: Seq<char>, with: Seq<char>) -> Seq<char> {
    replaced_from(text, token, with, 0)
}

fn chars_of(text: &str) -> (chars: Vec<char>)
    ensures
        chars@ == text@,
{
    let mut chars: Vec<char> = Vec::new();
    for c in it: text.chars()
        invariant
            it.seq() == text@,
            chars@ == text@.take(it.index()),
    {
        chars.push(c);
    }
    chars
}

fn matches_at(text: &Vec<char>, token: &Vec<char>, at: usize) -> (found: bool)
    requires
        at <= text.len(),
    ensures
        found == occurs_at(text@, token@, at as int),
{
    if token.len() == 0 || token.len() > text.len() - at {
        return false;
    }
    let mut k: usize = 0;
    while k < token.len()
        invariant
            k <= token.len(),
            at + token.len() <= text.len(),
            forall|j: int| 0 <= j < k ==> text@[at + j] == token@[j],
        decreases token.len() - k,
    {
        if text[at + k] != token[k] {
            assert(text@.subrange(at as int, at + token.len())[k as int] != token@[k as int]);
            return false;
        }
        k = k + 1;
    }
    true
}

/// Replaces every occurrence of `token` in `text` by `with`, scanning once from left to
/// right. The text that was put in is not scanned again.
pub fn replace_all(text: &str, token: &str, with: &str) -> (out: String)
    ensures
        out@ == replaced(text@, token@, with@),
{
    let source = chars_of(text);
    let pattern = chars_of(token);
    let mut out = String::new();
    let mut at: usize = 0;
    while at < source.len()
        invariant
            at <= source.len(),
            source@ == text@,
            pattern@ == token@,
            replaced(text@, token@, with@) == out@ + replaced_from(
                text@,
                token@,
                with@,
                at as int,
            ),
        decreases source.len() - at,
    {
        if matches_at(&source, &pattern, at) {
            out.append(with);
            at = at + pattern.len();
        } else {
            out.push(source[at]);
            at = at + 1;
        }
    }
    out
}

/// Whether `c` is absent from `text`.
pub open spec fn free_of(text: Seq<char>, c: char) -> bool {
    forall|i: int| 0 <= i < text.len() ==> text[i] != c
}

/// Whether `token` occurs nowhere in `text`.
pub open spec fn lacks(text: Seq<char>, token: Seq<char>) -> bool {
    forall|at: int| !occurs_at(text, token, at)
}

/// A text without the token's first character holds no occurrence of the token.
pub proof fn lemma_free_of_first_lacks(text: Seq<char>, token: Seq<char>)
    requires
        token.len() > 0,
        free_of(text, token[0]),
    ensures
        lacks(text, token),
{
    assert forall|at: int| !occurs_at(text, token, at) by {
        if occurs_at(text, token, at) {
            assert(text.subrange(at, at + token.len())[0] == token[0]);
        }
    }
}

/// A scan that starts inside the second of two joined texts does not see the first.
pub proof fn lemma_replaced_from_behind(
    front: Seq<char>,
    back: Seq<char>,
    token: Seq<char>,
    with: Seq<char>,
    at: int,
)
    requires
        0 <= at,
    ensures
        replaced_from(front + back, token, with, front.len() + at) == replaced_from(
            back,
            token,
            with,
            at,
        ),
    decreases back.len() - at,
{
    let whole = front + back;
    if at < back.len() {
        assert(whole[front.len() + at] == back[at]);
        if at + token.len() <= back.len() {
            assert(whole.subrange(front.len() + at, front.len() + at + token.len())
                =~= back.subrange(at, at + token.len()));
        }
        assert(occurs_at(whole, token, front.len() + at) == occurs_at(back, token, at));
        if occurs_at(back, token, at) {
            lemma_replaced_from_behind(front, back, token, with, at + token.len());
        } else {
            lemma_replaced_from_behind(front, back, token, with, at + 1);
        }
    }
}

/// A text in which the token occurs nowhere is left as it is.
pub proof fn lemma_replaced_lacking(text: Seq<char>, token: Seq<char>, with: Seq<char>)
    requires
        lacks(text, token),
    ensures
        replaced(text, token, with) == text,
{
    lemma_replaced_from_lacking(text, token, with, 0);
    assert(text.subrange(0, text.len() as int) =~= text);
}

proof fn lemma_replaced_from_lacking(text: Seq<char>, token: Seq<char>, with: Seq<char>, at: int)
    requires
        lacks(text, token),
        0 <= at <= text.len(),
    ensures
        replaced_from(text, token, with, at) == text.subrange(at, text.len() as int),
    decreases text.len() - at,
{
    if at < text.len() {
        assert(!occurs_at(text, token, at));
        lemma_replaced_from_lacking(text, token, with, at + 1);
        assert(seq![text[at]] + text.subrange(at + 1, text.len() as int) =~= text.subrange(
            at,
            text.len() as int,
        ));
    } else {
        assert(text.subrange(at, text.len() as int) =~= Seq::<char>::empty());
    }
}

/// Whether some occurrence of `token` in `front + back` begins in `front` and ends in `back`.
pub open spec fn straddles(front: Seq<char>, back: Seq<char>, token: Seq<char>) -> bool {
    exists|at: int|
        front.len() - token.len() < at < front.len() && occurs_at(front + back, token, at)
}

/// Where no occurrence lies across the joint of two texts, replacing in the whole is replacing
/// in each part.
pub proof fn lemma_replaced_joined(
    front: Seq<char>,
    back: Seq<char>,
    token: Seq<char>,
    with: Seq<char>,
)
    requires
        !straddles(front, back, token),
    ensures
        replaced(front + back, token, with) == replaced(front, token, with) + replaced(
            back,
            token,
            with,
        ),
{
    lemma_replaced_from_joined(front, back, token, with, 0);
}

proof fn lemma_replaced_from_joined(
    front: Seq<char>,
    back: Seq<char>,
    token: Seq<char>,
    with: Seq<char>,
    at: int,
)
    requires
        !straddles(front, back, token),
        0 <= at <= front.len(),
    ensures
        replaced_from(front + back, token, with, at) == replaced_from(front, token, with, at)
            + replaced(back, token, with),
    decreases front.len() - at,
{
    let whole = front + back;
    let tail = replaced(back, token, with);
    if at == front.len() {
        lemma_replaced_from_behind(front, back, token, with, 0);
        assert(Seq::<char>::empty() + tail =~= tail);
    } else {
        assert(whole[at] == front[at]);
        if at + token.len() <= front.len() {
            assert(whole.subrange(at, at + token.len()) =~= front.subrange(at, at + token.len()));
        } else {
            assert(!occurs_at(whole, token, at));
        }
        assert(occurs_at(whole, token, at) == occurs_at(front, token, at));
        if occurs_at(front, token, at) {
            lemma_replaced_from_joined(front, back, token, with, at + token.len());
            assert(with + (replaced_from(front, token, with, at + token.len()) + tail) =~= (with
                + replaced_from(front, token, with, at + token.len())) + tail);
        } else {
            lemma_replaced_from_joined(front, back, token, with, at + 1);
            assert(seq![front[at]] + (replaced_from(front, token, with, at + 1) + tail) =~= (
            seq![front[at]] + replaced_from(front, token, with, at + 1)) + tail);
        }
    }
}

/// A leading stretch without the token's first character is copied, and replacing goes on
/// behind it as if it began there.
pub proof fn lemma_replaced_behind_free(
    front: Seq<char>,
    back: Seq<char>,
    token: Seq<char>,
    with: Seq<char>,
)
    requires
        token.len() > 0,
        free_of(front, token[0]),
    ensures
        replaced(front + back, token, with) == front + replaced(back, token, with),
{
    let whole = front + back;
    assert forall|at: int| front.len() - token.len() < at < front.len() implies !occurs_at(
        whole,
        token,
        at,
    ) by {
        if occurs_at(whole, token, at) {
            assert(whole.subrange(at, at + token.len())[0] == token[0]);
            assert(whole[at] == front[at]);
        }
    }
    lemma_replaced_joined(front, back, token, with);
    lemma_free_of_first_lacks(front, token);
    lemma_replaced_lacking(front, token, with);
}

/// A text that begins with the token begins, after replacing, with what the token is
/// replaced by.
pub proof fn lemma_replaced_leading(token: Seq<char>, rest: Seq<char>, with: Seq<char>)
    requires
        token.len() > 0,
    ensures
        replaced(token + rest, token, with) == with + replaced(rest, token, with),
{
    assert((token + rest).subrange(0, token.len() as int) =~= token);
    lemma_replaced_from_behind(token, rest, token, with, 0);
}

/// Filling the one placeholder of a text: where a text is a head without the placeholder's
/// first character, the placeholder, and a rest in which the placeholder occurs nowhere,
/// replacing puts `with` where the placeholder stood and changes nothing else.
pub proof fn lemma_replaced_once(
    head: Seq<char>,
    token: Seq<char>,
    rest: Seq<char>,
    with: Seq<char>,
)
    requires
        token.len() > 0,
        free_of(head, token[0]),
        lacks(rest, token),
    ensures
        replaced(head + token + rest, token, with) == head + with + rest,
{
    assert(head + token + rest =~= head + (token + rest));
    lemma_replaced_behind_free(head, token + rest, token, with);
    lemma_replaced_leading(token, rest, with);
    lemma_replaced_lacking(rest, token, with);
    assert(head + (with + rest) =~= head + with + rest);
}

/// Where the text behind a joint begins with a character that the token does not hold, no
/// occurrence lies across the joint.
pub proof fn lemma_joint_holds(front: Seq<char>, back: Seq<char>, token: Seq<char>)
    requires
        back.len() > 0,
        free_of(token, back[0]),
    ensures
        !straddles(front, back, token),
{
    let whole = front + back;
    assert forall|at: int| front.len() - token.len() < at < front.len() implies !occurs_at(
        whole,
        token,
        at,
    ) by {
        if occurs_at(whole, token, at) {
            let k: int = front.len() - at;
            assert(whole.subrange(at, at + token.len())[k] == token[k]);
            assert(whole[front.len() as int] == back[0]);
        }
    }
}

} // verus!
