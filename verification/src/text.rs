//! Text: comparison, white space and decimal numbers.
use vstd::prelude::*;
use vstd::string::StringExecFns;

verus! {

/// The views of some texts.
pub open spec fn texts_view(texts: Seq<String>) -> Seq<Seq<char>> {
    texts.map_values(|t: String| t@)
}

/// The view of a text that may be missing.
pub open spec fn text_view(text: Option<String>) -> Option<Seq<char>> {
    match text {
        Some(t) => Some(t@),
        None => None,
    }
}

/// A text that may be missing, and is empty then.
pub open spec fn text_or_empty(text: Option<Seq<char>>) -> Seq<char> {
    match text {
        Some(t) => t,
        None => Seq::empty(),
    }
}

/// Whether a text is empty.
pub fn is_empty(text: &String) -> (empty: bool)
    ensures
        empty == (text@.len() == 0),
{
    let nothing = String::new();
    proof {
        if text@.len() == 0 {
            assert(text@ =~= nothing@);
        }
    }
    *text == nothing
}

/// Whether two texts are the same.
pub fn same_text(a: &str, b: &str) -> (same: bool)
    ensures
        same == (a@ == b@),
{
    a.to_owned() == b.to_owned()
}

/// The three texts one after the other.
pub fn join3(first: &str, second: &str, third: &str) -> (joined: String)
    ensures
        joined@ == first@ + second@ + third@,
{
    let mut joined = first.to_owned();
    joined.append(second);
    joined.append(third);
    joined
}

/// The characters that Unicode calls white space.
pub open spec fn is_space(c: char) -> bool {
    ||| '\u{9}' <= c <= '\u{d}'
    ||| c == '\u{20}'
    ||| c == '\u{85}'
    ||| c == '\u{a0}'
    ||| c == '\u{1680}'
    ||| '\u{2000}' <= c <= '\u{200a}'
    ||| c == '\u{2028}'
    ||| c == '\u{2029}'
    ||| c == '\u{202f}'
    ||| c == '\u{205f}'
    ||| c == '\u{3000}'
}

/// A text without the white space it starts with.
pub open spec fn without_leading_space(s: Seq<char>) -> Seq<char>
    decreases s.len(),
{
    if s.len() > 0 && is_space(s.first()) {
        without_leading_space(s.drop_first())
    } else {
        s
    }
}

/// A text without the white space it ends with.
pub open spec fn without_trailing_space(s: Seq<char>) -> Seq<char>
    decreases s.len(),
{
    if s.len() > 0 && is_space(s.last()) {
        without_trailing_space(s.drop_last())
    } else {
        s
    }
}

/// A text without the white space around it.
pub open spec fn trimmed(s: Seq<char>) -> Seq<char> {
    without_trailing_space(without_leading_space(s))
}

/// Calls `str::trim`: what is left when the white space at both ends is gone.
#[verifier::external_body]
pub(crate) fn trim<'a>(s: &'a str) -> (t: &'a str)
    ensures
        t@ == trimmed(s@),
{
    s.trim()
}

/// The decimal digit that stands for `d`.
pub open spec fn digit(d: nat) -> char
    recommends
        d < 10,
{
    (('0' as u8) + d) as u8 as char
}

/// A number in decimal, without leading zeros.
pub open spec fn decimal(n: nat) -> Seq<char>
    decreases n,
{
    if n < 10 {
        seq![digit(n)]
    } else {
        decimal(n / 10).push(digit(n % 10))
    }
}

fn digit_text(d: u32) -> (text: &'static str)
    requires
        d < 10,
    ensures
        text@ == seq![digit(d as nat)],
{
    proof {
        reveal_strlit("0");
        reveal_strlit("1");
        reveal_strlit("2");
        reveal_strlit("3");
        reveal_strlit("4");
        reveal_strlit("5");
        reveal_strlit("6");
        reveal_strlit("7");
        reveal_strlit("8");
        reveal_strlit("9");
    }
    let text = match d {
        0 => "0",
        1 => "1",
        2 => "2",
        3 => "3",
        4 => "4",
        5 => "5",
        6 => "6",
        7 => "7",
        8 => "8",
        _ => "9",
    };
    assert(text@ =~= seq![digit(d as nat)]);
    text
}

/// Writes a number in decimal.
pub fn decimal_text(n: u32) -> (text: String)
    ensures
        text@ == decimal(n as nat),
    decreases n,
{
    let mut text = if n < 10 {
        String::new()
    } else {
        decimal_text(n / 10)
    };
    text.append(digit_text(n % 10));
    assert(text@ =~= decimal(n as nat));
    text
}

/// Trimming a trimmed text changes nothing.
pub proof fn law_trimming_is_final(s: Seq<char>)
    ensures
        trimmed(trimmed(s)) == trimmed(s),
{
    lemma_leading(s);
    lemma_trailing(without_leading_space(s));
}

proof fn lemma_leading(s: Seq<char>)
    ensures
        without_leading_space(s).len() > 0 ==> !is_space(without_leading_space(s).first()),
    decreases s.len(),
{
    if s.len() > 0 && is_space(s.first()) {
        lemma_leading(s.drop_first());
    }
}

proof fn lemma_trailing(s: Seq<char>)
    ensures
        without_trailing_space(s).len() > 0 ==> {
            &&& s.len() > 0
            &&& without_trailing_space(s).first() == s.first()
            &&& !is_space(without_trailing_space(s).last())
        },
    decreases s.len(),
{
    if s.len() > 0 && is_space(s.last()) {
        lemma_trailing(s.drop_last());
    }
}

/// Trimming takes white space from both ends and nothing else, and leaves none there.
pub proof fn law_trimming_takes_white_space(s: Seq<char>)
    ensures
        exists|start: int, end: int|
            {
                &&& 0 <= start <= end <= s.len()
                &&& trimmed(s) == #[trigger] s.subrange(start, end)
                &&& forall|i: int|
                    0 <= i < start || end <= i < s.len() ==> is_space(#[trigger] s[i])
            },
        trimmed(s).len() > 0 ==> !is_space(trimmed(s).first()) && !is_space(trimmed(s).last()),
{
    let rest = without_leading_space(s);
    let start = s.len() - rest.len();
    lemma_leading(s);
    lemma_leading_is_space(s);
    lemma_trailing(rest);
    lemma_trailing_is_space(rest);
    let end = start + trimmed(s).len();
    assert(trimmed(s) =~= s.subrange(start, end));
    assert forall|i: int| 0 <= i < start || end <= i < s.len() implies is_space(
        #[trigger] s[i],
    ) by {
        if end <= i {
            assert(s[i] == rest[i - start]);
        }
    }
}

proof fn lemma_leading_is_space(s: Seq<char>)
    ensures
        without_leading_space(s).len() <= s.len(),
        without_leading_space(s) == s.skip(s.len() - without_leading_space(s).len()),
        forall|i: int|
            0 <= i < s.len() - without_leading_space(s).len() ==> is_space(#[trigger] s[i]),
    decreases s.len(),
{
    if s.len() > 0 && is_space(s.first()) {
        let rest = s.drop_first();
        lemma_leading_is_space(rest);
        let n = s.len() - without_leading_space(s).len();
        assert(without_leading_space(s) =~= s.skip(n));
        assert forall|i: int| 0 <= i < n implies is_space(#[trigger] s[i]) by {
            if i > 0 {
                assert(s[i] == rest[i - 1]);
            }
        }
    } else {
        assert(s.skip(0) =~= s);
    }
}

proof fn lemma_trailing_is_space(s: Seq<char>)
    ensures
        without_trailing_space(s).len() <= s.len(),
        without_trailing_space(s) == s.take(without_trailing_space(s).len() as int),
        forall|i: int|
            without_trailing_space(s).len() <= i < s.len() ==> is_space(#[trigger] s[i]),
    decreases s.len(),
{
    if s.len() > 0 && is_space(s.last()) {
        let rest = s.drop_last();
        lemma_trailing_is_space(rest);
        assert(without_trailing_space(s) =~= s.take(without_trailing_space(s).len() as int));
        assert forall|i: int| without_trailing_space(s).len() <= i < s.len() implies is_space(
            #[trigger] s[i],
        ) by {
            if i < rest.len() {
                assert(s[i] == rest[i]);
            }
        }
    } else {
        assert(s.take(s.len() as int) =~= s);
    }
}

/// White space is what Unicode calls so: of the characters up to U+00FF the tabulator
/// and the four after it, the space, U+0085 and the no-break space, and of the others
/// those from U+2000 to U+200A and six more.
pub proof fn law_white_space_is_known(c: char)
    ensures
        is_space(c) <==> {
            let n = c as u32;
            ||| 9 <= n <= 13
            ||| n == 32
            ||| n == 133
            ||| n == 160
            ||| n == 5760
            ||| 8192 <= n <= 8202
            ||| n == 8232
            ||| n == 8233
            ||| n == 8239
            ||| n == 8287
            ||| n == 12288
        },
{
}

/// The number that some decimal digits stand for.
pub open spec fn number_of(digits: Seq<char>) -> nat
    decreases digits.len(),
{
    if digits.len() == 0 {
        0
    } else {
        10 * number_of(digits.drop_last()) + (digits.last() as nat - '0' as nat) as nat
    }
}

/// A number in decimal reads as that number. It is made of decimal digits, and the
/// first of them is no zero unless it is the only one.
pub proof fn law_decimals_read_back(n: nat)
    ensures
        number_of(decimal(n)) == n,
        decimal(n).len() > 0,
        forall|i: int| 0 <= i < decimal(n).len() ==> '0' <= #[trigger] decimal(n)[i] <= '9',
        decimal(n).len() > 1 ==> decimal(n).first() != '0',
    decreases n,
{
    let d = n % 10;
    assert(digit(d) as nat == '0' as nat + d);
    if n < 10 {
        let one = decimal(n);
        assert(one.drop_last() =~= Seq::<char>::empty());
        assert(number_of(one.drop_last()) == 0);
        assert(one.last() == digit(n));
    } else {
        law_decimals_read_back(n / 10);
        assert(decimal(n).drop_last() =~= decimal(n / 10));
        assert(decimal(n).first() == decimal(n / 10).first());
        if n / 10 < 10 {
            assert(decimal(n / 10) =~= seq![digit(n / 10)]);
            assert(digit(n / 10) as nat == '0' as nat + n / 10);
        } else {
            law_decimals_read_back(n / 10 / 10);
            assert(decimal(n / 10).len() > 1);
        }
    }
}

/// A text that is missing counts as empty, and any other as itself.
pub proof fn law_missing_texts_are_empty(text: Option<Seq<char>>)
    ensures
        text is None ==> text_or_empty(text).len() == 0,
        text is Some ==> Some(text_or_empty(text)) == text,
{
}

/// The views of texts are the texts themselves, each in its place.
pub proof fn law_texts_keep_their_places(texts: Seq<String>, text: Option<String>)
    ensures
        texts_view(texts).len() == texts.len(),
        forall|i: int| 0 <= i < texts.len() ==> #[trigger] texts_view(texts)[i] == texts[i]@,
        text is None ==> text_view(text) is None,
        text matches Some(t) ==> text_view(text) == Some(t@),
{
}

/// Texts are compared and joined character by character.
pub proof fn law_texts_are_compared_whole(a: &str, b: &str, c: &str, same: bool, joined: String)
    requires
        call_ensures(same_text, (a, b), same),
        call_ensures(join3, (a, b, c), joined),
    ensures
        same <==> a@ == b@,
        joined@.len() == a@.len() + b@.len() + c@.len(),
        joined@.take(a@.len() as int) == a@,
        joined@.skip(a@.len() as int).take(b@.len() as int) == b@,
        joined@.skip((a@.len() + b@.len()) as int) == c@,
{
    assert(joined@.take(a@.len() as int) =~= a@);
    assert(joined@.skip(a@.len() as int).take(b@.len() as int) =~= b@);
    assert(joined@.skip((a@.len() + b@.len()) as int) =~= c@);
}

/// A text is empty where it has no character, and a number is written in full.
pub proof fn law_texts_are_told_apart(text: &String, empty: bool, n: u32, written: String)
    requires
        call_ensures(is_empty, (text,), empty),
        call_ensures(decimal_text, (n,), written),
    ensures
        empty <==> text@.len() == 0,
        number_of(written@) == n,
{
    law_decimals_read_back(n as nat);
}

} // verus!
