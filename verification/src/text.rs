use vstd::prelude::*;

verus! {

/// Whether a character is white space in the sense of the Unicode property
/// `White_Space`.
pub open spec fn is_white_space(c: char) -> bool {
    ||| ('\u{9}' <= c && c <= '\u{D}')
    ||| c == ' '
    ||| c == '\u{85}'
    ||| c == '\u{A0}'
    ||| c == '\u{1680}'
    ||| ('\u{2000}' <= c && c <= '\u{200A}')
    ||| c == '\u{2028}'
    ||| c == '\u{2029}'
    ||| c == '\u{202F}'
    ||| c == '\u{205F}'
    ||| c == '\u{3000}'
}

/// `text` without its leading white space.
pub open spec fn trim_start_of(text: Seq<char>) -> Seq<char>
    decreases text.len(),
{
    if text.len() > 0 && is_white_space(text[0]) {
        trim_start_of(text.subrange(1, text.len() as int))
    } else {
        text
    }
}

/// `text` without its trailing white space.
pub open spec fn trim_end_of(text: Seq<char>) -> Seq<char>
    decreases text.len(),
{
    if text.len() > 0 && is_white_space(text[text.len() - 1]) {
        trim_end_of(text.subrange(0, text.len() - 1))
    } else {
        text
    }
}

/// `text` without its leading and trailing white space.
pub open spec fn trimmed(text: Seq<char>) -> Seq<char> {
    trim_end_of(trim_start_of(text))
}

/// The character of a decimal digit.
pub open spec fn digit_char(digit: int) -> char {
    if digit == 0 {
        '0'
    } else if digit == 1 {
        '1'
    } else if digit == 2 {
        '2'
    } else if digit == 3 {
        '3'
    } else if digit == 4 {
        '4'
    } else if digit == 5 {
        '5'
    } else if digit == 6 {
        '6'
    } else if digit == 7 {
        '7'
    } else if digit == 8 {
        '8'
    } else {
        '9'
    }
}

/// The decimal digits of a natural number, without leading zeros.
pub open spec fn digits_of(value: nat) -> Seq<char>
    decreases value,
{
    if value < 10 {
        seq![digit_char(value as int)]
    } else {
        digits_of(value / 10).push(digit_char((value % 10) as int))
    }
}

/// The decimal text of an integer, with a minus sign before a negative one.
pub open spec fn decimal_text(value: i64) -> Seq<char> {
    if value < 0 {
        seq!['-'] + digits_of((-value) as nat)
    } else {
        digits_of(value as nat)
    }
}

/// The text in lower case, by the Unicode mapping of each character.
pub uninterp spec fn lowercase_of(text: Seq<char>) -> Seq<char>;

/// The text in upper case, by the Unicode mapping of each character.
pub uninterp spec fn uppercase_of(text: Seq<char>) -> Seq<char>;

/// The view of an optional text.
pub open spec fn text_view(text: Option<String>) -> Option<Seq<char>> {
    match text {
        Some(t) => Some(t@),
        None => None,
    }
}

/// The text, or the empty text where there is none.
pub open spec fn text_or_nothing(text: Option<Seq<char>>) -> Seq<char> {
    match text {
        Some(t) => t,
        None => Seq::empty(),
    }
}

/// The full name of a member: first name, a space, last name.
pub open spec fn full_name_of(first: Seq<char>, last: Seq<char>) -> Seq<char> {
    first + seq![' '] + last
}

/// Calls `str::trim`, which returns the text without the white space at its
/// two ends, white space being the characters with the Unicode property
/// `White_Space`.
#[verifier::external_body]
pub(crate) fn trim(text: &str) -> (res: String)
    ensures
        res@ == trimmed(text@),
{
    text.trim().to_string()
}

/// Calls `str::to_lowercase`, which returns the text with every character
/// mapped to lower case.
#[verifier::external_body]
pub(crate) fn lowercase(text: &str) -> (res: String)
    ensures
        res@ == lowercase_of(text@),
{
    text.to_lowercase()
}

/// Calls `str::to_uppercase`, which returns the text with every character
/// mapped to upper case.
#[verifier::external_body]
pub(crate) fn uppercase(text: &str) -> (res: String)
    ensures
        res@ == uppercase_of(text@),
{
    text.to_uppercase()
}

/// The text of one decimal digit.
pub fn digit_text(digit: u64) -> (res: &'static str)
    requires
        digit < 10,
    ensures
        res@ == seq![digit_char(digit as int)],
{
    proof {
        reveal_strlit("0");
        reveal_strlit("1");
        reveal_strlit("2");
        reveal_strlit("3");
        reveal_strlit("4");
        reveal_strlit("5");
        reveal_strlit("6");
        reveal_strlit("7");
        reveal_strlit("8");
        reveal_strlit("9");
    }
    let res = if digit == 0 {
        "0"
    } else if digit == 1 {
        "1"
    } else if digit == 2 {
        "2"
    } else if digit == 3 {
        "3"
    } else if digit == 4 {
        "4"
    } else if digit == 5 {
        "5"
    } else if digit == 6 {
        "6"
    } else if digit == 7 {
        "7"
    } else if digit == 8 {
        "8"
    } else {
        "9"
    };
    assert(res@ =~= seq![digit_char(digit as int)]);
    res
}

/// Writes a natural number in decimal, without leading zeros.
pub fn natural_text(value: u64) -> (res: String)
    ensures
        res@ == digits_of(value as nat),
    decreases value,
{
    if value < 10 {
        String::from_str(digit_text(value))
    } else {
        let mut res = natural_text(value / 10);
        res.append(digit_text(value % 10));
        assert(res@ =~= digits_of((value / 10) as nat).push(digit_char((value % 10) as int)));
        res
    }
}

/// Writes an integer in decimal: a minus sign if it is negative, then its
/// digits without leading zeros.
pub fn integer_text(value: i64) -> (res: String)
    ensures
        res@ == decimal_text(value),
{
    if value < 0 {
        let size: u64 = if value == i64::MIN {
            9_223_372_036_854_775_808u64
        } else {
            (-value) as u64
        };
        proof {
            reveal_strlit("-");
        }
        let mut res = String::from_str("-");
        res.append(natural_text(size).as_str());
        assert(res@ =~= seq!['-'] + digits_of((-value) as nat));
        res
    } else {
        natural_text(value as u64)
    }
}

/// A copy of an optional text.
pub fn clone_text(text: &Option<String>) -> (res: Option<String>)
    ensures
        text_view(res) == text_view(*text),
{
    match text {
        Some(t) => Some(t.clone()),
        None => None,
    }
}

/// A copy of the text, or the empty text where there is none.
pub fn text_or_empty(text: &Option<String>) -> (res: String)
    ensures
        res@ == text_or_nothing(text_view(*text)),
{
    match text {
        Some(t) => t.clone(),
        None => String::new(),
    }
}

/// Joins a first and a last name with one space between them.
pub fn full_name(first: &String, last: &String) -> (name: String)
    ensures
        name@ == full_name_of(first@, last@),
{
    let mut name = first.clone();
    proof {
        reveal_strlit(" ");
    }
    name.append(" ");
    name.append(last.as_str());
    assert(" "@ =~= seq![' ']);
    name
}

/// The text made of `prefix` followed by `rest`.
pub fn prefixed(prefix: &str, rest: &String) -> (res: String)
    ensures
        res@ == prefix@ + rest@,
{
    let mut res = String::from_str(prefix);
    res.append(rest.as_str());
    res
}

} // verus!
