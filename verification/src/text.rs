//! Text helpers, stated over the character sequences that strings stand for.

use vstd::prelude::*;

verus! {

/// The first position at or after `from` that holds `c`, or the length of the
/// text where there is none.
pub open spec fn index_from(text: Seq<char>, c: char, from: int) -> int
    decreases text.len() - from,
{
    if from < 0 || from >= text.len() {
        text.len() as int
    } else if text[from] == c {
        from
    } else {
        index_from(text, c, from + 1)
    }
}

/// The second of the pieces into which single spaces split a text.
pub open spec fn second_word(text: Seq<char>) -> Option<Seq<char>> {
    let first = index_from(text, ' ', 0);
    if first == text.len() {
        None
    } else {
        Some(text.subrange(first + 1, index_from(text, ' ', first + 1)))
    }
}

/// The decimal digit with the given value.
pub open spec fn digit_char(value: nat) -> char
    recommends
        value < 10,
{
    (('0' as u32) + value) as char
}

/// A number in decimal, without leading zeros.
pub open spec fn decimal(n: nat) -> Seq<char>
    decreases n,
{
    if n < 10 {
        seq![digit_char(n)]
    } else {
        decimal(n / 10).push(digit_char(n % 10))
    }
}

/// Whether a text is made of digits and dots, and not empty.
pub open spec fn is_dotted(text: Seq<char>) -> bool {
    &&& text.len() > 0
    &&& forall|i: int| 0 <= i < text.len() ==> '0' <= #[trigger] text[i] <= '9' || text[i] == '.'
}

/// Whether a text is made of ASCII letters and digits.
pub open spec fn is_alphanumeric(text: Seq<char>) -> bool {
    forall|i: int|
        0 <= i < text.len() ==> '0' <= #[trigger] text[i] <= '9' || 'a' <= text[i] <= 'z' || 'A'
            <= text[i] <= 'Z'
}

/// Whether a text is made of ASCII letters, digits, dots and hyphens, and not
/// empty, as the names of hosts are.
pub open spec fn is_host_name(text: Seq<char>) -> bool {
    &&& text.len() > 0
    &&& forall|i: int|
        0 <= i < text.len() ==> '0' <= #[trigger] text[i] <= '9' || 'a' <= text[i] <= 'z' || 'A'
            <= text[i] <= 'Z' || text[i] == '.' || text[i] == '-'
}

/// `index_from` finds the character it looks for, and nothing before it.
pub proof fn lemma_index_from(text: Seq<char>, c: char, from: int)
    requires
        0 <= from <= text.len(),
    ensures
        from <= index_from(text, c, from) <= text.len(),
        index_from(text, c, from) < text.len() ==> text[index_from(text, c, from)] == c,
        forall|i: int| from <= i < index_from(text, c, from) ==> text[i] != c,
    decreases text.len() - from,
{
    if from < text.len() && text[from] != c {
        lemma_index_from(text, c, from + 1);
    }
}

/// The second word stands between the first space and the next one, or the end,
/// and holds no space itself.
pub proof fn law_second_word(text: Seq<char>)
    ensures
        second_word(text) is None <==> !text.contains(' '),
        second_word(text) matches Some(word) ==> {
            let start = text.index_of_first(' ')->0 + 1;
            &&& !word.contains(' ')
            &&& start + word.len() <= text.len()
            &&& word == text.subrange(start, start + word.len())
            &&& start + word.len() == text.len() || text[start + word.len()] == ' '
        },
{
    let first = index_from(text, ' ', 0);
    lemma_index_from(text, ' ', 0);
    text.index_of_first_ensures(' ');
    if first < text.len() {
        lemma_index_from(text, ' ', first + 1);
        assert(text[first] == ' ');
    } else if text.contains(' ') {
        let i = text.index_of(' ');
        assert(text[i] == ' ');
    }
}

/// The characters of a text, in order.
pub fn chars_of(text: &str) -> (chars: Vec<char>)
    ensures
        chars@ == text@,
{
    let mut chars: Vec<char> = Vec::new();
    for c in it: text.chars()
        invariant
            it.seq() == text@,
            chars@ == text@.take(it.index()),
    {
        assert(text@.take(it.index() + 1) =~= text@.take(it.index()).push(c));
        chars.push(c);
    }
    assert(text@.take(text@.len() as int) =~= text@);
    chars
}

/// Whether two texts are the same.
pub fn same_text(a: &str, b: &str) -> (same: bool)
    ensures
        same == (a@ == b@),
{
    let left = chars_of(a);
    let right = chars_of(b);
    if left.len() != right.len() {
        return false;
    }
    for i in 0..left.len()
        invariant
            left@ == a@,
            right@ == b@,
            left.len() == right.len(),
            forall|j: int| 0 <= j < i ==> left@[j] == right@[j],
    {
        if left[i] != right[i] {
            assert(a@[i as int] != b@[i as int]);
            return false;
        }
    }
    assert(a@ =~= b@);
    true
}

/// Whether a text begins with `prefix`.
pub fn starts_with(text: &str, prefix: &str) -> (starts: bool)
    ensures
        starts == prefix@.is_prefix_of(text@),
{
    let whole = chars_of(text);
    let head = chars_of(prefix);
    if whole.len() < head.len() {
        return false;
    }
    for i in 0..head.len()
        invariant
            whole@ == text@,
            head@ == prefix@,
            head.len() <= whole.len(),
            forall|j: int| 0 <= j < i ==> head@[j] == whole@[j],
    {
        if head[i] != whole[i] {
            assert(text@.subrange(0, prefix@.len() as int)[i as int] != prefix@[i as int]);
            return false;
        }
    }
    assert(text@.subrange(0, prefix@.len() as int) =~= prefix@);
    true
}

/// Whether a character occurs in a text.
pub fn contains_char(text: &str, c: char) -> (found: bool)
    ensures
        found == text@.contains(c),
{
    let chars = chars_of(text);
    for i in 0..chars.len()
        invariant
            chars@ == text@,
            forall|j: int| 0 <= j < i ==> chars@[j] != c,
    {
        if chars[i] == c {
            assert(text@[i as int] == c);
            return true;
        }
    }
    false
}

/// The position that `index_from` names.
pub fn find_char(chars: &Vec<char>, c: char, from: usize) -> (index: usize)
    requires
        from <= chars.len(),
    ensures
        index == index_from(chars@, c, from as int),
        from <= index <= chars.len(),
{
    let mut i: usize = from;
    while i < chars.len() && chars[i] != c
        invariant
            from <= i <= chars.len(),
            index_from(chars@, c, from as int) == index_from(chars@, c, i as int),
        decreases chars.len() - i,
    {
        i = i + 1;
    }
    i
}

/// The second of the pieces into which single spaces split a text, if there is one.
pub fn word_after_space(text: &str) -> (word: Option<String>)
    ensures
        word is Some <==> second_word(text@) is Some,
        word is Some ==> word->0@ == second_word(text@)->0,
{
    let chars = chars_of(text);
    let first = find_char(&chars, ' ', 0);
    if first == chars.len() {
        return None;
    }
    let end = find_char(&chars, ' ', first + 1);
    Some(text.substring_char(first + 1, end).to_owned())
}

/// A number in decimal.
pub fn decimal_text(n: usize) -> (text: String)
    ensures
        text@ == decimal(n as nat),
    decreases n,
{
    if n < 10 {
        digit_text(n).to_owned()
    } else {
        let mut text = decimal_text(n / 10);
        text.append(digit_text(n % 10));
        assert(text@ =~= decimal(n as nat));
        text
    }
}

/// The decimal digit with the given value.
fn digit_text(value: usize) -> (text: &'static str)
    requires
        value < 10,
    ensures
        text@ == seq![digit_char(value as nat)],
{
    proof {
        reveal_strlit("0");
        reveal_strlit("1");
        reveal_strlit("2");
        reveal_strlit("3");
        reveal_strlit("4");
        reveal_strlit("5");
        reveal_strlit("6");
        reveal_strlit("7");
        reveal_strlit("8");
        reveal_strlit("9");
    }
    match value {
        0 => "0",
        1 => "1",
        2 => "2",
        3 => "3",
        4 => "4",
        5 => "5",
        6 => "6",
        7 => "7",
        8 => "8",
        _ => "9",
    }
}

} // verus!
