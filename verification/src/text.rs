//! Building and taking apart text.
use vstd::prelude::*;

verus! {

/// `String::push` appends one character to the end of the text.
pub assume_specification[ String::push ](text: &mut String, c: char)
    ensures
        final(text)@ == old(text)@.push(c),
;

/// `String::push_str` appends the whole of `other` to the end of the text.
pub assume_specification[ String::push_str ](text: &mut String, other: &str)
    ensures
        final(text)@ == old(text)@ + other@,
;

/// The text inside an optional string.
pub open spec fn optional_text(text: Option<String>) -> Option<Seq<char>> {
    match text {
        Some(inner) => Some(inner@),
        None => None,
    }
}

/// A copy of an optional string.
pub fn copy_optional(text: &Option<String>) -> (copy: Option<String>)
    ensures
        optional_text(copy) == optional_text(*text),
{
    match text {
        Some(inner) => Some(inner.clone()),
        None => None,
    }
}

/// A one-character string.
pub fn char_text(c: char) -> (text: String)
    ensures
        text@ == seq![c],
{
    let mut text = String::new();
    text.push(c);
    proof {
        assert(text@ =~= seq![c]);
    }
    text
}

/// An owned copy of a text.
pub fn owned(text: &str) -> (copy: String)
    ensures
        copy@ == text@,
{
    let mut copy = String::new();
    copy.push_str(text);
    proof {
        assert(copy@ =~= text@);
    }
    copy
}

/// One text after another.
pub fn joined(first: &str, second: &str) -> (text: String)
    ensures
        text@ == first@ + second@,
{
    let mut text = owned(first);
    text.push_str(second);
    text
}

/// A decimal digit.
pub open spec fn digit(value: nat) -> char {
    (48 + value) as u8 as char
}

/// A number in decimal, without leading zeros.
pub open spec fn decimal(value: nat) -> Seq<char>
    decreases value,
{
    if value < 10 {
        seq![digit(value)]
    } else {
        decimal(value / 10).push(digit(value % 10))
    }
}

/// A number in decimal.
pub fn decimal_text(value: u64) -> (text: String)
    ensures
        text@ == decimal(value as nat),
    decreases value,
{
    if value < 10 {
        char_text((48 + value as u8) as char)
    } else {
        let mut text = decimal_text(value / 10);
        text.push((48 + (value % 10) as u8) as char);
        text
    }
}

/// The characters of a text.
pub fn chars_of(text: &str) -> (chars: Vec<char>)
    ensures
        chars@ == text@,
{
    let mut chars: Vec<char> = Vec::new();
    for c in iter: text.chars()
        invariant
            chars@ == iter.seq().take(iter.index@),
            iter.seq() == text@,
    {
        chars.push(c);
    }
    proof {
        assert(chars@ =~= text@);
    }
    chars
}

/// Whether a list of characters spells a text.
pub fn spells(chars: &Vec<char>, text: &str) -> (same: bool)
    ensures
        same == (chars@ == text@),
{
    let wanted = chars_of(text);
    if chars.len() != wanted.len() {
        return false;
    }
    let mut i: usize = 0;
    while i < chars.len()
        invariant
            i <= chars@.len() == wanted@.len(),
            wanted@ == text@,
            forall|j: int| 0 <= j < i ==> chars@[j] == wanted@[j],
        decreases chars@.len() - i,
    {
        if chars[i] != wanted[i] {
            proof {
                assert(chars@[i as int] != text@[i as int]);
            }
            return false;
        }
        i = i + 1;
    }
    proof {
        assert(chars@ =~= text@);
    }
    true
}

/// The Unicode white space characters.
pub open spec fn white_space(c: char) -> bool {
    let code = c as u32;
    ||| 0x09 <= code <= 0x0d
    ||| code == 0x20
    ||| code == 0x85
    ||| code == 0xa0
    ||| code == 0x1680
    ||| 0x2000 <= code <= 0x200a
    ||| code == 0x2028
    ||| code == 0x2029
    ||| code == 0x202f
    ||| code == 0x205f
    ||| code == 0x3000
}

/// Whether a character is white space.
pub fn is_white_space(c: char) -> (space: bool)
    ensures
        space == white_space(c),
{
    let code: u32 = c as u32;
    (0x09 <= code && code <= 0x0d) || code == 0x20 || code == 0x85 || code == 0xa0 || code == 0x1680 || (0x2000 <= code
        && code <= 0x200a) || code == 0x2028 || code == 0x2029 || code == 0x202f || code == 0x205f || code == 0x3000
}

/// A text without its leading white space.
pub open spec fn after_spaces(text: Seq<char>) -> Seq<char>
    decreases text.len(),
{
    if text.len() > 0 && white_space(text[0]) {
        after_spaces(text.skip(1))
    } else {
        text
    }
}

/// The characters of a text up to the first white space.
pub open spec fn first_word(text: Seq<char>) -> Seq<char>
    decreases text.len(),
{
    if text.len() == 0 || white_space(text[0]) {
        Seq::empty()
    } else {
        seq![text[0]] + first_word(text.skip(1))
    }
}

/// What follows the first word of a text.
pub open spec fn after_word(text: Seq<char>) -> Seq<char> {
    text.skip(first_word(text).len() as int)
}

/// The characters of a text up to a character, or all of them.
pub open spec fn up_to(text: Seq<char>, end: char) -> Seq<char>
    decreases text.len(),
{
    if text.len() == 0 || text[0] == end {
        Seq::empty()
    } else {
        seq![text[0]] + up_to(text.skip(1), end)
    }
}

/// The position after the white space at `from`.
pub fn skip_spaces(chars: &Vec<char>, from: usize) -> (position: usize)
    requires
        from <= chars@.len(),
    ensures
        from <= position <= chars@.len(),
        chars@.skip(position as int) == after_spaces(chars@.skip(from as int)),
{
    let mut i: usize = from;
    while i < chars.len() && is_white_space(chars[i])
        invariant
            from <= i <= chars@.len(),
            after_spaces(chars@.skip(i as int)) == after_spaces(chars@.skip(from as int)),
        decreases chars@.len() - i,
    {
        proof {
            assert(chars@.skip(i as int).skip(1) =~= chars@.skip(i + 1));
        }
        i = i + 1;
    }
    i
}

/// The word at `from`.
pub fn word_at(chars: &Vec<char>, from: usize) -> (word: Vec<char>)
    requires
        from <= chars@.len(),
    ensures
        word@ == first_word(chars@.skip(from as int)),
        from + word@.len() <= chars@.len(),
{
    let mut word: Vec<char> = Vec::new();
    let mut i: usize = from;
    proof {
        assert(Seq::<char>::empty() + first_word(chars@.skip(from as int)) =~= first_word(chars@.skip(from as int)));
    }
    while i < chars.len() && !is_white_space(chars[i])
        invariant
            from <= i <= chars@.len(),
            word@.len() == i - from,
            word@ + first_word(chars@.skip(i as int)) == first_word(chars@.skip(from as int)),
        decreases chars@.len() - i,
    {
        proof {
            let rest = chars@.skip(i as int);
            assert(rest.skip(1) =~= chars@.skip(i + 1));
            assert(word@.push(chars@[i as int]) + first_word(chars@.skip(i + 1)) =~= word@ + (seq![rest[0]]
                + first_word(rest.skip(1))));
        }
        word.push(chars[i]);
        i = i + 1;
    }
    proof {
        assert(word@ + Seq::<char>::empty() =~= word@);
    }
    word
}

/// The characters before `end`, or all of them.
pub fn before_char(chars: &Vec<char>, end: char) -> (head: Vec<char>)
    ensures
        head@ == up_to(chars@, end),
{
    let mut head: Vec<char> = Vec::new();
    let mut i: usize = 0;
    proof {
        assert(chars@.skip(0) =~= chars@);
        assert(Seq::<char>::empty() + up_to(chars@, end) =~= up_to(chars@, end));
    }
    while i < chars.len() && chars[i] != end
        invariant
            i <= chars@.len(),
            head@ + up_to(chars@.skip(i as int), end) == up_to(chars@, end),
        decreases chars@.len() - i,
    {
        proof {
            let rest = chars@.skip(i as int);
            assert(rest.skip(1) =~= chars@.skip(i + 1));
            assert(head@.push(chars@[i as int]) + up_to(chars@.skip(i + 1), end) =~= head@ + (seq![rest[0]] + up_to(
                rest.skip(1),
                end,
            )));
        }
        head.push(chars[i]);
        i = i + 1;
    }
    proof {
        assert(head@ + Seq::<char>::empty() =~= head@);
    }
    head
}

/// A text without its trailing white space.
pub open spec fn before_spaces(text: Seq<char>) -> Seq<char>
    decreases text.len(),
{
    if text.len() > 0 && white_space(text.last()) {
        before_spaces(text.drop_last())
    } else {
        text
    }
}

/// A text without white space at either end.
pub open spec fn trimmed(text: Seq<char>) -> Seq<char> {
    before_spaces(after_spaces(text))
}

/// The characters of a text without white space at either end.
pub fn trimmed_chars(text: &str) -> (chars: Vec<char>)
    ensures
        chars@ == trimmed(text@),
{
    let all = chars_of(text);
    proof {
        assert(all@.skip(0) =~= all@);
    }
    let start: usize = skip_spaces(&all, 0);
    let mut end: usize = all.len();
    let ghost rest = all@.skip(start as int);
    proof {
        assert(rest =~= all@.subrange(start as int, end as int));
    }
    while end > start && is_white_space(all[end - 1])
        invariant
            start <= end <= all@.len(),
            rest == all@.skip(start as int),
            before_spaces(all@.subrange(start as int, end as int)) == before_spaces(rest),
        decreases end,
    {
        proof {
            let part = all@.subrange(start as int, end as int);
            assert(part.last() == all@[end - 1]);
            assert(part.drop_last() =~= all@.subrange(start as int, end - 1));
        }
        end = end - 1;
    }
    let mut chars: Vec<char> = Vec::new();
    let mut i: usize = start;
    while i < end
        invariant
            start <= i <= end <= all@.len(),
            chars@ =~= all@.subrange(start as int, i as int),
        decreases end - i,
    {
        chars.push(all[i]);
        i = i + 1;
    }
    proof {
        let part = all@.subrange(start as int, end as int);
        if end > start {
            assert(part.last() == all@[end - 1]);
        }
    }
    chars
}

/// A list of characters as a string.
pub fn text_of(chars: &Vec<char>) -> (text: String)
    ensures
        text@ == chars@,
{
    let mut text = String::new();
    let mut i: usize = 0;
    while i < chars.len()
        invariant
            i <= chars@.len(),
            text@ =~= chars@.take(i as int),
        decreases chars@.len() - i,
    {
        text.push(chars[i]);
        i = i + 1;
    }
    proof {
        assert(chars@.take(i as int) =~= chars@);
    }
    text
}

/// A character with an ASCII capital made small.
pub open spec fn ascii_lower(c: char) -> char {
    if 'A' <= c <= 'Z' {
        ((c as u8) + 32) as u8 as char
    } else {
        c
    }
}

/// A text with ASCII capitals made small.
pub open spec fn ascii_lowered(text: Seq<char>) -> Seq<char> {
    Seq::new(text.len(), |i: int| ascii_lower(text[i]))
}

/// A character with an ASCII capital made small.
pub fn lower_char(c: char) -> (lower: char)
    ensures
        lower == ascii_lower(c),
{
    if 'A' <= c && c <= 'Z' {
        ((c as u8) + 32) as char
    } else {
        c
    }
}

/// A list of characters with ASCII capitals made small.
pub fn lowered(chars: &Vec<char>) -> (lower: Vec<char>)
    ensures
        lower@ == ascii_lowered(chars@),
{
    let mut lower: Vec<char> = Vec::new();
    let mut i: usize = 0;
    while i < chars.len()
        invariant
            i <= chars@.len(),
            lower@ =~= ascii_lowered(chars@).take(i as int),
        decreases chars@.len() - i,
    {
        lower.push(lower_char(chars[i]));
        i = i + 1;
    }
    proof {
        assert(ascii_lowered(chars@).take(i as int) =~= ascii_lowered(chars@));
    }
    lower
}

/// The number that a text of decimal digits stands for.
pub open spec fn decimal_value(text: Seq<char>) -> int
    decreases text.len(),
{
    if text.len() == 0 {
        0
    } else {
        decimal_value(text.drop_last()) * 10 + (text.last() as int - '0' as int)
    }
}

/// A number in decimal reads back as that number, in digits only, and without a zero in front of others.
pub proof fn law_decimal_reads_back(value: nat)
    ensures
        decimal_value(decimal(value)) == value,
        decimal(value).len() > 0,
        forall|i: int| 0 <= i < decimal(value).len() ==> '0' <= #[trigger] decimal(value)[i] <= '9',
        decimal(value).len() > 1 ==> decimal(value)[0] != '0',
    decreases value,
{
    reveal_with_fuel(decimal_value, 2);
    if value < 10 {
        assert(decimal(value).drop_last() =~= Seq::empty());
    } else {
        law_decimal_reads_back(value / 10);
        let head = decimal(value / 10);
        assert(decimal(value).drop_last() =~= head);
        assert(decimal(value)[0] == head[0]);
        if head.len() == 1 {
            assert(head.drop_last() =~= Seq::empty());
            assert(decimal_value(head) == head[0] as int - '0' as int);
        }
    }
}

/// A trimmed text is what is left between the white space at its ends: it neither begins nor ends with any, and
/// only white space is gone.
pub proof fn law_trimming_takes_white_space_only(text: Seq<char>) -> (cut: (int, int))
    ensures
        0 <= cut.0 <= cut.1 <= text.len(),
        trimmed(text) == text.subrange(cut.0, cut.1),
        forall|i: int| 0 <= i < cut.0 || cut.1 <= i < text.len() ==> white_space(#[trigger] text[i]),
        trimmed(text).len() > 0 ==> !white_space(trimmed(text)[0]) && !white_space(trimmed(text).last()),
{
    let start = lemma_after_spaces(text);
    let rest = after_spaces(text);
    let end = lemma_before_spaces(rest);
    assert(trimmed(text) =~= text.subrange(start, start + end));
    assert forall|i: int| 0 <= i < start || start + end <= i < text.len() implies white_space(#[trigger] text[i]) by {
        if i >= start + end {
            assert(rest[i - start] == text[i]);
        }
    }
    if trimmed(text).len() > 0 {
        assert(trimmed(text)[0] == rest[0]);
    }
    (start, start + end)
}

/// What follows the white space in front of a text.
proof fn lemma_after_spaces(text: Seq<char>) -> (start: int)
    ensures
        0 <= start <= text.len(),
        after_spaces(text) == text.skip(start),
        forall|i: int| 0 <= i < start ==> white_space(#[trigger] text[i]),
        start < text.len() ==> !white_space(text[start]),
    decreases text.len(),
{
    if text.len() > 0 && white_space(text[0]) {
        let start = lemma_after_spaces(text.skip(1));
        assert(text.skip(1).skip(start) =~= text.skip(start + 1));
        assert forall|i: int| 0 <= i < start + 1 implies white_space(#[trigger] text[i]) by {
            if i > 0 {
                assert(text.skip(1)[i - 1] == text[i]);
            }
        }
        if start + 1 < text.len() {
            assert(text.skip(1)[start] == text[start + 1]);
        }
        start + 1
    } else {
        assert(text.skip(0) =~= text);
        0
    }
}

/// What precedes the white space at the end of a text.
proof fn lemma_before_spaces(text: Seq<char>) -> (end: int)
    ensures
        0 <= end <= text.len(),
        before_spaces(text) == text.take(end),
        forall|i: int| end <= i < text.len() ==> white_space(#[trigger] text[i]),
        end > 0 ==> !white_space(text[end - 1]),
    decreases text.len(),
{
    if text.len() > 0 && white_space(text.last()) {
        let end = lemma_before_spaces(text.drop_last());
        assert(text.drop_last().take(end) =~= text.take(end));
        assert forall|i: int| end <= i < text.len() implies white_space(#[trigger] text[i]) by {
            if i < text.len() - 1 {
                assert(text.drop_last()[i] == text[i]);
            }
        }
        if end > 0 {
            assert(text.drop_last()[end - 1] == text[end - 1]);
        }
        end
    } else {
        assert(text.take(text.len() as int) =~= text);
        text.len() as int
    }
}

/// The first word of a text is its longest beginning without white space.
pub proof fn law_word_ends_at_white_space(text: Seq<char>)
    ensures
        first_word(text).len() <= text.len(),
        first_word(text) == text.take(first_word(text).len() as int),
        forall|i: int| 0 <= i < first_word(text).len() ==> !white_space(#[trigger] text[i]),
        first_word(text).len() < text.len() ==> white_space(text[first_word(text).len() as int]),
    decreases text.len(),
{
    if text.len() > 0 && !white_space(text[0]) {
        let rest = text.skip(1);
        law_word_ends_at_white_space(rest);
        let size = first_word(rest).len() as int;
        assert(first_word(text) =~= text.take(size + 1));
        assert forall|i: int| 0 <= i < first_word(text).len() implies !white_space(#[trigger] text[i]) by {
            if i > 0 {
                assert(rest[i - 1] == text[i]);
            }
        }
        if size + 1 < text.len() {
            assert(rest[size] == text[size + 1]);
        }
    } else {
        assert(text.take(0) =~= Seq::empty());
    }
}

/// A text up to a character is its longest beginning without it.
pub proof fn law_up_to_stops_at_the_character(text: Seq<char>, end: char)
    ensures
        up_to(text, end).len() <= text.len(),
        up_to(text, end) == text.take(up_to(text, end).len() as int),
        forall|i: int| 0 <= i < up_to(text, end).len() ==> #[trigger] text[i] != end,
        up_to(text, end).len() < text.len() ==> text[up_to(text, end).len() as int] == end,
    decreases text.len(),
{
    if text.len() > 0 && text[0] != end {
        let rest = text.skip(1);
        law_up_to_stops_at_the_character(rest, end);
        let size = up_to(rest, end).len() as int;
        assert(up_to(text, end) =~= text.take(size + 1));
        assert forall|i: int| 0 <= i < up_to(text, end).len() implies #[trigger] text[i] != end by {
            if i > 0 {
                assert(rest[i - 1] == text[i]);
            }
        }
        if size + 1 < text.len() {
            assert(rest[size] == text[size + 1]);
        }
    } else {
        assert(text.take(0) =~= Seq::empty());
    }
}

/// Making a text small changes its ASCII capitals to the letters 32 places on, and nothing else; and once is
/// enough.
pub proof fn law_small_letters(text: Seq<char>, i: int)
    requires
        0 <= i < text.len(),
    ensures
        ascii_lowered(text).len() == text.len(),
        'A' <= text[i] <= 'Z' ==> ascii_lowered(text)[i] as int == text[i] as int + 32,
        !('A' <= text[i] <= 'Z') ==> ascii_lowered(text)[i] == text[i],
        ascii_lowered(ascii_lowered(text)) == ascii_lowered(text),
{
    assert(ascii_lowered(ascii_lowered(text)) =~= ascii_lowered(text));
}

} // verus!
