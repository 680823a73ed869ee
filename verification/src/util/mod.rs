use vstd::prelude::*;
use vstd::string::*;

verus! {

/// A text as the sequence of its characters.
pub type Text = Seq<char>;

/// Whether a character is white space: the characters that Unicode gives
/// the property White_Space, line breaks among them.
pub open spec fn is_white_space(c: char) -> bool {
    let n = c as u32;
    ||| 0x09 <= n <= 0x0D
    ||| n == 0x20
    ||| n == 0x85
    ||| n == 0xA0
    ||| n == 0x1680
    ||| 0x2000 <= n <= 0x200A
    ||| n == 0x2028
    ||| n == 0x2029
    ||| n == 0x202F
    ||| n == 0x205F
    ||| n == 0x3000
}

/// A text without the white space at its end.
pub open spec fn trimmed_end(s: Text) -> Text
    decreases s.len(),
{
    if s.len() > 0 && is_white_space(s.last()) {
        trimmed_end(s.drop_last())
    } else {
        s
    }
}

/// A text without the white space at its start.
pub open spec fn trimmed_start(s: Text) -> Text
    decreases s.len(),
{
    if s.len() > 0 && is_white_space(s[0]) {
        trimmed_start(s.drop_first())
    } else {
        s
    }
}

/// A text without the white space at either end.
pub open spec fn trimmed(s: Text) -> Text {
    trimmed_end(trimmed_start(s))
}

/// Whether the first line of `s` ends just before position `i`: no line
/// feed comes before `i`, and at `i` stands a line feed or the end.
pub open spec fn is_line_end(s: Text, i: int) -> bool {
    &&& 0 <= i <= s.len()
    &&& forall|j: int| 0 <= j < i ==> s[j] != '\n'
    &&& (i == s.len() || s[i] == '\n')
}

/// The first line of a text, without its line feed and without the
/// carriage return that may stand before the line feed. An empty text has
/// no line.
pub open spec fn first_line(s: Text) -> Option<Text> {
    if s.len() == 0 {
        None
    } else {
        let end = choose|i: int| is_line_end(s, i);
        let line = s.subrange(0, end);
        if end < s.len() && line.len() > 0 && line.last() == '\r' {
            Some(line.drop_last())
        } else {
            Some(line)
        }
    }
}

/// The texts one after another, with nothing between them.
pub open spec fn concatenated(lines: Seq<Text>) -> Text
    decreases lines.len(),
{
    if lines.len() == 0 {
        Seq::empty()
    } else {
        concatenated(lines.drop_last()) + lines.last()
    }
}

/// The texts one after another, with `separator` between each two.
pub open spec fn joined(items: Seq<Text>, separator: Text) -> Text
    decreases items.len(),
{
    if items.len() == 0 {
        Seq::empty()
    } else if items.len() == 1 {
        items[0]
    } else {
        joined(items.drop_last(), separator) + separator + items.last()
    }
}

/// The label that a prompt for `name` shows.
pub open spec fn prompt_label(name: Text) -> Text {
    name + ":"@
}

/// The complaint about an empty answer to the prompt for `name`.
pub open spec fn empty_answer(name: Text) -> Text {
    name + " must be non-empty"@
}

/// Copies a list of strings.
pub fn clone_strings(v: &[String]) -> (r: Vec<String>)
    ensures
        r.deep_view() == v.deep_view(),
{
    let mut r: Vec<String> = Vec::new();
    let mut i: usize = 0;
    while i < v.len()
        invariant
            i <= v.len(),
            r.len() == i,
            forall|j: int| 0 <= j < i ==> r[j]@ == v[j]@,
        decreases v.len() - i,
    {
        r.push(v[i].clone());
        i += 1;
    }
    assert(r.deep_view() =~= v.deep_view());
    r
}

/// Tells whether a character is white space.
pub fn is_white_space_char(c: char) -> (r: bool)
    ensures
        r == is_white_space(c),
{
    let n: u32 = c as u32;
    (0x09 <= n && n <= 0x0D) || n == 0x20 || n == 0x85 || n == 0xA0 || n == 0x1680 || (0x2000 <= n
        && n <= 0x200A) || n == 0x2028 || n == 0x2029 || n == 0x202F || n == 0x205F || n == 0x3000
}

/// Removes the white space at the end of a text.
pub fn trim_end(s: &str) -> (r: String)
    ensures
        r@ == trimmed_end(s@),
{
    let mut end: usize = s.unicode_len();
    assert(s@.subrange(0, end as int) =~= s@);
    while end > 0 && is_white_space_char(s.get_char(end - 1))
        invariant
            end <= s@.len(),
            trimmed_end(s@) == trimmed_end(s@.subrange(0, end as int)),
        decreases end,
    {
        assert(s@.subrange(0, end as int).drop_last() =~= s@.subrange(0, end - 1));
        end -= 1;
    }
    s.substring_char(0, end).to_string()
}

/// Removes the white space at both ends of a text.
pub fn trim(s: &str) -> (r: String)
    ensures
        r@ == trimmed(s@),
{
    let len: usize = s.unicode_len();
    let mut start: usize = 0;
    assert(s@.subrange(0, len as int) =~= s@);
    while start < len && is_white_space_char(s.get_char(start))
        invariant
            len == s@.len(),
            start <= len,
            trimmed_start(s@) == trimmed_start(s@.subrange(start as int, len as int)),
        decreases len - start,
    {
        assert(s@.subrange(start as int, len as int).drop_first() =~= s@.subrange(
            start + 1,
            len as int,
        ));
        start += 1;
    }
    trim_end(s.substring_char(start, len))
}

/// The first line of the contents of a file, as a reader that yields the
/// file line by line gives it; none when the file is empty.
pub fn read_first_line(contents: &str) -> (r: Option<String>)
    ensures
        r.deep_view() == first_line(contents@),
{
    let len: usize = contents.unicode_len();
    if len == 0 {
        return None;
    }
    let mut end: usize = 0;
    while end < len && contents.get_char(end) != '\n'
        invariant
            len == contents@.len(),
            end <= len,
            forall|j: int| 0 <= j < end ==> contents@[j] != '\n',
        decreases len - end,
    {
        end += 1;
    }
    proof {
        assert(is_line_end(contents@, end as int));
        assert forall|k: int| is_line_end(contents@, k) implies k == end by {
            if k < end {
                assert(contents@[k] == '\n');
            } else if k > end {
                assert(contents@[end as int] != '\n');
            }
        }
    }
    if end < len && end > 0 && contents.get_char(end - 1) == '\r' {
        assert(contents@.subrange(0, end as int).drop_last() =~= contents@.subrange(0, end - 1));
        Some(contents.substring_char(0, end - 1).to_string())
    } else {
        Some(contents.substring_char(0, end).to_string())
    }
}

/// The line that the operator typed, without the white space at its end.
pub fn prompt_stdin_line(input: &str) -> (r: String)
    ensures
        r@ == trimmed_end(input@),
{
    trim_end(input)
}

/// The label to show when asking the operator for `name`.
pub fn prompt_for(name: &str) -> (r: String)
    ensures
        r@ == prompt_label(name@),
{
    name.to_string().concat(":")
}

/// The operator's answer to the prompt for `name`, which must not be
/// empty: the answer without the white space at its end, or the complaint
/// to show when nothing is left of it.
pub fn prompt_non_empty_str(name: &str, input: &str) -> (r: Result<String, String>)
    ensures
        match r {
            Ok(line) => line@ == trimmed_end(input@) && line@.len() > 0,
            Err(complaint) => trimmed_end(input@).len() == 0 && complaint@ == empty_answer(name@),
        },
{
    let line = prompt_stdin_line(input);
    if line.as_str().unicode_len() == 0 {
        Err(name.to_string().concat(" must be non-empty"))
    } else {
        Ok(line)
    }
}

/// The contents of a file to which each of `lines` is written in turn,
/// with nothing added between them.
pub fn write_lines(lines: &[String]) -> (r: String)
    ensures
        r@ == concatenated(lines.deep_view()),
{
    let mut text = String::new();
    let mut i: usize = 0;
    while i < lines.len()
        invariant
            i <= lines.len(),
            text@ == concatenated(lines.deep_view().subrange(0, i as int)),
        decreases lines.len() - i,
    {
        assert(lines.deep_view().subrange(0, i + 1).drop_last() =~= lines.deep_view().subrange(
            0,
            i as int,
        ));
        text.append(lines[i].as_str());
        i += 1;
    }
    assert(lines.deep_view().subrange(0, lines.len() as int) =~= lines.deep_view());
    text
}

/// The items in one text, with `separator` between each two.
pub fn join(items: &[String], separator: &str) -> (r: String)
    ensures
        r@ == joined(items.deep_view(), separator@),
{
    let mut text = String::new();
    let mut i: usize = 0;
    while i < items.len()
        invariant
            i <= items.len(),
            text@ == joined(items.deep_view().subrange(0, i as int), separator@),
        decreases items.len() - i,
    {
        assert(items.deep_view().subrange(0, i + 1).drop_last() =~= items.deep_view().subrange(
            0,
            i as int,
        ));
        if i > 0 {
            text.append(separator);
        }
        text.append(items[i].as_str());
        i += 1;
    }
    assert(items.deep_view().subrange(0, items.len() as int) =~= items.deep_view());
    text
}

} // verus!
