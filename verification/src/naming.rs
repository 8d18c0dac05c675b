use vstd::prelude::*;
use crate::text::push_char;

verus! {

/// Whether a character has the Unicode `Uppercase` property.
pub uninterp spec fn is_uppercase_char(c: char) -> bool;

/// The Unicode lowercase mapping of a character.
pub uninterp spec fn lowercase_of(c: char) -> Seq<char>;

/// An ASCII character.
pub open spec fn is_ascii_char(c: char) -> bool {
    (c as u32) < 128
}

/// An ASCII uppercase letter, `A` to `Z`.
pub open spec fn is_ascii_upper(c: char) -> bool {
    65 <= (c as u32) <= 90
}

/// The ASCII lowercase of a character: `A` to `Z` become `a` to `z`, any
/// other character stays.
pub open spec fn ascii_lower(c: char) -> char {
    if is_ascii_upper(c) {
        ((c as u32) + 32) as char
    } else {
        c
    }
}

/// `char::is_uppercase`: whether `c` has the Unicode `Uppercase` property,
/// taken as [`is_uppercase_char`] of `c`. Among ASCII characters the
/// property belongs to `A` to `Z` alone (Unicode's character data, which
/// std's documentation refers to).
#[verifier::external_body]
fn char_is_uppercase(c: char) -> (r: bool)
    ensures
        r == is_uppercase_char(c),
        is_ascii_char(c) ==> (r <==> is_ascii_upper(c)),
{
    c.is_uppercase()
}

/// `char::to_lowercase`: the lowercase mapping of `c`, taken as
/// [`lowercase_of`] of `c`; its documentation promises one or more
/// characters, and the character itself where there is no mapping. Of an
/// ASCII character the mapping is its ASCII lowercase (Unicode's character
/// data, which std's documentation refers to).
#[verifier::external_body]
fn char_to_lowercase(c: char) -> (r: String)
    ensures
        r@ == lowercase_of(c),
        r@.len() >= 1,
        is_ascii_char(c) ==> r@ == seq![ascii_lower(c)],
{
    c.to_lowercase().collect()
}

/// What the character at `i` becomes in snake case: an `_` before an
/// uppercase character that is not the first, then its lowercase mapping.
pub open spec fn snake_piece(s: Seq<char>, i: int) -> Seq<char> {
    (if is_uppercase_char(s[i]) && i > 0 {
        seq!['_']
    } else {
        seq![]
    }) + lowercase_of(s[i])
}

/// `s` in snake case: each character turned as [`snake_piece`] says, in order.
pub open spec fn snake_case(s: Seq<char>) -> Seq<char>
    decreases s.len(),
{
    if s.len() == 0 {
        seq![]
    } else {
        snake_case(s.drop_last()) + snake_piece(s, s.len() - 1)
    }
}

/// All characters of `s` are ASCII.
pub open spec fn is_ascii_text(s: Seq<char>) -> bool {
    forall|i: int| 0 <= i < s.len() ==> is_ascii_char(#[trigger] s[i])
}

/// Snake case of an ASCII text: an `_` before each uppercase letter but the
/// first character, and every letter in lowercase.
pub open spec fn ascii_snake_case(s: Seq<char>) -> Seq<char>
    decreases s.len(),
{
    if s.len() == 0 {
        seq![]
    } else {
        let i = s.len() - 1;
        ascii_snake_case(s.drop_last()) + (if is_ascii_upper(s[i]) && i > 0 {
            seq!['_']
        } else {
            seq![]
        }) + seq![ascii_lower(s[i])]
    }
}

/// `MessageLog` becomes `message_log`.
pub fn to_snake_case(s: &str) -> (r: String)
    ensures
        r@ == snake_case(s@),
        is_ascii_text(s@) ==> r@ == ascii_snake_case(s@),
{
    let mut out = String::new();
    let n = s.unicode_len();
    let mut i: usize = 0;
    while i < n
        invariant
            n == s@.len(),
            i <= n,
            out@ == snake_case(s@.take(i as int)),
            is_ascii_text(s@) ==> out@ == ascii_snake_case(s@.take(i as int)),
        decreases n - i,
    {
        let c = s.get_char(i);
        proof {
            let t = s@.take(i + 1);
            assert(t.drop_last() =~= s@.take(i as int));
            assert(t[i as int] == c);
            if is_ascii_text(s@) {
                assert(is_ascii_char(s@[i as int]));
            }
        }
        if char_is_uppercase(c) && i > 0 {
            push_char(&mut out, '_');
        }
        let lower = char_to_lowercase(c);
        out.append(lower.as_str());
        proof {
            let t = s@.take(i + 1);
            if is_ascii_text(s@) {
                assert(ascii_snake_case(t) =~= ascii_snake_case(t.drop_last()) + (if is_ascii_upper(c) && i > 0 {
                    seq!['_']
                } else {
                    seq![]
                }) + seq![ascii_lower(c)]);
            }
            assert(snake_piece(t, i as int) =~= (if is_uppercase_char(c) && i > 0 {
                seq!['_']
            } else {
                seq![]
            }) + lowercase_of(c));
        }
        i = i + 1;
    }
    assert(s@.take(n as int) =~= s@);
    out
}

/// The table a struct maps to when no name is given: its name in snake case
/// with an `s` appended (`Message` gives `messages`).
pub open spec fn default_table_name_spec(struct_name: Seq<char>) -> Seq<char> {
    snake_case(struct_name).push('s')
}

pub fn default_table_name(struct_name: &str) -> (r: String)
    ensures
        r@ == default_table_name_spec(struct_name@),
        is_ascii_text(struct_name@) ==> r@ == ascii_snake_case(struct_name@).push('s'),
{
    let mut name = to_snake_case(struct_name);
    push_char(&mut name, 's');
    name
}

} // verus!
