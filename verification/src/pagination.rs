//! The cursor that marks a place in a listing of posts.
//!
//! A cursor is the letter `P` followed by the id of a post in hexadecimal.
//! Reading a cursor skips the first character, whatever it is, and takes the
//! rest as a hexadecimal number with an optional sign.

use crate::local_state::{Community, Post};
use vstd::prelude::*;
use vstd::string::*;

verus! {

/// A post with what is shown around it.
#[derive(Clone, Copy, Debug, PartialEq, Eq, Structural)]
pub struct PostView {
    pub post: Post,
    pub community: Community,
}

/// A place in a listing of posts.
#[derive(Clone, Debug, PartialEq, Eq)]
pub struct PostPaginationCursor(pub String);

/// The character of a hexadecimal digit.
pub open spec fn hex_char(digit: nat) -> char {
    if digit == 0 {
        '0'
    } else if digit == 1 {
        '1'
    } else if digit == 2 {
        '2'
    } else if digit == 3 {
        '3'
    } else if digit == 4 {
        '4'
    } else if digit == 5 {
        '5'
    } else if digit == 6 {
        '6'
    } else if digit == 7 {
        '7'
    } else if digit == 8 {
        '8'
    } else if digit == 9 {
        '9'
    } else if digit == 10 {
        'a'
    } else if digit == 11 {
        'b'
    } else if digit == 12 {
        'c'
    } else if digit == 13 {
        'd'
    } else if digit == 14 {
        'e'
    } else {
        'f'
    }
}

/// A number in hexadecimal: lower case, no leading zeros, `0` for zero.
pub open spec fn hex_digits(n: nat) -> Seq<char>
    decreases n,
{
    if n < 16 {
        seq![hex_char(n)]
    } else {
        hex_digits(n / 16).push(hex_char(n % 16))
    }
}

/// The 32 bits of an id, read as a number without sign.
pub open spec fn as_unsigned(id: i32) -> nat {
    if id >= 0 {
        id as nat
    } else {
        (id + 0x1_0000_0000) as nat
    }
}

/// The text of the cursor behind the post with the id.
pub open spec fn cursor_text(id: i32) -> Seq<char> {
    seq!['P'] + hex_digits(as_unsigned(id))
}

/// The value of a hexadecimal digit, in either case.
pub open spec fn hex_value(c: char) -> Option<nat> {
    if '0' <= c <= '9' {
        Some((c as nat - '0' as nat) as nat)
    } else if 'a' <= c <= 'f' {
        Some((c as nat - 'a' as nat + 10) as nat)
    } else if 'A' <= c <= 'F' {
        Some((c as nat - 'A' as nat + 10) as nat)
    } else {
        None
    }
}

/// The value of a run of hexadecimal digits; nothing if one of the
/// characters is no digit.
pub open spec fn digits_value(digits: Seq<char>) -> Option<nat>
    decreases digits.len(),
{
    if digits.len() == 0 {
        Some(0)
    } else {
        match (digits_value(digits.drop_last()), hex_value(digits.last())) {
            (Some(high), Some(low)) => Some(16 * high + low),
            _ => None,
        }
    }
}

/// A hexadecimal number with an optional sign, if it fits in 32 bits.
pub open spec fn signed_hex(text: Seq<char>) -> Option<i32> {
    if text.len() == 0 {
        None
    } else {
        let negative = text[0] == '-';
        let digits = if text[0] == '-' || text[0] == '+' {
            text.skip(1)
        } else {
            text
        };
        if digits.len() == 0 {
            None
        } else {
            match digits_value(digits) {
                None => None,
                Some(value) => if negative {
                    if value <= 0x8000_0000 {
                        Some((-value) as i32)
                    } else {
                        None
                    }
                } else {
                    if value < 0x8000_0000 {
                        Some(value as i32)
                    } else {
                        None
                    }
                },
            }
        }
    }
}

/// The id that a cursor holds: what follows its first character, which has
/// to be a single byte, read as a hexadecimal number.
pub open spec fn cursor_post_id(text: Seq<char>) -> Option<i32> {
    if text.len() == 0 || text[0] > '\u{7f}' {
        None
    } else {
        signed_hex(text.skip(1))
    }
}

/// The hexadecimal digits for the digits given lowest first.
pub open spec fn digits_reversed(lowest_first: Seq<u8>) -> Seq<char> {
    Seq::new(
        lowest_first.len(),
        |i: int| hex_char(lowest_first[lowest_first.len() - 1 - i] as nat),
    )
}

fn digit_text(digit: u8) -> (text: &'static str)
    requires
        digit < 16,
    ensures
        text@ == seq![hex_char(digit as nat)],
{
    proof {
        reveal_strlit("0");
        reveal_strlit("1");
        reveal_strlit("2");
        reveal_strlit("3");
        reveal_strlit("4");
        reveal_strlit("5");
        reveal_strlit("6");
        reveal_strlit("7");
        reveal_strlit("8");
        reveal_strlit("9");
        reveal_strlit("a");
        reveal_strlit("b");
        reveal_strlit("c");
        reveal_strlit("d");
        reveal_strlit("e");
        reveal_strlit("f");
    }
    let text = match digit {
        0 => "0",
        1 => "1",
        2 => "2",
        3 => "3",
        4 => "4",
        5 => "5",
        6 => "6",
        7 => "7",
        8 => "8",
        9 => "9",
        10 => "a",
        11 => "b",
        12 => "c",
        13 => "d",
        14 => "e",
        _ => "f",
    };
    assert(text@ =~= seq![hex_char(digit as nat)]);
    text
}

/// The text of the cursor behind the post with the id.
pub fn cursor_for(id: i32) -> (text: String)
    ensures
        text@ == cursor_text(id),
{
    let n: u32 = if id >= 0 {
        id as u32
    } else {
        (id as i64 + 0x1_0000_0000) as u32
    };
    let mut lowest_first: Vec<u8> = Vec::new();
    lowest_first.push((n % 16) as u8);
    let mut rest: u32 = n / 16;
    assert(hex_digits(n as nat) =~= (if rest > 0 {
        hex_digits(rest as nat)
    } else {
        Seq::<char>::empty()
    }) + digits_reversed(lowest_first@));
    while rest > 0
        invariant
            lowest_first@.len() >= 1,
            forall|i: int| 0 <= i < lowest_first@.len() ==> lowest_first@[i] < 16,
            hex_digits(n as nat) == (if rest > 0 {
                hex_digits(rest as nat)
            } else {
                Seq::<char>::empty()
            }) + digits_reversed(lowest_first@),
        decreases rest,
    {
        let ghost before = lowest_first@;
        let digit: u8 = (rest % 16) as u8;
        lowest_first.push(digit);
        proof {
            let high = if rest / 16 > 0 {
                hex_digits((rest / 16) as nat)
            } else {
                Seq::<char>::empty()
            };
            assert(hex_digits(rest as nat) =~= high + seq![hex_char(digit as nat)]);
            assert(digits_reversed(lowest_first@) =~= seq![hex_char(digit as nat)]
                + digits_reversed(before)) by {
                assert forall|i: int| 0 <= i < lowest_first@.len() implies digits_reversed(
                    lowest_first@,
                )[i] == (seq![hex_char(digit as nat)] + digits_reversed(before))[i] by {
                    if i > 0 {
                        assert(lowest_first@[lowest_first@.len() - 1 - i] == before[before.len()
                            - 1 - (i - 1)]);
                    }
                }
            }
            assert(hex_digits(n as nat) =~= high + digits_reversed(lowest_first@));
        }
        rest = rest / 16;
    }
    let mut text = String::new();
    text.append("P");
    proof {
        reveal_strlit("P");
        assert(text@ =~= seq!['P']);
    }
    let mut left: usize = lowest_first.len();
    while left > 0
        invariant
            left <= lowest_first@.len(),
            forall|i: int| 0 <= i < lowest_first@.len() ==> lowest_first@[i] < 16,
            text@ == seq!['P'] + digits_reversed(lowest_first@).take(lowest_first@.len() - left),
        decreases left,
    {
        let ghost before = text@;
        left = left - 1;
        text.append(digit_text(lowest_first[left]));
        proof {
            let all = digits_reversed(lowest_first@);
            let done = lowest_first@.len() - left;
            assert(all.take(done) =~= all.take(done - 1).push(all[done - 1]));
            assert(text@ =~= seq!['P'] + all.take(done));
        }
    }
    proof {
        let all = digits_reversed(lowest_first@);
        assert(all.take(all.len() as int) =~= all);
    }
    text
}

/// What a character of a cursor stands for as a hexadecimal digit.
fn digit_of(byte: u8) -> (value: Option<u32>)
    requires
        byte <= 0x7f,
    ensures
        match hex_value(byte as char) {
            Some(v) => value == Some(v as u32) && v < 16,
            None => value is None,
        },
{
    if 48 <= byte && byte <= 57 {
        Some((byte - 48) as u32)
    } else if 97 <= byte && byte <= 102 {
        Some((byte - 97 + 10) as u32)
    } else if 65 <= byte && byte <= 70 {
        Some((byte - 65 + 10) as u32)
    } else {
        None
    }
}

/// A run of digits has a value only if all of it is digits, and a longer run
/// has no smaller value.
proof fn lemma_digits_value_prefix(digits: Seq<char>, n: int)
    requires
        0 <= n <= digits.len(),
    ensures
        digits_value(digits.take(n)) is None ==> digits_value(digits) is None,
        digits_value(digits) matches Some(all) ==> digits_value(digits.take(n)) matches Some(part)
            && part <= all,
    decreases digits.len() - n,
{
    if n == digits.len() {
        assert(digits.take(n) =~= digits);
    } else {
        assert(digits.take(n + 1).drop_last() =~= digits.take(n));
        lemma_digits_value_prefix(digits, n + 1);
    }
}

/// A run of digits with a value holds single bytes only.
proof fn lemma_digits_are_ascii(digits: Seq<char>, i: int)
    requires
        digits_value(digits) is Some,
        0 <= i < digits.len(),
    ensures
        hex_value(digits[i]) is Some,
        digits[i] <= '\u{7f}',
    decreases digits.len(),
{
    if i < digits.len() - 1 {
        lemma_digits_are_ascii(digits.drop_last(), i);
    }
}

impl PostPaginationCursor {
    /// The cursor for the page that starts right behind the post.
    pub fn after_post(view: &PostView) -> (cursor: PostPaginationCursor)
        ensures
            cursor.0@ == cursor_text(view.post.id),
    {
        PostPaginationCursor(cursor_for(view.post.id))
    }

    /// The id of the post that the cursor stands behind, if the cursor is
    /// well formed.
    pub fn post_id(&self) -> (id: Option<i32>)
        ensures
            id == cursor_post_id(self.0@),
    {
        broadcast use is_ascii_spec_bytes;

        let text = self.0.as_str();
        if !text.is_ascii() {
            proof {
                let i = choose|i: int|
                    0 <= i < text@.len() && !('\0' <= #[trigger] text@[i] <= '\u{7f}');
                lemma_not_ascii_no_id(text@, i);
            }
            return None;
        }
        let len: usize = text.unicode_len();
        if len == 0 {
            return None;
        }
        let ghost body = text@.skip(1);
        assert(text@[0] <= '\u{7f}');
        assert(cursor_post_id(text@) == signed_hex(body));
        if len == 1 {
            return None;
        }
        let sign: u8 = text.get_ascii(1);
        assert(body[0] == text@[1]);
        assert(text@[1] <= '\u{7f}');
        assert(text@[1] == sign as char);
        let negative = sign == 45;
        let start: usize = if sign == 45 || sign == 43 {
            2
        } else {
            1
        };
        let ghost digits = text@.skip(start as int);
        assert(digits =~= if body[0] == '-' || body[0] == '+' {
            body.skip(1)
        } else {
            body
        });
        assert(negative == (body[0] == '-'));
        if start == len {
            return None;
        }
        assert(digits.len() > 0);
        let mut value: u64 = 0;
        let mut i: usize = start;
        assert(digits.take(0) =~= Seq::<char>::empty());
        while i < len
            invariant
                start <= i <= len,
                len == text@.len(),
                text.is_ascii(),
                digits == text@.skip(start as int),
                digits_value(digits) is None ==> cursor_post_id(self.0@) is None,
                digits_value(digits) matches Some(all) && all > 0x8000_0000 ==> cursor_post_id(
                    self.0@,
                ) is None,
                digits_value(digits.take(i - start)) == Some(value as nat),
                value <= 0x8000_0000,
            decreases len - i,
        {
            let byte: u8 = text.get_ascii(i);
            assert(digits[i - start] == text@[i as int]);
            assert(text@[i as int] <= '\u{7f}');
            assert(text@[i as int] == byte as char);
            assert(digits.take(i - start + 1).drop_last() =~= digits.take(i - start));
            assert(digits.take(i - start + 1).last() == digits[i - start]);
            match digit_of(byte) {
                None => {
                    proof {
                        lemma_digits_value_prefix(digits, i - start + 1);
                    }
                    return None;
                },
                Some(digit) => {
                    let next: u64 = 16 * value + digit as u64;
                    if next > 0x8000_0000 {
                        proof {
                            lemma_digits_value_prefix(digits, i - start + 1);
                        }
                        return None;
                    }
                    value = next;
                },
            }
            i = i + 1;
        }
        assert(digits.take(len - start) =~= digits);
        if negative {
            Some((0 - value as i64) as i32)
        } else if value < 0x8000_0000 {
            Some(value as i32)
        } else {
            None
        }
    }
}

/// No character lies below the first.
proof fn lemma_char_not_negative(c: char)
    ensures
        '\0' <= c,
{
}

/// A text with a character of more than one byte holds no id.
proof fn lemma_not_ascii_no_id(text: Seq<char>, i: int)
    requires
        0 <= i < text.len(),
        !('\0' <= text[i] <= '\u{7f}'),
    ensures
        cursor_post_id(text) is None,
{
    lemma_char_not_negative(text[i]);
    if i > 0 {
        let body = text.skip(1);
        assert(body[i - 1] == text[i]);
        let digits = if body[0] == '-' || body[0] == '+' {
            body.skip(1)
        } else {
            body
        };
        if digits.len() > 0 && digits_value(digits) is Some {
            if body[0] == '-' || body[0] == '+' {
                assert(i - 1 > 0);
                assert(digits[i - 2] == text[i]);
                lemma_digits_are_ascii(digits, i - 2);
            } else {
                lemma_digits_are_ascii(digits, i - 1);
            }
        }
    }
}

/// The digits of a number stand for that number.
pub proof fn lemma_hex_digits_value(n: nat)
    ensures
        digits_value(hex_digits(n)) == Some(n),
        hex_digits(n).len() >= 1,
        hex_digits(n)[0] != '-',
        hex_digits(n)[0] != '+',
    decreases n,
{
    if n < 16 {
        assert(hex_digits(n).drop_last() =~= Seq::<char>::empty());
        assert(digits_value(hex_digits(n).drop_last()) == Some(0nat));
        assert(hex_digits(n).last() == hex_char(n));
    } else {
        lemma_hex_digits_value(n / 16);
        assert(hex_digits(n).drop_last() =~= hex_digits(n / 16));
        assert(hex_digits(n).last() == hex_char(n % 16));
        assert(hex_digits(n)[0] == hex_digits(n / 16)[0]);
    }
}

/// The cursor behind a post holds the id of that post, as long as the id is
/// not negative.
pub proof fn lemma_cursor_round_trip(id: i32)
    requires
        id >= 0,
    ensures
        cursor_post_id(cursor_text(id)) == Some(id),
{
    lemma_hex_digits_value(id as nat);
    assert(cursor_text(id).skip(1) =~= hex_digits(id as nat));
    assert(cursor_text(id)[0] == 'P');
}

/// A page of results that is full bounds the page that is asked for: its
/// last post when going forward, its first when going back. A page that is
/// not full bounds nothing.
pub open spec fn page_bound(page: Seq<PostView>, limit: i64, page_back: bool) -> Option<Post> {
    if page.len() < limit || page.len() == 0 {
        None
    } else if page_back {
        Some(page.first().post)
    } else {
        Some(page.last().post)
    }
}

/// The post that bounds the page that is asked for, found in a page of the
/// largest community that the user follows.
pub fn upper_bound_for_page(page: &Vec<PostView>, limit: i64, page_back: bool) -> (bound: Option<
    Post,
>)
    ensures
        bound == page_bound(page@, limit, page_back),
{
    let len: usize = page.len();
    if len == 0 || (limit > 0 && (len as u64) < (limit as u64)) {
        None
    } else if page_back {
        Some(page[0].post)
    } else {
        Some(page[len - 1].post)
    }
}

} // verus!
