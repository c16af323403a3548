//! Text helpers for the pages: fixed-width columns, ids as text and text as ids, ids
//! in order.

use std::collections::HashMap;
use vstd::prelude::*;
use vstd::std_specs::iter::IteratorSpec;

verus! {

/// The length of `text` in bytes of UTF-8, as `str::len` gives it.
pub open spec fn byte_len(text: Seq<char>) -> usize {
    vstd::utf8::encode_utf8(text).len() as usize
}

/// `text` cut down to at most `len` extended grapheme clusters: `text` itself where it
/// has no more than `len` of them, the empty text where `len` is 0, and otherwise its
/// first `len` clusters followed by three dots.
pub uninterp spec fn ellipsized(text: Seq<char>, len: nat) -> Seq<char>;

/// `count` times the character `fill`.
pub open spec fn repeated(fill: char, count: nat) -> Seq<char> {
    Seq::new(count, |i: int| fill)
}

/// `text` as the content of a column that is `width` wide. A text of exactly `width`
/// bytes stays as it is, a shorter one is padded with spaces on the right, and a
/// longer one is cut down to `width - 3` grapheme clusters and three dots; a column
/// of at most three then holds dots only.
pub open spec fn column_string(text: Seq<char>, width: nat) -> Seq<char> {
    let len = byte_len(text);
    if len == width {
        text
    } else if len < width {
        text + repeated(' ', (width - len) as nat)
    } else if width <= 3 {
        repeated('.', width)
    } else {
        ellipsized(text, (width - 3) as nat)
    }
}

/// Calls `truncate_ellipse` of the `ellipse` crate on `text`. The crate counts
/// extended grapheme clusters, returns the text unchanged where it has at most `len`
/// of them, and otherwise keeps the first `len` and appends `...`; the result depends
/// on the two arguments alone and is named `ellipsized`.
#[verifier::external_body]
fn truncate_with_ellipsis(text: &str, len: usize) -> (shortened: String)
    ensures
        shortened@ == ellipsized(text@, len as nat),
{
    ellipse::Ellipse::truncate_ellipse(&text, len).into_owned()
}

/// The content of a column of width `width` for `text`.
pub fn get_column_string(text: &str, width: usize) -> (column: String)
    ensures
        column@ == column_string(text@, width as nat),
{
    let length = text.len();
    if length == width {
        text.to_owned()
    } else if length < width {
        let left_over = width - length;
        let mut column = text.to_owned();
        let mut added: usize = 0;
        assert(column@ =~= text@ + repeated(' ', 0));
        while added < left_over
            invariant
                added <= left_over,
                column@ == text@ + repeated(' ', added as nat),
            decreases left_over - added,
        {
            proof {
                reveal_strlit(" ");
            }
            column.append(" ");
            added += 1;
            assert(column@ =~= text@ + repeated(' ', added as nat));
        }
        column
    } else if width == 0 {
        proof {
            reveal_strlit("");
        }
        assert(""@ =~= repeated('.', 0));
        "".to_owned()
    } else if width == 1 {
        proof {
            reveal_strlit(".");
        }
        assert("."@ =~= repeated('.', 1));
        ".".to_owned()
    } else if width == 2 {
        proof {
            reveal_strlit("..");
        }
        assert(".."@ =~= repeated('.', 2));
        "..".to_owned()
    } else if width == 3 {
        proof {
            reveal_strlit("...");
        }
        assert("..."@ =~= repeated('.', 3));
        "...".to_owned()
    } else {
        truncate_with_ellipsis(text, width - 3)
    }
}

/// The character that stands for the digit `digit`.
pub open spec fn digit_char(digit: nat) -> char
    recommends
        digit < 10,
{
    seq!['0', '1', '2', '3', '4', '5', '6', '7', '8', '9'][digit as int]
}

/// `number` in decimal digits, without sign and without leading zeros.
pub open spec fn decimal_text(number: nat) -> Seq<char>
    decreases number,
{
    if number < 10 {
        seq![digit_char(number)]
    } else {
        decimal_text(number / 10).push(digit_char(number % 10))
    }
}

/// The one-character text of the digit `digit`.
fn digit_text(digit: u32) -> (text: &'static str)
    requires
        digit < 10,
    ensures
        text@ == seq![digit_char(digit as nat)],
{
    proof {
        reveal_strlit("0");
        reveal_strlit("1");
        reveal_strlit("2");
        reveal_strlit("3");
        reveal_strlit("4");
        reveal_strlit("5");
        reveal_strlit("6");
        reveal_strlit("7");
        reveal_strlit("8");
        reveal_strlit("9");
    }
    let text = match digit {
        0 => "0",
        1 => "1",
        2 => "2",
        3 => "3",
        4 => "4",
        5 => "5",
        6 => "6",
        7 => "7",
        8 => "8",
        _ => "9",
    };
    assert(text@ =~= seq![digit_char(digit as nat)]);
    text
}

/// The id `id` as text, in decimal digits.
pub fn id_text(id: u32) -> (text: String)
    ensures
        text@ == decimal_text(id as nat),
{
    let mut text = digit_text(id % 10).to_owned();
    let mut rest: u32 = id / 10;
    assert(decimal_text(id as nat) =~= if rest > 0 {
        decimal_text(rest as nat) + text@
    } else {
        text@
    });
    while rest > 0
        invariant
            decimal_text(id as nat) == if rest > 0 {
                decimal_text(rest as nat) + text@
            } else {
                text@
            },
        decreases rest,
    {
        let ghost shorter = text@;
        text = digit_text(rest % 10).to_owned().concat(text.as_str());
        let ghost longer = rest;
        rest = rest / 10;
        assert(decimal_text(longer as nat) + shorter =~= if rest > 0 {
            decimal_text(rest as nat) + text@
        } else {
            text@
        });
    }
    text
}

/// Whether `c` is one of the digits `0` to `9`.
pub open spec fn is_digit(c: char) -> bool {
    '0' <= c <= '9'
}

/// The number that a text made of digits stands for in decimal.
pub open spec fn digits_value(digits: Seq<char>) -> nat
    decreases digits.len(),
{
    if digits.len() == 0 {
        0
    } else {
        digits_value(digits.drop_last()) * 10 + (digits.last() as u32 - '0' as u32) as nat
    }
}

/// Whether `digits` holds digits only.
pub open spec fn all_digits(digits: Seq<char>) -> bool {
    forall|i: int| 0 <= i < digits.len() ==> is_digit(#[trigger] digits[i])
}

/// `text` without the `+` that may stand in front of a number.
pub open spec fn unsigned_part(text: Seq<char>) -> Seq<char> {
    if text.len() > 0 && text[0] == '+' {
        text.drop_first()
    } else {
        text
    }
}

/// The number that `text` stands for as an id: an optional `+`, then one or more
/// digits and nothing else, with a value that fits in 32 bits.
pub open spec fn parsed_number(text: Seq<char>) -> Option<u32> {
    let digits = unsigned_part(text);
    if digits.len() > 0 && all_digits(digits) && digits_value(digits) <= u32::MAX {
        Some(digits_value(digits) as u32)
    } else {
        None
    }
}

/// One more digit multiplies the value by ten and adds the digit.
proof fn digits_value_of_longer(digits: Seq<char>, k: int)
    requires
        0 <= k < digits.len(),
    ensures
        digits_value(digits.take(k + 1)) == digits_value(digits.take(k)) * 10 + (digits[k] as u32
            - '0' as u32) as nat,
{
    assert(digits.take(k + 1).drop_last() =~= digits.take(k));
}

/// The value of the first `k` digits is at most the value of all of them.
proof fn digits_value_grows(digits: Seq<char>, k: int)
    requires
        all_digits(digits),
        0 <= k <= digits.len(),
    ensures
        digits_value(digits.take(k)) <= digits_value(digits),
    decreases digits.len() - k,
{
    if k < digits.len() {
        digits_value_of_longer(digits, k);
        assert(is_digit(digits[k]));
        digits_value_grows(digits, k + 1);
    } else {
        assert(digits.take(k) =~= digits);
    }
}

/// The number that `text` stands for, if it stands for one: an optional `+` and
/// then decimal digits only, as std reads a `u32`.
pub fn parse_number(text: &str) -> (number: Option<u32>)
    ensures
        number == parsed_number(text@),
{
    let len = text.unicode_len();
    let start: usize = if len > 0 && text.get_char(0) == '+' {
        1
    } else {
        0
    };
    let ghost digits = unsigned_part(text@);
    assert(digits =~= text@.subrange(start as int, len as int));
    if start == len {
        return None;
    }
    let mut value: u32 = 0;
    let mut i: usize = start;
    assert(digits.take(0) =~= Seq::empty());
    while i < len
        invariant
            start <= i <= len,
            len == text@.len(),
            digits == text@.subrange(start as int, len as int),
            digits == unsigned_part(text@),
            all_digits(digits.take(i - start)),
            value == digits_value(digits.take(i - start)),
        decreases len - i,
    {
        let code = text.get_char(i) as u32;
        if code < 48 || code > 57 {
            assert(!is_digit(digits[i - start]));
            return None;
        }
        let digit = code - 48;
        proof {
            digits_value_of_longer(digits, i - start);
            assert(digit == (digits[i - start] as u32 - '0' as u32) as nat);
        }
        if value > (u32::MAX - digit) / 10 {
            proof {
                assert(digits_value(digits.take(i - start + 1)) > u32::MAX);
                if all_digits(digits) {
                    digits_value_grows(digits, i - start + 1);
                }
            }
            return None;
        }
        value = value * 10 + digit;
        assert(all_digits(digits.take(i + 1 - start))) by {
            assert forall|j: int| 0 <= j < i + 1 - start implies is_digit(
                #[trigger] digits.take(i + 1 - start)[j],
            ) by {
                if j < i - start {
                    assert(is_digit(digits.take(i - start)[j]));
                }
            }
        }
        i += 1;
    }
    assert(digits.take(len - start) =~= digits);
    Some(value)
}

/// Whether each id is at most the ids that come after it.
pub open spec fn ascending(ids: Seq<u32>) -> bool {
    forall|i: int, j: int| 0 <= i <= j < ids.len() ==> ids[i] <= ids[j]
}

/// Calls `sorted` of the `itertools` crate on the ids. The crate collects the items
/// and sorts them with the stable sort of std, so the result holds the same ids, each
/// as often as before, in ascending order.
#[verifier::external_body]
fn sorted_ids(ids: &Vec<u32>) -> (sorted: Vec<u32>)
    ensures
        ascending(sorted@),
        sorted@.to_multiset() == ids@.to_multiset(),
{
    itertools::Itertools::sorted(ids.iter().copied()).collect()
}

/// `ids` lists each member of `members` once, in ascending order.
pub open spec fn lists_in_order(ids: Seq<u32>, members: Set<u32>) -> bool {
    &&& ascending(ids)
    &&& ids.no_duplicates()
    &&& ids.to_set() == members
}

/// `ids` holds what `unordered` holds, each id as often, in ascending order.
pub open spec fn is_sorting_of(ids: Seq<u32>, unordered: Seq<u32>) -> bool {
    &&& ascending(ids)
    &&& ids.to_multiset() == unordered.to_multiset()
}

/// The test that one id is at most another.
pub open spec fn at_most() -> spec_fn(u32, u32) -> bool {
    |a: u32, b: u32| a <= b
}

/// There is one way only to put ids in ascending order: two sortings of the same ids
/// are the same.
pub proof fn sorting_is_unique(first: Seq<u32>, second: Seq<u32>, unordered: Seq<u32>)
    requires
        is_sorting_of(first, unordered),
        is_sorting_of(second, unordered),
    ensures
        first == second,
{
    assert(vstd::relations::sorted_by(first, at_most()));
    assert(vstd::relations::sorted_by(second, at_most()));
    assert(vstd::relations::total_ordering(at_most()));
    vstd::seq_lib::lemma_sorted_unique(first, second, at_most());
}

/// There is one way only to list the members of a set in ascending order.
pub proof fn listing_is_unique(first: Seq<u32>, second: Seq<u32>, members: Set<u32>)
    requires
        lists_in_order(first, members),
        lists_in_order(second, members),
    ensures
        first == second,
{
    first.to_multiset_ensures();
    second.to_multiset_ensures();
    first.lemma_multiset_has_no_duplicates();
    second.lemma_multiset_has_no_duplicates();
    assert forall|id: u32| first.to_multiset().count(id) == second.to_multiset().count(id) by {
        assert(first.contains(id) <==> first.to_set().contains(id));
        assert(second.contains(id) <==> second.to_set().contains(id));
        assert(first.to_multiset().contains(id) <==> first.to_multiset().count(id) > 0);
        assert(second.to_multiset().contains(id) <==> second.to_multiset().count(id) > 0);
    }
    assert(first.to_multiset() =~= second.to_multiset());
    sorting_is_unique(first, second, first);
}

/// The ids in `unordered`, in ascending order.
pub fn ids_in_order(unordered: &Vec<u32>) -> (ids: Vec<u32>)
    ensures
        is_sorting_of(ids@, unordered@),
        ids@.len() == unordered@.len(),
        forall|id: u32| ids@.contains(id) <==> unordered@.contains(id),
        unordered@.no_duplicates() ==> ids@.no_duplicates(),
{
    let ids = sorted_ids(unordered);
    proof {
        broadcast use vstd::seq_lib::group_to_multiset_ensures;
        ids@.to_multiset_ensures();
        unordered@.to_multiset_ensures();
        assert forall|id: u32| ids@.contains(id) <==> unordered@.contains(id) by {
            assert(ids@.contains(id) <==> ids@.to_multiset().count(id) > 0);
            assert(unordered@.contains(id) <==> unordered@.to_multiset().count(id) > 0);
        }
        if unordered@.no_duplicates() {
            unordered@.lemma_multiset_has_no_duplicates();
            ids@.lemma_multiset_has_no_duplicates_conv();
        }
    }
    ids
}

/// The keys of `items`, each once, in ascending order.
pub fn keys_in_order<V>(items: &HashMap<u32, V>) -> (ids: Vec<u32>)
    ensures
        lists_in_order(ids@, items@.dom()),
{
    let mut keys: Vec<u32> = Vec::new();
    let ghost listing = vstd::std_specs::hash::spec_keys_iter(items).remaining();
    for key in iter: items.keys()
        invariant
            iter.seq() == listing,
            keys@.len() == iter.index(),
            forall|i: int| 0 <= i < keys@.len() ==> keys@[i] == *listing[i],
    {
        keys.push(*key);
    }
    let ids = ids_in_order(&keys);
    proof {
        assert(keys@ =~= listing.unref());
        assert(keys@.no_duplicates()) by {
            assert forall|i: int, j: int|
                0 <= i < keys@.len() && 0 <= j < keys@.len() && i != j implies keys@[i]
                != keys@[j] by {
                assert(listing[i] != listing[j]);
            }
        }
        assert(ids@.to_set() =~= items@.dom());
    }
    ids
}

/// Whether `input` is the one-character command `key`.
pub fn is_command(input: &str, key: char) -> (matches: bool)
    ensures
        matches == (input@ == seq![key]),
{
    if input.unicode_len() == 1 {
        let first = input.get_char(0);
        assert(first == key ==> input@ =~= seq![key]);
        first == key
    } else {
        false
    }
}

} // verus!
