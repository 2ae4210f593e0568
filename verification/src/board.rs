//! Board identifiers as the firmware reports them.
//!
//! The identifier read from the firmware tables may end in a line break,
//! blanks or control characters. Such padding is no part of the name: it is
//! cut off before the identifier is compared with a known board name.

use vstd::prelude::*;

verus! {

/// Whether `c` is padding: a blank or an ASCII control character.
pub open spec fn is_padding(c: char) -> bool {
    c as u32 <= 0x20 || c as u32 == 0x7f
}

/// The number of characters of `id` up to and including the last one that is
/// no padding.
pub open spec fn trimmed_len(id: Seq<char>) -> nat
    decreases id.len(),
{
    if id.len() > 0 && is_padding(id.last()) {
        trimmed_len(id.drop_last())
    } else {
        id.len()
    }
}

/// `id` without the padding at its end.
pub open spec fn trim_end(id: Seq<char>) -> Seq<char> {
    id.take(trimmed_len(id) as int)
}

/// Whether `id` is the board name `name`, padding at the end of `id` aside.
pub open spec fn names_board(id: Seq<char>, name: Seq<char>) -> bool {
    trim_end(id) == name
}

/// Whether `c` is padding.
fn is_padding_char(c: char) -> (is: bool)
    ensures
        is == is_padding(c),
{
    c <= ' ' || c == '\x7f'
}

/// The characters of `text`, in order.
fn chars_of(text: &str) -> (chars: Vec<char>)
    ensures
        chars@ == text@,
{
    let mut chars: Vec<char> = Vec::new();
    for c in it: text.chars()
        invariant
            chars@ == it.seq().take(it.index()),
    {
        chars.push(c);
    }
    chars
}

/// The trimmed length is at most the length, nothing but padding follows it,
/// and no padding stands right before it.
pub proof fn lemma_trimmed_len(id: Seq<char>)
    ensures
        trimmed_len(id) <= id.len(),
        forall|i: int| trimmed_len(id) <= i < id.len() ==> is_padding(#[trigger] id[i]),
        trimmed_len(id) > 0 ==> !is_padding(id[trimmed_len(id) - 1]),
    decreases id.len(),
{
    if id.len() > 0 && is_padding(id.last()) {
        let front = id.drop_last();
        lemma_trimmed_len(front);
        assert forall|i: int| trimmed_len(id) <= i < id.len() implies is_padding(
            #[trigger] id[i],
        ) by {
            if i < front.len() {
                assert(id[i] == front[i]);
            }
        }
        assert(trimmed_len(id) > 0 ==> id[trimmed_len(id) - 1] == front[trimmed_len(id) - 1]);
    }
}

/// A cut of `id` after which only padding follows, and which does not end in
/// padding itself, is the trimmed length.
pub proof fn lemma_trimmed_len_is(id: Seq<char>, n: nat)
    requires
        n <= id.len(),
        forall|i: int| n <= i < id.len() ==> is_padding(#[trigger] id[i]),
        n > 0 ==> !is_padding(id[n - 1]),
    ensures
        trimmed_len(id) == n,
    decreases id.len(),
{
    if id.len() > n {
        let front = id.drop_last();
        assert forall|i: int| n <= i < front.len() implies is_padding(#[trigger] front[i]) by {
            assert(front[i] == id[i]);
        }
        assert(n > 0 ==> front[n - 1] == id[n - 1]);
        lemma_trimmed_len_is(front, n);
    }
}

/// Whether `id` is the board name `name`, padding at the end of `id` aside.
pub fn is_board(id: &str, name: &str) -> (same: bool)
    ensures
        same == names_board(id@, name@),
{
    let id_chars = chars_of(id);
    let name_chars = chars_of(name);
    let mut end: usize = id_chars.len();
    while end > 0 && is_padding_char(id_chars[end - 1])
        invariant
            end <= id_chars@.len(),
            forall|i: int| end <= i < id_chars@.len() ==> is_padding(#[trigger] id_chars@[i]),
        decreases end,
    {
        end = end - 1;
    }
    proof {
        lemma_trimmed_len_is(id_chars@, end as nat);
    }
    if end != name_chars.len() {
        return false;
    }
    let mut n: usize = 0;
    while n < end
        invariant
            n <= end,
            end == name_chars@.len(),
            end == trimmed_len(id@),
            end <= id_chars@.len(),
            id_chars@ == id@,
            name_chars@ == name@,
            forall|i: int| 0 <= i < n ==> id_chars@[i] == name_chars@[i],
        decreases end - n,
    {
        if id_chars[n] != name_chars[n] {
            assert(trim_end(id@)[n as int] != name@[n as int]);
            return false;
        }
        n = n + 1;
    }
    assert(trim_end(id@) =~= name@);
    true
}

} // verus!
