//! What values mean: JSON values, digests, numerals and texts.

use vstd::prelude::*;
use vstd::utf8::encode_utf8;

use crate::clock::epoch_millis;
use crate::digest::{hex_digit, sha256_digest, sha256_text};
use crate::json::{lemma_trees, members, tree, Json, JsonTree, NumberView};
use crate::spawn::{bare_name, says_unavailable};
use crate::text::{ascii_lowered, blank, decimal, occurs, occurs_at, utf8_len, white_space};
use crate::verdict::QualificationErrorView;

verus! {

/// What stands under `name` in `tree`.
pub open spec fn part(tree: JsonTree, name: Seq<char>) -> Option<JsonTree> {
    if tree is Object && tree->Object_0.contains_key(name) {
        Some(tree->Object_0[name])
    } else {
        None
    }
}

/// A member is what stands under its name, whatever else the object holds. What is no object has
/// none.
pub proof fn member_stands_under_its_name(tree: JsonTree, name: Seq<char>)
    ensures
        tree.member(name) == part(tree, name),
        tree.text_member(name) is Some <==> part(tree, name) is Some && part(tree, name)->0 is Text,
        tree.text_member(name) matches Some(s) ==> part(tree, name) == Some(JsonTree::Text(s)),
{
}

/// A value that is neither an array nor an object says what it holds.
pub proof fn plain_values_say_what_they_hold(
    truth: bool,
    unsigned: u64,
    signed: i64,
    text: String,
)
    ensures
        Json::Null@ == JsonTree::Null,
        Json::Bool(truth)@ == JsonTree::Bool(truth),
        Json::Unsigned(unsigned)@ == JsonTree::Number(NumberView::Integer(unsigned as int)),
        Json::Signed(signed)@ == JsonTree::Number(NumberView::Integer(signed as int)),
        Json::Text(text)@ == JsonTree::Text(text@),
{
}

/// An array says its items, each in its place.
pub proof fn array_says_its_items(items: Vec<Json>)
    ensures
        Json::Array(items)@ is Array,
        Json::Array(items)@->Array_0.len() == items@.len(),
        forall|i: int|
            0 <= i < items@.len() ==> #[trigger] Json::Array(items)@->Array_0[i] == items@[i]@,
{
    lemma_trees(items@);
}

proof fn lemma_members(entries: Seq<(String, Json)>)
    ensures
        forall|name: Seq<char>| #[trigger]
            members(entries).contains_key(name) <==> exists|i: int|
                0 <= i < entries.len() && (#[trigger] entries[i]).0@ == name,
        forall|i: int|
            0 <= i < entries.len() && (forall|j: int|
                i < j < entries.len() ==> (#[trigger] entries[j]).0@ != entries[i].0@)
                ==> members(entries)[(#[trigger] entries[i]).0@] == tree(entries[i].1),
    decreases entries.len(),
{
    if entries.len() > 0 {
        let fewer = entries.drop_last();
        let n = entries.len() - 1;
        lemma_members(fewer);
        assert forall|name: Seq<char>| #[trigger]
            members(entries).contains_key(name) <==> exists|i: int|
                0 <= i < entries.len() && (#[trigger] entries[i]).0@ == name by {
            if members(fewer).contains_key(name) {
                let i = choose|i: int| 0 <= i < fewer.len() && (#[trigger] fewer[i]).0@ == name;
                assert(entries[i].0@ == name);
            }
            if exists|i: int| 0 <= i < entries.len() && (#[trigger] entries[i]).0@ == name {
                let i = choose|i: int| 0 <= i < entries.len() && (#[trigger] entries[i]).0@ == name;
                if i < n {
                    assert(fewer[i].0@ == name);
                }
            }
            assert(entries[n].0@ == entries.last().0@);
        }
        assert forall|i: int|
            0 <= i < entries.len() && (forall|j: int|
                i < j < entries.len() ==> (#[trigger] entries[j]).0@ != entries[i].0@) implies
            members(entries)[(#[trigger] entries[i]).0@] == tree(entries[i].1) by {
            if i < n {
                assert(entries[n].0@ != entries[i].0@);
                assert(fewer[i] == entries[i]);
                assert forall|j: int| i < j < fewer.len() implies (#[trigger] fewer[j]).0@
                    != fewer[i].0@ by {
                    assert(entries[j].0@ != entries[i].0@);
                }
            }
        }
    }
}

/// An object holds the names of its entries and no others, and under each name the value of the last
/// entry of that name.
pub proof fn object_says_its_last_entries(entries: Vec<(String, Json)>)
    ensures
        Json::Object(entries)@ is Object,
        forall|name: Seq<char>|
            (#[trigger] part(Json::Object(entries)@, name)) is Some <==> exists|i: int|
                0 <= i < entries@.len() && (#[trigger] entries@[i]).0@ == name,
        forall|i: int|
            0 <= i < entries@.len() && (forall|j: int|
                i < j < entries@.len() ==> (#[trigger] entries@[j]).0@ != entries@[i].0@) ==> part(
                Json::Object(entries)@,
                (#[trigger] entries@[i]).0@,
            ) == Some(entries@[i].1@),
{
    lemma_members(entries@);
    assert forall|i: int|
        0 <= i < entries@.len() && (forall|j: int|
            i < j < entries@.len() ==> (#[trigger] entries@[j]).0@ != entries@[i].0@) implies part(
        Json::Object(entries)@,
        (#[trigger] entries@[i]).0@,
    ) == Some(entries@[i].1@) by {
        assert(members(entries@).contains_key(entries@[i].0@));
    }
}

/// What a hexadecimal digit in lower case stands for.
pub open spec fn hex_value(c: char) -> int {
    if '0' <= c <= '9' {
        c as int - '0' as int
    } else if 'a' <= c <= 'f' {
        c as int - 'a' as int + 10
    } else {
        -1
    }
}

proof fn lemma_hex_digit(n: int)
    requires
        0 <= n < 16,
    ensures
        hex_value(hex_digit(n)) == n,
{
}

/// The text of a digest is `sha256:` and then, for each byte of the digest in its order, two
/// hexadecimal digits that spell it.
pub proof fn digest_text_spells_the_digest(bytes: Seq<u8>)
    ensures
        sha256_text(bytes).len() == 7 + 2 * sha256_digest(bytes).len(),
        sha256_text(bytes).take(7) == "sha256:"@,
        forall|i: int|
            0 <= i < sha256_digest(bytes).len() ==> {
                let high = hex_value(sha256_text(bytes)[7 + 2 * i]);
                let low = hex_value(sha256_text(bytes)[8 + 2 * i]);
                0 <= high < 16 && 0 <= low < 16 && #[trigger] sha256_digest(bytes)[i] == 16 * high
                    + low
            },
{
    reveal_strlit("sha256:");
    let digest = sha256_digest(bytes);
    let text = sha256_text(bytes);
    assert(text.take(7) =~= "sha256:"@);
    assert forall|i: int| 0 <= i < digest.len() implies {
        let high = hex_value(text[7 + 2 * i]);
        let low = hex_value(text[8 + 2 * i]);
        0 <= high < 16 && 0 <= low < 16 && #[trigger] digest[i] == 16 * high + low
    } by {
        let b = digest[i] as int;
        assert((2 * i) % 2 == 0 && (2 * i) / 2 == i);
        assert((2 * i + 1) % 2 == 1 && (2 * i + 1) / 2 == i);
        assert(text[7 + 2 * i] == hex_digit(b / 16));
        assert(text[8 + 2 * i] == hex_digit(b % 16));
        lemma_hex_digit(b / 16);
        lemma_hex_digit(b % 16);
    }
}

/// The number that decimal digits stand for.
pub open spec fn numeral_value(text: Seq<char>) -> int
    decreases text.len(),
{
    if text.len() == 0 {
        0
    } else {
        10 * numeral_value(text.drop_last()) + (text.last() as int - '0' as int)
    }
}

/// A number in decimal is made of digits, stands for the number, and has no zero in front unless it
/// is zero itself.
pub proof fn numeral_stands_for_its_number(n: nat)
    ensures
        decimal(n).len() > 0,
        forall|i: int| 0 <= i < decimal(n).len() ==> '0' <= #[trigger] decimal(n)[i] <= '9',
        numeral_value(decimal(n)) == n,
        decimal(n)[0] == '0' ==> n == 0 && decimal(n).len() == 1,
    decreases n,
{
    reveal_with_fuel(numeral_value, 2);
    if n < 10 {
        assert(decimal(n).drop_last() =~= Seq::empty());
    } else {
        numeral_stands_for_its_number(n / 10);
        assert(decimal(n).drop_last() =~= decimal(n / 10));
    }
}

/// A text is blank exactly if every one of its characters is white space, and its length in bytes is
/// that of its encoding.
pub proof fn texts_are_measured_as_they_are(text: Seq<char>)
    ensures
        blank(text) <==> !exists|i: int| 0 <= i < text.len() && !white_space(#[trigger] text[i]),
        utf8_len(text) == encode_utf8(text).len(),
{
}

/// Whether `part` can be read in `text` from `at` on.
pub open spec fn readable_at(text: Seq<char>, part: Seq<char>, at: int) -> bool {
    &&& 0 <= at
    &&& at + part.len() <= text.len()
    &&& forall|k: int| 0 <= k < part.len() ==> text[at + k] == #[trigger] part[k]
}

/// A text is found in another exactly if it can be read there, character by character.
pub proof fn found_where_it_can_be_read(text: Seq<char>, part: Seq<char>)
    ensures
        occurs(text, part) <==> exists|at: int| readable_at(text, part, at),
{
    assert forall|at: int| occurs_at(text, part, at) <==> readable_at(text, part, at) by {
        if occurs_at(text, part, at) {
            assert forall|k: int| 0 <= k < part.len() implies text[at + k] == #[trigger] part[k] by {
                assert(text.subrange(at, at + part.len())[k] == part[k]);
            }
        }
        if readable_at(text, part, at) {
            assert(text.subrange(at, at + part.len()) =~= part);
        }
    }
    if occurs(text, part) {
        let at = choose|at: int| occurs_at(text, part, at);
        assert(readable_at(text, part, at));
    }
    if exists|at: int| readable_at(text, part, at) {
        let at = choose|at: int| readable_at(text, part, at);
        assert(occurs_at(text, part, at));
    }
}

/// Whether `c` is the letter `lower`, be it in upper case, or is that very character.
pub open spec fn same_letter(c: char, lower: char) -> bool {
    if 'A' <= c <= 'Z' {
        c as int + 32 == lower as int
    } else {
        c == lower
    }
}

/// Whether `phrase`, which is in lower case, can be read in `text` from `at` on, whatever the case of
/// the letters there.
pub open spec fn spoken_at(text: Seq<char>, phrase: Seq<char>, at: int) -> bool {
    &&& 0 <= at
    &&& at + phrase.len() <= text.len()
    &&& forall|k: int| 0 <= k < phrase.len() ==> same_letter(text[at + k], #[trigger] phrase[k])
}

/// Whether `phrase` can be read somewhere in `text`, whatever the case of the letters there.
pub open spec fn spoken(text: Seq<char>, phrase: Seq<char>) -> bool {
    exists|at: int| spoken_at(text, phrase, at)
}

proof fn lemma_spoken(text: Seq<char>, phrase: Seq<char>)
    ensures
        occurs(ascii_lowered(text), phrase) <==> spoken(text, phrase),
{
    let lowered = ascii_lowered(text);
    found_where_it_can_be_read(lowered, phrase);
    assert forall|at: int| readable_at(lowered, phrase, at) <==> spoken_at(text, phrase, at) by {
        if readable_at(lowered, phrase, at) {
            assert forall|k: int| 0 <= k < phrase.len() implies same_letter(
                text[at + k],
                #[trigger] phrase[k],
            ) by {
                assert(lowered[at + k] == phrase[k]);
            }
        }
        if spoken_at(text, phrase, at) {
            assert forall|k: int| 0 <= k < phrase.len() implies lowered[at + k]
                == #[trigger] phrase[k] by {
                assert(same_letter(text[at + k], phrase[k]));
            }
        }
    }
    if spoken(text, phrase) {
        let at = choose|at: int| spoken_at(text, phrase, at);
        assert(readable_at(lowered, phrase, at));
    }
    if exists|at: int| readable_at(lowered, phrase, at) {
        let at = choose|at: int| readable_at(lowered, phrase, at);
        assert(spoken_at(text, phrase, at));
    }
}

/// A runtime counts as not to be had exactly if the message says one of four things, whatever the
/// case of its letters.
pub proof fn unavailable_runtime_is_told_by_four_phrases(message: Seq<char>)
    ensures
        says_unavailable(message) <==> spoken(message, "not found"@) || spoken(
            message,
            "unsupported"@,
        ) || spoken(message, "unavailable"@) || spoken(message, "system node"@),
{
    lemma_spoken(message, "not found"@);
    lemma_spoken(message, "unsupported"@);
    lemma_spoken(message, "unavailable"@);
    lemma_spoken(message, "system node"@);
}

/// A command is looked up exactly if it is not empty and holds no slash of either kind.
pub proof fn bare_name_has_no_slash(command: Seq<char>)
    ensures
        bare_name(command) <==> command.len() > 0 && forall|i: int|
            0 <= i < command.len() ==> #[trigger] command[i] != '/' && command[i] != '\\',
{
    reveal_strlit("/");
    reveal_strlit("\\");
    found_where_it_can_be_read(command, "/"@);
    found_where_it_can_be_read(command, "\\"@);
    if exists|i: int| 0 <= i < command.len() && (#[trigger] command[i] == '/' || command[i] == '\\') {
        let i = choose|i: int|
            0 <= i < command.len() && (#[trigger] command[i] == '/' || command[i] == '\\');
        if command[i] == '/' {
            assert(readable_at(command, "/"@, i));
        } else {
            assert(readable_at(command, "\\"@, i));
        }
    }
    if occurs(command, "/"@) {
        let at = choose|at: int| readable_at(command, "/"@, at);
        assert(command[at + 0] == "/"@[0]);
        assert(command[at] == '/');
    }
    if occurs(command, "\\"@) {
        let at = choose|at: int| readable_at(command, "\\"@, at);
        assert(command[at + 0] == "\\"@[0]);
        assert(command[at] == '\\');
    }
}

/// The time in milliseconds is that of the clock, without the part of a millisecond that is under
/// way. A clock that stands before 1970 gives none.
pub proof fn milliseconds_are_those_of_the_clock(nanos: int)
    ensures
        nanos < 0 ==> epoch_millis(nanos) == Err::<u64, _>(QualificationErrorView::Internal),
        nanos >= 0 ==> epoch_millis(nanos) is Ok,
        0 <= nanos && nanos < 1_000_000 * (u64::MAX + 1) ==> {
            let millis = epoch_millis(nanos)->Ok_0 as int;
            millis * 1_000_000 <= nanos < (millis + 1) * 1_000_000
        },
{
}

} // verus!
