//! Scanning the bytes of a directive: blanks, names, and the separators
//! that stand outside every bracket.

use vstd::prelude::*;

verus! {

pub const TAB: u8 = 9;

pub const LINE_FEED: u8 = 10;

pub const CARRIAGE_RETURN: u8 = 13;

pub const SPACE: u8 = 32;

pub const COMMA: u8 = 44;

pub const MINUS: u8 = 45;

pub const SEMICOLON: u8 = 59;

/// Whether the byte is a blank.
pub open spec fn spec_is_space(b: u8) -> bool {
    b == SPACE || b == TAB || b == LINE_FEED || b == CARRIAGE_RETURN
}

/// Whether the byte is a decimal digit.
pub open spec fn spec_is_digit(b: u8) -> bool {
    48 <= b <= 57
}

/// Whether the byte can stand in a name: a letter, a digit, an underscore,
/// or a byte of a character beyond ASCII.
pub open spec fn spec_is_name_byte(b: u8) -> bool {
    spec_is_digit(b) || 65 <= b <= 90 || 97 <= b <= 122 || b == 95 || b >= 128
}

/// Whether the byte opens a group: a round, square or curly bracket.
pub open spec fn spec_opens(b: u8) -> bool {
    b == 40 || b == 91 || b == 123
}

/// Whether the byte closes a group.
pub open spec fn spec_closes(b: u8) -> bool {
    b == 41 || b == 93 || b == 125
}

/// The number of open groups behind the byte at `i`, where it is `groups`
/// before it. Nothing closes below 0.
pub open spec fn step_groups(groups: nat, text: Seq<u8>, i: int) -> nat {
    if spec_opens(text[i]) {
        groups + 1
    } else if spec_closes(text[i]) && groups > 0 {
        (groups - 1) as nat
    } else {
        groups
    }
}

/// The number of open angle brackets behind the byte at `i`, where it is
/// `angles` before it and `groups` groups are open. Inside a group `<`
/// and `>` are not counted: there they may compare. The `>` of an arrow
/// `->` closes nothing, and nothing closes below 0.
pub open spec fn step_angles(groups: nat, angles: nat, text: Seq<u8>, i: int) -> nat {
    if groups > 0 {
        angles
    } else if text[i] == 60 {
        angles + 1
    } else if text[i] == 62 && angles > 0 && !(i > 0 && text[i - 1] == MINUS) {
        (angles - 1) as nat
    } else {
        angles
    }
}

/// The number of bytes from `i` to the next `c` that stands outside every
/// group and every pair of angle brackets, or to `end` where there is
/// none; `groups` and `angles` are what is open at `i`.
pub open spec fn gap(text: Seq<u8>, c: u8, i: int, end: int, groups: nat, angles: nat) -> nat
    decreases end - i,
{
    if i < 0 || i >= end || (groups == 0 && angles == 0 && text[i] == c) {
        0
    } else {
        1 + gap(
            text,
            c,
            i + 1,
            end,
            step_groups(groups, text, i),
            step_angles(groups, angles, text, i),
        )
    }
}

/// Whether the byte is a mark: anything but a byte of a name, a blank, a
/// colon, a plus sign, a comma, an apostrophe or a closing bracket. Where
/// a text nests, each level begins with a mark or with a keyword.
pub open spec fn spec_is_mark(b: u8) -> bool {
    !(spec_is_name_byte(b) || spec_is_space(b) || b == 58 || b == 43 || b == COMMA || b == 39
        || spec_closes(b) || b == 62)
}

/// The number of marks in `text[i..end]`.
pub open spec fn marks(text: Seq<u8>, i: int, end: int) -> nat
    decreases end - i,
{
    if i < 0 || i >= end {
        0
    } else if spec_is_mark(text[i]) {
        1 + marks(text, i + 1, end)
    } else {
        marks(text, i + 1, end)
    }
}

/// The number of blanks that stand at `i`, before `end`.
pub open spec fn spaces(text: Seq<u8>, i: int, end: int) -> nat
    decreases end - i,
{
    if i < 0 || i >= end || !spec_is_space(text[i]) {
        0
    } else {
        1 + spaces(text, i + 1, end)
    }
}

/// The number of name bytes that stand at `i`, before `end`.
pub open spec fn run(text: Seq<u8>, i: int, end: int) -> nat
    decreases end - i,
{
    if i < 0 || i >= end || !spec_is_name_byte(text[i]) {
        0
    } else {
        1 + run(text, i + 1, end)
    }
}

/// Whether the byte is a blank.
#[verifier::when_used_as_spec(spec_is_space)]
pub fn is_space(b: u8) -> (r: bool)
    ensures
        r == spec_is_space(b),
{
    b == SPACE || b == TAB || b == LINE_FEED || b == CARRIAGE_RETURN
}

/// Whether the byte is a decimal digit.
#[verifier::when_used_as_spec(spec_is_digit)]
pub fn is_digit(b: u8) -> (r: bool)
    ensures
        r == spec_is_digit(b),
{
    48 <= b && b <= 57
}

/// Whether the byte can stand in a name.
#[verifier::when_used_as_spec(spec_is_name_byte)]
pub fn is_name_byte(b: u8) -> (r: bool)
    ensures
        r == spec_is_name_byte(b),
{
    is_digit(b) || (65 <= b && b <= 90) || (97 <= b && b <= 122) || b == 95 || b >= 128
}

/// Counts the marks in `text`.
pub fn count_marks(text: &[u8]) -> (r: usize)
    ensures
        r == marks(text@, 0, text@.len() as int),
{
    let mut i: usize = 0;
    let mut count: usize = 0;
    while i < text.len()
        invariant
            i <= text.len(),
            count <= i,
            marks(text@, 0, text@.len() as int) == count + marks(
                text@,
                i as int,
                text@.len() as int,
            ),
        decreases text.len() - i,
    {
        let b = text[i];
        let plain = is_name_byte(b) || is_space(b) || b == 58 || b == 43 || b == COMMA || b == 39
            || b == 41 || b == 93 || b == 125 || b == 62;
        if !plain {
            count += 1;
        }
        i += 1;
    }
    count
}

/// Finds the next `c` outside every bracket in `text[start..end]`; `end`
/// where there is none.
pub fn find(text: &[u8], c: u8, start: usize, end: usize) -> (p: usize)
    requires
        start <= end <= text.len(),
    ensures
        p == start + gap(text@, c, start as int, end as int, 0, 0),
        start <= p <= end,
{
    let mut i: usize = start;
    let mut groups: usize = 0;
    let mut angles: usize = 0;
    while i < end && !(groups == 0 && angles == 0 && text[i] == c)
        invariant
            start <= i <= end <= text.len(),
            groups <= i - start,
            angles <= i - start,
            start + gap(text@, c, start as int, end as int, 0, 0) == i + gap(
                text@,
                c,
                i as int,
                end as int,
                groups as nat,
                angles as nat,
            ),
        decreases end - i,
    {
        let b = text[i];
        if groups > 0 {
            if b == 40 || b == 91 || b == 123 {
                groups += 1;
            } else if b == 41 || b == 93 || b == 125 {
                groups -= 1;
            }
        } else if b == 40 || b == 91 || b == 123 {
            groups += 1;
        } else if b == 60 {
            angles += 1;
        } else if b == 62 && angles > 0 && !(i > 0 && text[i - 1] == MINUS) {
            angles -= 1;
        }
        i += 1;
    }
    i
}

/// Skips the blanks at `start`, up to `end`.
pub fn skip_spaces(text: &[u8], start: usize, end: usize) -> (p: usize)
    requires
        start <= end <= text.len(),
    ensures
        p == start + spaces(text@, start as int, end as int),
        start <= p <= end,
{
    let mut i: usize = start;
    while i < end && is_space(text[i])
        invariant
            start <= i <= end <= text.len(),
            start + spaces(text@, start as int, end as int) == i + spaces(
                text@,
                i as int,
                end as int,
            ),
        decreases end - i,
    {
        i += 1;
    }
    i
}

/// Skips the name bytes at `start`, up to `end`.
pub fn skip_name(text: &[u8], start: usize, end: usize) -> (p: usize)
    requires
        start <= end <= text.len(),
    ensures
        p == start + run(text@, start as int, end as int),
        start <= p <= end,
{
    let mut i: usize = start;
    while i < end && is_name_byte(text[i])
        invariant
            start <= i <= end <= text.len(),
            start + run(text@, start as int, end as int) == i + run(text@, i as int, end as int),
        decreases end - i,
    {
        i += 1;
    }
    i
}

/// The blanks counted at `i` are blanks, and end before `end`.
pub proof fn lemma_spaces(text: Seq<u8>, i: int, end: int)
    requires
        0 <= i <= end,
    ensures
        i + spaces(text, i, end) <= end,
        forall|k: int| i <= k < i + spaces(text, i, end) ==> spec_is_space(#[trigger] text[k]),
    decreases end - i,
{
    if i < end && spec_is_space(text[i]) {
        lemma_spaces(text, i + 1, end);
    }
}

/// The name bytes counted at `i` are name bytes, and end before `end`.
pub proof fn lemma_run(text: Seq<u8>, i: int, end: int)
    requires
        0 <= i <= end,
    ensures
        i + run(text, i, end) <= end,
        forall|k: int| i <= k < i + run(text, i, end) ==> spec_is_name_byte(#[trigger] text[k]),
    decreases end - i,
{
    if i < end && spec_is_name_byte(text[i]) {
        lemma_run(text, i + 1, end);
    }
}

/// A gap ends before `end`, and where it ends before `end` it ends at
/// the byte that was looked for.
pub proof fn lemma_gap(text: Seq<u8>, c: u8, i: int, end: int, groups: nat, angles: nat)
    requires
        0 <= i <= end,
    ensures
        i + gap(text, c, i, end, groups, angles) <= end,
        i + gap(text, c, i, end, groups, angles) < end ==> text[i + gap(
            text,
            c,
            i,
            end,
            groups,
            angles,
        )] == c,
    decreases end - i,
{
    if i < end && !(groups == 0 && angles == 0 && text[i] == c) {
        lemma_gap(
            text,
            c,
            i + 1,
            end,
            step_groups(groups, text, i),
            step_angles(groups, angles, text, i),
        );
    }
}

} // verus!
