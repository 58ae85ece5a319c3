//! Recognition and rendering of the bot's command prefix.
//!
//! A message addresses the bot when, after any leading whitespace, its text
//! carries the configured prefix; if the prefix ends in a word character, a
//! word boundary must follow, so that a prefix such as `bot` does not match
//! inside `bothelp`. Matching reports the byte offset just past the prefix,
//! and rendering produces an invocation string that is guaranteed to match,
//! inserting a separating space when direct concatenation would not.

use vstd::prelude::*;

verus! {

/// A word byte: an ASCII letter, digit or underscore. The word boundary
/// after a prefix is judged against this class.
pub open spec fn is_word_byte(b: u8) -> bool {
    (97 <= b && b <= 122)  // 'a'..='z'
    || (65 <= b && b <= 90)  // 'A'..='Z'
    || (48 <= b && b <= 57)  // '0'..='9'
    || b == 95  // '_'
}

/// An ASCII whitespace byte: space, tab, line feed, vertical tab, form
/// feed or carriage return. Leading whitespace is skipped before the
/// prefix is expected.
pub open spec fn is_space_byte(b: u8) -> bool {
    b == 32 || b == 9 || b == 10 || b == 11 || b == 12 || b == 13
}

/// Whether a prefix demands a word boundary after it: it does exactly when
/// it is non-empty and ends in a word byte.
pub open spec fn needs_boundary(prefix: Seq<u8>) -> bool {
    prefix.len() > 0 && is_word_byte(prefix[prefix.len() - 1])
}

/// The prefix occurs in `text` at position `i`: everything before `i` is
/// whitespace, the prefix's bytes follow verbatim, and where the prefix
/// demands a word boundary, the byte after it (if any) is not a word byte.
pub open spec fn match_at(prefix: Seq<u8>, text: Seq<u8>, i: int) -> bool {
    &&& 0 <= i
    &&& i + prefix.len() <= text.len()
    &&& (forall|j: int| 0 <= j < i ==> is_space_byte(text[j]))
    &&& (forall|j: int| 0 <= j < prefix.len() ==> text[i + j] == prefix[j])
    &&& (needs_boundary(prefix) ==> (i + prefix.len() == text.len()
            || !is_word_byte(text[i + prefix.len()])))
}

/// The greatest position `m <= i` at which the prefix occurs in `text`,
/// if any. Whitespace is consumed greedily, so among several admissible
/// positions the latest one wins.
pub open spec fn greatest_match_start(prefix: Seq<u8>, text: Seq<u8>, i: nat) -> Option<int>
    decreases i,
{
    if match_at(prefix, text, i as int) {
        Some(i as int)
    } else if i == 0 {
        None
    } else {
        greatest_match_start(prefix, text, (i - 1) as nat)
    }
}

/// Where command text begins in `text`: the byte offset just past the
/// prefix at its greatest admissible position, or `None` when the text is
/// not prefixed.
pub open spec fn find_spec(prefix: Seq<u8>, text: Seq<u8>) -> Option<int> {
    if text.len() < prefix.len() {
        None
    } else {
        match greatest_match_start(prefix, text, (text.len() - prefix.len()) as nat) {
            Some(m) => Some(m + prefix.len()),
            None => None,
        }
    }
}

/// What `greatest_match_start` returns: the greatest admissible position
/// up to `i`, or `None` when there is none.
pub proof fn lemma_greatest_match_start(prefix: Seq<u8>, text: Seq<u8>, i: nat)
    ensures
        match greatest_match_start(prefix, text, i) {
            Some(m) => 0 <= m <= i && match_at(prefix, text, m)
                && (forall|i2: int| m < i2 <= i ==> !match_at(prefix, text, i2)),
            None => forall|i2: int| 0 <= i2 <= i ==> !match_at(prefix, text, i2),
        },
    decreases i,
{
    if !match_at(prefix, text, i as int) && i > 0 {
        lemma_greatest_match_start(prefix, text, (i - 1) as nat);
    }
}

/// A match at any position makes `find_spec` succeed.
proof fn lemma_match_implies_found(prefix: Seq<u8>, text: Seq<u8>, i: int)
    requires
        match_at(prefix, text, i),
    ensures
        find_spec(prefix, text) is Some,
{
    let top = (text.len() - prefix.len()) as nat;
    lemma_greatest_match_start(prefix, text, top);
    match greatest_match_start(prefix, text, top) {
        Some(m) => {},
        None => {
            assert(!match_at(prefix, text, i));
        },
    }
}

/// When no position matches, `find_spec` fails.
proof fn lemma_no_match_implies_not_found(prefix: Seq<u8>, text: Seq<u8>)
    requires
        forall|i: int| !match_at(prefix, text, i),
    ensures
        find_spec(prefix, text) is None,
{
    if text.len() >= prefix.len() {
        let top = (text.len() - prefix.len()) as nat;
        lemma_greatest_match_start(prefix, text, top);
        match greatest_match_start(prefix, text, top) {
            Some(m) => {
                assert(!match_at(prefix, text, m));
            },
            None => {},
        }
    }
}

/// A match at the very beginning that is also the only match puts the
/// start of command text exactly at the end of the prefix.
proof fn lemma_only_match_at_zero(prefix: Seq<u8>, text: Seq<u8>)
    requires
        match_at(prefix, text, 0),
        forall|i: int| i > 0 ==> !match_at(prefix, text, i),
    ensures
        find_spec(prefix, text) == Some(prefix.len() as int),
{
    let top = (text.len() - prefix.len()) as nat;
    lemma_greatest_match_start(prefix, text, top);
    match greatest_match_start(prefix, text, top) {
        Some(m) => {
            if m > 0 {
                assert(!match_at(prefix, text, m));
            }
        },
        None => {
            assert(!match_at(prefix, text, 0));
        },
    }
}

/// Whether `b` is a word byte.
pub fn word_byte(b: u8) -> (r: bool)
    ensures
        r == is_word_byte(b),
{
    (97 <= b && b <= 122) || (65 <= b && b <= 90) || (48 <= b && b <= 57) || b == 95
}

/// Whether `b` is an ASCII whitespace byte.
pub fn space_byte(b: u8) -> (r: bool)
    ensures
        r == is_space_byte(b),
{
    b == 32 || b == 9 || b == 10 || b == 11 || b == 12 || b == 13
}

/// Whether the prefix occurs in `text` at position `i`.
fn match_at_exec(prefix: &Vec<u8>, text: &Vec<u8>, i: usize) -> (r: bool)
    requires
        i + prefix@.len() <= text@.len(),
    ensures
        r == match_at(prefix@, text@, i as int),
{
    let tlen: usize = text.len();
    let mut j: usize = 0;
    while j < i
        invariant
            j <= i,
            i + prefix@.len() <= text@.len(),
            tlen == text@.len(),
            forall|j2: int| 0 <= j2 < j ==> is_space_byte(text@[j2]),
        decreases i - j,
    {
        if !space_byte(text[j]) {
            return false;
        }
        j += 1;
    }
    let mut j: usize = 0;
    while j < prefix.len()
        invariant
            j <= prefix@.len(),
            i + prefix@.len() <= text@.len(),
            tlen == text@.len(),
            forall|j2: int| 0 <= j2 < j ==> text@[i + j2] == prefix@[j2],
        decreases prefix@.len() - j,
    {
        if text[i + j] != prefix[j] {
            return false;
        }
        j += 1;
    }
    if prefix.len() > 0 && word_byte(prefix[prefix.len() - 1]) {
        let after: usize = i + prefix.len();
        if after < text.len() && word_byte(text[after]) {
            return false;
        }
    }
    true
}

/// Finds where command text begins in `text`, as the byte offset just past
/// the configured prefix (with its word boundary, where demanded); `None`
/// when the text is not prefixed.
pub fn find_command_start(prefix: &Vec<u8>, text: &Vec<u8>) -> (r: Option<usize>)
    ensures
        match r {
            Some(k) => find_spec(prefix@, text@) == Some(k as int) && k <= text@.len(),
            None => find_spec(prefix@, text@) is None,
        },
{
    if text.len() < prefix.len() {
        return None;
    }
    let top: usize = text.len() - prefix.len();
    let mut i: usize = top;
    loop
        invariant
            i <= top,
            top == text@.len() - prefix@.len(),
            text@.len() <= usize::MAX,
            forall|i2: int| i < i2 <= top ==> !match_at(prefix@, text@, i2),
        decreases i,
    {
        if match_at_exec(prefix, text, i) {
            proof {
                lemma_greatest_match_start(prefix@, text@, top as nat);
                match greatest_match_start(prefix@, text@, top as nat) {
                    Some(m) => {
                        assert(!(m < i) && !(m > i));
                    },
                    None => {
                        assert(!match_at(prefix@, text@, i as int));
                    },
                }
            }
            return Some(i + prefix.len());
        }
        if i == 0 {
            proof {
                lemma_greatest_match_start(prefix@, text@, top as nat);
                match greatest_match_start(prefix@, text@, top as nat) {
                    Some(m) => {
                        assert(!match_at(prefix@, text@, m));
                    },
                    None => {},
                }
            }
            return None;
        }
        i -= 1;
    }
}

/// The rendering of a command under a prefix: direct concatenation when
/// that would be recognized as prefixed, else with a single separating
/// space between prefix and command.
pub open spec fn render_spec(prefix: Seq<u8>, command: Seq<u8>) -> Seq<u8> {
    if find_spec(prefix, prefix + command) is Some {
        prefix + command
    } else {
        prefix + seq![32u8] + command
    }
}

/// A prefix, a single space, then the command is always recognized as
/// prefixed: the space satisfies any word-boundary demand.
pub proof fn lemma_spaced_always_matches(prefix: Seq<u8>, command: Seq<u8>)
    ensures
        find_spec(prefix, prefix + seq![32u8] + command) is Some,
{
    let text = prefix + seq![32u8] + command;
    assert(forall|j: int| 0 <= j < prefix.len() ==> text[j] == prefix[j]);
    assert(text[prefix.len() as int] == 32u8);
    assert(match_at(prefix, text, 0));
    lemma_match_implies_found(prefix, text, 0);
}

/// Every rendering matches its own prefix, so the renderer and the matcher
/// stay consistent.
pub proof fn lemma_render_always_matches(prefix: Seq<u8>, command: Seq<u8>)
    ensures
        find_spec(prefix, render_spec(prefix, command)) is Some,
{
    if find_spec(prefix, prefix + command) is Some {
    } else {
        lemma_spaced_always_matches(prefix, command);
    }
}

/// In the fused case — a prefix demanding a word boundary, directly before
/// a command beginning with a word byte, with the prefix not opening on
/// whitespace — no position of the direct concatenation matches.
proof fn lemma_fused_never_matches(prefix: Seq<u8>, command: Seq<u8>, i: int)
    requires
        !is_space_byte(prefix[0]),
        needs_boundary(prefix),
        command.len() > 0,
        is_word_byte(command[0]),
    ensures
        !match_at(prefix, prefix + command, i),
{
    let text = prefix + command;
    if match_at(prefix, text, i) {
        if i > 0 {
            assert(is_space_byte(text[0]));
            assert(text[0] == prefix[0]);
        } else {
            assert(text[i + prefix.len()] == command[0]);
        }
    }
}

/// Direct concatenation of prefix and command is recognized as prefixed
/// exactly when no word boundary is violated: it fails only for a prefix
/// ending in a word byte fused against a command beginning with one, and
/// exactly then the renderer inserts the separating space.
pub proof fn lemma_separator_exactly_when_fused(prefix: Seq<u8>, command: Seq<u8>)
    requires
        prefix.len() > 0 ==> !is_space_byte(prefix[0]),
    ensures
        find_spec(prefix, prefix + command) is Some <==> !(needs_boundary(prefix)
            && command.len() > 0 && is_word_byte(command[0])),
        render_spec(prefix, command) == (if needs_boundary(prefix) && command.len() > 0
            && is_word_byte(command[0]) {
            prefix + seq![32u8] + command
        } else {
            prefix + command
        }),
{
    let text = prefix + command;
    if needs_boundary(prefix) && command.len() > 0 && is_word_byte(command[0]) {
        assert forall|i: int| !match_at(prefix, text, i) by {
            lemma_fused_never_matches(prefix, command, i);
        }
        lemma_no_match_implies_not_found(prefix, text);
    } else {
        assert(forall|j: int| 0 <= j < prefix.len() ==> text[j] == prefix[j]);
        if needs_boundary(prefix) && command.len() > 0 {
            assert(text[prefix.len() as int] == command[0]);
        }
        assert(match_at(prefix, text, 0));
        lemma_match_implies_found(prefix, text, 0);
    }
}

/// Under the round trip's entry conditions, no position past the beginning
/// of a rendered invocation matches.
proof fn lemma_render_never_matches_late(prefix: Seq<u8>, command: Seq<u8>, i: int)
    requires
        prefix.len() > 0 ==> !is_space_byte(prefix[0]),
        prefix.len() == 0 ==> (command.len() == 0 || !is_space_byte(command[0])),
        i > 0,
    ensures
        !match_at(prefix, render_spec(prefix, command), i),
{
    let text = render_spec(prefix, command);
    if match_at(prefix, text, i) {
        assert(i + prefix.len() <= text.len());
        assert(is_space_byte(text[0]));
        if prefix.len() > 0 {
            assert(text[0] == prefix[0]);
        } else {
            assert(match_at(prefix, prefix + command, 0));
            lemma_match_implies_found(prefix, prefix + command, 0);
            assert(text == prefix + command);
            assert(text[0] == command[0]);
        }
    }
}

/// The round trip from rendering to matching: a rendered invocation is
/// recognized with the match ending exactly at the end of the prefix, and
/// the text after the matched region is the command itself — or the
/// command behind its single separating space, in exactly the fused case.
/// A prefix beginning with whitespace, or an empty prefix before a command
/// beginning with whitespace, is left out: there the greedy whitespace
/// skip can end the match deeper inside the text.
pub proof fn lemma_render_round_trip(prefix: Seq<u8>, command: Seq<u8>)
    requires
        prefix.len() > 0 ==> !is_space_byte(prefix[0]),
        prefix.len() == 0 ==> (command.len() == 0 || !is_space_byte(command[0])),
    ensures
        find_spec(prefix, render_spec(prefix, command)) == Some(prefix.len() as int),
        !(needs_boundary(prefix) && command.len() > 0 && is_word_byte(command[0]))
            ==> render_spec(prefix, command).skip(prefix.len() as int) == command,
        (needs_boundary(prefix) && command.len() > 0 && is_word_byte(command[0]))
            ==> render_spec(prefix, command).skip(prefix.len() as int) == seq![32u8] + command,
{
    lemma_separator_exactly_when_fused(prefix, command);
    let fused = needs_boundary(prefix) && command.len() > 0 && is_word_byte(command[0]);
    let text = render_spec(prefix, command);
    assert(match_at(prefix, text, 0)) by {
        assert(forall|j: int| 0 <= j < prefix.len() ==> text[j] == prefix[j]);
        if fused {
            assert(text[prefix.len() as int] == 32u8);
        } else if needs_boundary(prefix) && command.len() > 0 {
            assert(text[prefix.len() as int] == command[0]);
        }
    }
    assert forall|i: int| i > 0 implies !match_at(prefix, text, i) by {
        lemma_render_never_matches_late(prefix, command, i);
    }
    lemma_only_match_at_zero(prefix, text);
    if fused {
        assert(text.skip(prefix.len() as int) =~= seq![32u8] + command);
    } else {
        assert(text.skip(prefix.len() as int) =~= command);
    }
}

/// Appends all of `src` to `dst`.
fn push_all(dst: &mut Vec<u8>, src: &Vec<u8>)
    ensures
        final(dst)@ == old(dst)@ + src@,
{
    let mut k: usize = 0;
    while k < src.len()
        invariant
            k <= src@.len(),
            dst@ == old(dst)@ + src@.subrange(0, k as int),
        decreases src@.len() - k,
    {
        dst.push(src[k]);
        proof {
            assert(dst@ == old(dst)@ + src@.subrange(0, k + 1));
        }
        k += 1;
    }
    proof {
        assert(src@.subrange(0, src@.len() as int) == src@);
    }
}

/// Renders the invocation of `command` under `prefix`: the concatenation
/// of the two, with a separating space inserted whenever the direct
/// concatenation would not be recognized as prefixed. The result always
/// matches the prefix.
pub fn render_command(prefix: &Vec<u8>, command: &Vec<u8>) -> (r: Vec<u8>)
    ensures
        r@ == render_spec(prefix@, command@),
        find_spec(prefix@, r@) is Some,
{
    let mut out: Vec<u8> = Vec::new();
    push_all(&mut out, prefix);
    push_all(&mut out, command);
    proof {
        assert(out@ == prefix@ + command@);
    }
    if find_command_start(prefix, &out).is_some() {
        return out;
    }
    let mut spaced: Vec<u8> = Vec::new();
    push_all(&mut spaced, prefix);
    spaced.push(32);
    push_all(&mut spaced, command);
    proof {
        assert(spaced@ == prefix@ + seq![32u8] + command@);
        lemma_spaced_always_matches(prefix@, command@);
    }
    spaced
}

} // verus!
