use vstd::prelude::*;

use crate::parser::ParseError;

verus! {

/// A whitespace character: space, tab, carriage return or line feed.
pub open spec fn is_space(c: char) -> bool {
    c == ' ' || c == '\t' || c == '\r' || c == '\n'
}

/// The end of the maximal run of whitespace characters starting at `pos`.
pub open spec fn spec_space_run_end(s: Seq<char>, pos: int) -> int
    decreases s.len() - pos,
{
    if 0 <= pos < s.len() && is_space(s[pos]) {
        spec_space_run_end(s, pos + 1)
    } else {
        pos
    }
}

/// The first position at or after `pos` where a comment close `*/`
/// begins, if there is one.
pub open spec fn spec_find_comment_close(s: Seq<char>, pos: int) -> Option<int>
    decreases s.len() - pos,
{
    if 0 <= pos && pos + 2 <= s.len() {
        if s[pos] == '*' && s[pos + 1] == '/' {
            Some(pos)
        } else {
            spec_find_comment_close(s, pos + 1)
        }
    } else {
        None
    }
}

/// The first position at or after `pos` holding a line feed, if any.
pub open spec fn spec_find_newline(s: Seq<char>, pos: int) -> Option<int>
    decreases s.len() - pos,
{
    if 0 <= pos < s.len() {
        if s[pos] == '\n' {
            Some(pos)
        } else {
            spec_find_newline(s, pos + 1)
        }
    } else {
        None
    }
}

/// One unit of skippable text starting exactly at `pos`: a run of
/// whitespace characters, a block comment `/* ... */` (which must be
/// closed), or a line comment `// ...` running up to, but not
/// including, a line feed (which must occur). Returns the position
/// after the unit, or `None` when no unit starts here.
pub open spec fn spec_ws_unit_end(s: Seq<char>, pos: int) -> Option<int> {
    if 0 <= pos < s.len() && is_space(s[pos]) {
        Some(spec_space_run_end(s, pos))
    } else if 0 <= pos && pos + 2 <= s.len() && s[pos] == '/' && s[pos + 1] == '*' {
        match spec_find_comment_close(s, pos + 2) {
            Some(p) => Some(p + 2),
            None => None,
        }
    } else if 0 <= pos && pos + 2 <= s.len() && s[pos] == '/' && s[pos + 1] == '/' {
        spec_find_newline(s, pos + 2)
    } else {
        None
    }
}

/// The position after skipping every whitespace and comment unit
/// starting at `pos`. Totality guard: a unit that would not advance
/// within the input is treated as absent (no unit ever does that).
pub open spec fn spec_skip_ws(s: Seq<char>, pos: int) -> int
    decreases s.len() - pos,
{
    match spec_ws_unit_end(s, pos) {
        Some(p2) => if pos < p2 <= s.len() {
            spec_skip_ws(s, p2)
        } else {
            pos
        },
        None => pos,
    }
}

/// Skips one whitespace or comment unit; `None` when none starts at `pos`.
fn skip_unit(input: &[char], pos: usize) -> (r: Option<usize>)
    requires
        pos <= input@.len(),
    ensures
        match r {
            Some(p2) => spec_ws_unit_end(input@, pos as int) == Some(p2 as int) && pos < p2
                <= input@.len(),
            None => spec_ws_unit_end(input@, pos as int) is None,
        },
{
    let len = input.len();
    if pos < len && (input[pos] == ' ' || input[pos] == '\t' || input[pos] == '\r' || input[pos]
        == '\n') {
        let mut i: usize = pos + 1;
        while i < len && (input[i] == ' ' || input[i] == '\t' || input[i] == '\r' || input[i]
            == '\n')
            invariant
                pos < i <= len,
                len == input@.len(),
                spec_space_run_end(input@, pos as int) == spec_space_run_end(input@, i as int),
            decreases len - i,
        {
            i = i + 1;
        }
        Some(i)
    } else if pos < len && pos + 1 < len && input[pos] == '/' && input[pos + 1] == '*' {
        let mut i: usize = pos + 2;
        loop
            invariant
                pos + 2 <= i <= len,
                len == input@.len(),
                pos <= input@.len(),
                input@[pos as int] == '/' && input@[pos + 1] == '*',
                spec_find_comment_close(input@, pos + 2) == spec_find_comment_close(
                    input@,
                    i as int,
                ),
            decreases len - i,
        {
            if i < len && i + 1 < len {
                if input[i] == '*' && input[i + 1] == '/' {
                    return Some(i + 2);
                }
                i = i + 1;
            } else {
                return None;
            }
        }
    } else if pos < len && pos + 1 < len && input[pos] == '/' && input[pos + 1] == '/' {
        let mut i: usize = pos + 2;
        loop
            invariant
                pos + 2 <= i <= len,
                len == input@.len(),
                pos <= input@.len(),
                input@[pos as int] == '/' && input@[pos + 1] == '/',
                spec_find_newline(input@, pos + 2) == spec_find_newline(input@, i as int),
            decreases len - i,
        {
            if i < len {
                if input[i] == '\n' {
                    return Some(i);
                }
                i = i + 1;
            } else {
                return None;
            }
        }
    } else {
        None
    }
}

/// Skips any amount of whitespace and comments, possibly none, and
/// returns the position of the first character that belongs to no such
/// unit. Never fails.
pub fn optional(input: &[char], pos: usize) -> (p2: usize)
    requires
        pos <= input@.len(),
    ensures
        p2 as int == spec_skip_ws(input@, pos as int),
        pos <= p2 <= input@.len(),
{
    let mut i: usize = pos;
    loop
        invariant
            pos <= i <= input@.len(),
            spec_skip_ws(input@, pos as int) == spec_skip_ws(input@, i as int),
        decreases input@.len() - i,
    {
        match skip_unit(input, i) {
            Some(j) => {
                i = j;
            },
            None => {
                return i;
            },
        }
    }
}

/// Requires at least one whitespace or comment unit at `pos`; skips as
/// much as `optional` would, and fails exactly when `optional` would
/// not move.
pub fn required(input: &[char], pos: usize) -> (r: Result<usize, ParseError>)
    requires
        pos <= input@.len(),
    ensures
        match r {
            Ok(p2) => p2 as int == spec_skip_ws(input@, pos as int) && pos < p2 <= input@.len(),
            Err(e) => spec_skip_ws(input@, pos as int) == pos as int && e.offset <= input@.len(),
        },
        r is Ok <==> spec_skip_ws(input@, pos as int) != pos as int,
{
    let p2 = optional(input, pos);
    if p2 > pos {
        Ok(p2)
    } else {
        Err(ParseError::at(pos))
    }
}

} // verus!
