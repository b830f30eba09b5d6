use vstd::prelude::*;

use crate::errors::ErrorKind;
use crate::errors::Failure;

verus! {

/// The character separating the source command from the rest of the
/// interactive pipeline the user typed.
pub const DELIMITER: char = '|';

/// Index of the first delimiter in `s`, or `s.len()` when there is none.
pub open spec fn first_delimiter(s: Seq<char>) -> int
    decreases s.len(),
{
    if s.len() == 0 {
        0
    } else if s[0] == DELIMITER {
        0
    } else {
        1 + first_delimiter(s.drop_first())
    }
}

/// Whether `s` holds the delimiter character at all.
pub open spec fn has_delimiter(s: Seq<char>) -> bool {
    first_delimiter(s) < s.len()
}

/// Everything before the first delimiter: the command fragment handed to the
/// catalog. Meaningful only when `has_delimiter(s)` holds.
pub open spec fn command_fragment(s: Seq<char>) -> Seq<char> {
    s.subrange(0, first_delimiter(s))
}

/// `first_delimiter` indeed points at the first delimiter: it is in range,
/// everything before it differs from the delimiter, and it holds the
/// delimiter unless the text lacks one altogether.
pub proof fn lemma_first_delimiter_spec(s: Seq<char>)
    ensures
        0 <= first_delimiter(s) <= s.len(),
        first_delimiter(s) < s.len() ==> s[first_delimiter(s)] == DELIMITER,
        forall|j: int| 0 <= j < first_delimiter(s) ==> s[j] != DELIMITER,
    decreases s.len(),
{
    if s.len() > 0 && s[0] != DELIMITER {
        lemma_first_delimiter_spec(s.drop_first());
        assert forall|j: int| 0 <= j < first_delimiter(s) implies s[j] != DELIMITER by {
            if j > 0 {
                assert(s.drop_first()[j - 1] == s[j]);
            }
        }
    }
}

/// A position that holds the delimiter while everything before it does not
/// is exactly `first_delimiter`.
pub proof fn lemma_first_delimiter_at(s: Seq<char>, i: int)
    requires
        0 <= i < s.len(),
        s[i] == DELIMITER,
        forall|j: int| 0 <= j < i ==> s[j] != DELIMITER,
    ensures
        first_delimiter(s) == i,
    decreases i,
{
    if i > 0 {
        assert forall|j: int| 0 <= j < i - 1 implies s.drop_first()[j] != DELIMITER by {
            assert(s.drop_first()[j] == s[j + 1]);
        }
        lemma_first_delimiter_at(s.drop_first(), i - 1);
    }
}

/// `has_delimiter` says no more and no less than that some position holds
/// the delimiter.
pub proof fn lemma_has_delimiter_iff(s: Seq<char>)
    ensures
        has_delimiter(s) <==> exists|i: int| 0 <= i < s.len() && s[i] == DELIMITER,
{
    lemma_first_delimiter_spec(s);
    if exists|i: int| 0 <= i < s.len() && s[i] == DELIMITER {
        let i = choose|i: int| 0 <= i < s.len() && s[i] == DELIMITER;
        assert(first_delimiter(s) <= i);
    }
}

/// Returns everything before the first occurrence of the delimiter in the
/// pipeline text, or a `MissingDelimiter` failure when the text holds no
/// delimiter at all (the pass-through case: the input was not a pipeline the
/// engine should transform).
pub fn extract_command(text: &str) -> (r: Result<String, Failure>)
    ensures
        r is Ok <==> has_delimiter(text@),
        r matches Ok(fragment) ==> fragment@ == command_fragment(text@),
        r matches Err(f) ==> f.kind == ErrorKind::MissingDelimiter && f.references_input
            && f.message@ == "Expected '|' in input string"@ && f.label@
            == "input string does not contain '|'"@,
{
    let len = text.unicode_len();
    let mut i: usize = 0;
    while i < len
        invariant
            0 <= i <= len,
            len == text@.len(),
            forall|j: int| 0 <= j < i ==> text@[j] != DELIMITER,
        decreases len - i,
    {
        if text.get_char(i) == DELIMITER {
            proof {
                lemma_first_delimiter_at(text@, i as int);
            }
            let fragment = text.substring_char(0, i);
            return Ok(fragment.to_owned());
        }
        i += 1;
    }
    proof {
        lemma_first_delimiter_spec(text@);
    }
    Err(
        Failure::at_input(
            ErrorKind::MissingDelimiter,
            "Expected '|' in input string",
            "input string does not contain '|'",
        ),
    )
}

} // verus!
