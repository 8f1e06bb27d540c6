use vstd::prelude::*;

verus! {

/// Whether `c` ends a word of a function definition: brackets, operators and
/// separators.
pub open spec fn is_word_end(c: char) -> bool {
    c == '(' || c == '{' || c == '[' || c == ')' || c == '}' || c == ']' || c == '+' || c == '-'
        || c == '*' || c == '/' || c == '^' || c == '<' || c == '=' || c == '>' || c == '|'
        || c == '&' || c == '!' || c == '±' || c == '%' || c == ';' || c == ','
}

/// Whether `c` is one of the characters at which cursor word-motion stops.
pub fn end_word(c: char) -> (r: bool)
    ensures
        r == is_word_end(c),
{
    matches!(
        c,
        '(' | '{' | '[' | ')' | '}' | ']' | '+' | '-' | '*' | '/' | '^' | '<' | '=' | '>' | '|'
            | '&' | '!' | '±' | '%' | ';' | ','
    )
}

} // verus!
