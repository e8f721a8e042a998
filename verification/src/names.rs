use vstd::prelude::*;

verus! {

/// `c` is an ASCII letter.
pub open spec fn is_ascii_letter(c: char) -> bool {
    ('a' <= c && c <= 'z') || ('A' <= c && c <= 'Z')
}

/// `c` is an ASCII decimal digit.
pub open spec fn is_ascii_digit(c: char) -> bool {
    '0' <= c && c <= '9'
}

/// `c` may begin an identifier: `[a-zA-Z_]`, or `[a-zA-Z_:]` when colons are allowed.
pub open spec fn is_ident_start(c: char, colon_allowed: bool) -> bool {
    is_ascii_letter(c) || c == '_' || (colon_allowed && c == ':')
}

/// `s` matches `^[S][S0-9]*$`, where `S` is the start set of `is_ident_start`.
pub open spec fn is_ident(s: Seq<char>, colon_allowed: bool) -> bool {
    &&& s.len() > 0
    &&& is_ident_start(s[0], colon_allowed)
    &&& forall|i: int|
        1 <= i < s.len() ==> is_ident_start(#[trigger] s[i], colon_allowed) || is_ascii_digit(s[i])
}

/// A metric name: `^[a-zA-Z_:][a-zA-Z0-9_:]*$`.
pub open spec fn is_valid_metric_name(name: Seq<char>) -> bool {
    is_ident(name, true)
}

/// A label name: `^[a-zA-Z_][a-zA-Z0-9_]*$`.
pub open spec fn is_valid_label_name(name: Seq<char>) -> bool {
    is_ident(name, false)
}

/// The text of each string in `strs`.
pub open spec fn str_views(strs: Seq<&str>) -> Seq<Seq<char>> {
    strs.map_values(|s: &str| s@)
}

/// A histogram family with this name, help text and label names is accepted: the help
/// text is not empty, the name is a metric name, and the label names are label names,
/// none of them twice.
pub open spec fn histogram_description_accepted(
    name: Seq<char>,
    help: Seq<char>,
    label_names: Seq<Seq<char>>,
) -> bool {
    &&& help.len() > 0
    &&& is_valid_metric_name(name)
    &&& forall|i: int| 0 <= i < label_names.len() ==> is_valid_label_name(#[trigger] label_names[i])
    &&& label_names.no_duplicates()
}

/// Every character of `s` from index `i` on may continue an identifier.
pub open spec fn ident_tail(s: Seq<char>, i: int, colon_allowed: bool) -> bool
    decreases s.len() - i,
{
    if i < 0 || i >= s.len() {
        true
    } else {
        (is_ident_start(s[i], colon_allowed) || is_ascii_digit(s[i])) && ident_tail(s, i + 1, colon_allowed)
    }
}

/// A character-by-character check from index 1 gives the identifier rule.
pub proof fn lemma_ident_from_tail(s: Seq<char>, colon_allowed: bool)
    requires
        s.len() > 0,
        is_ident_start(s[0], colon_allowed),
        ident_tail(s, 1, colon_allowed),
    ensures
        is_ident(s, colon_allowed),
{
    assert forall|i: int| 1 <= i < s.len() implies is_ident_start(#[trigger] s[i], colon_allowed)
        || is_ascii_digit(s[i]) by {
        lemma_ident_tail_at(s, 1, i, colon_allowed);
    }
}

proof fn lemma_ident_tail_at(s: Seq<char>, i: int, j: int, colon_allowed: bool)
    requires
        0 <= i <= j < s.len(),
        ident_tail(s, i, colon_allowed),
    ensures
        is_ident_start(s[j], colon_allowed) || is_ascii_digit(s[j]),
    decreases j - i,
{
    if i < j {
        lemma_ident_tail_at(s, i + 1, j, colon_allowed);
    }
}

} // verus!
