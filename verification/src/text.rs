//! Text primitives that the renderers share.

use vstd::prelude::*;

verus! {

/// `needle` stands in `hay` at offset `at`.
pub open spec fn occurs_at(hay: Seq<char>, needle: Seq<char>, at: int) -> bool {
    &&& 0 <= at
    &&& at + needle.len() <= hay.len()
    &&& hay.subrange(at, at + needle.len()) == needle
}

/// `needle` stands somewhere in `hay` as one contiguous run of characters.
pub open spec fn contains_seq(hay: Seq<char>, needle: Seq<char>) -> bool {
    exists|at: int| occurs_at(hay, needle, at)
}

/// All `parts` in order, with `sep` between each two neighbours.
pub open spec fn join(parts: Seq<Seq<char>>, sep: Seq<char>) -> Seq<char>
    decreases parts.len(),
{
    if parts.len() == 0 {
        Seq::empty()
    } else if parts.len() == 1 {
        parts[0]
    } else {
        join(parts.drop_last(), sep) + sep + parts.last()
    }
}

/// The text of an optional fragment: the fragment and one space, or nothing.
pub open spec fn opt_tokens(part: Option<Seq<char>>) -> Seq<char> {
    match part {
        Some(text) => text + " "@,
        None => Seq::empty(),
    }
}

/// The characters of an optional string.
pub open spec fn opt_text(text: Option<String>) -> Option<Seq<char>> {
    match text {
        Some(t) => Some(t@),
        None => None,
    }
}

/// The characters of an optional borrowed string.
pub open spec fn opt_ref_text(text: Option<&String>) -> Option<Seq<char>> {
    match text {
        Some(t) => Some(t@),
        None => None,
    }
}

/// The characters of each string of a list, in order.
pub open spec fn strings_view(strings: Seq<String>) -> Seq<Seq<char>> {
    Seq::new(strings.len(), |i: int| strings[i]@)
}

/// The camel case form of an identifier, as `heck` computes it: the words of
/// `ident`, each capitalized, with the boundaries between them dropped.
pub uninterp spec fn camel_case(ident: Seq<char>) -> Seq<char>;

/// Calls `heck::CamelCase::to_camel_case` on a string slice.
///
/// Trusted: the call returns for every string, and what it returns depends
/// on the characters of `ident` alone, so it is the value of [`camel_case`]
/// on them. Nothing else is claimed of it.
#[verifier::external_body]
pub(crate) fn to_camel_case(ident: &str) -> (cased: String)
    ensures
        cased@ == camel_case(ident@),
{
    heck::CamelCase::to_camel_case(ident)
}

/// Calls `str::contains` with a string slice as the pattern.
///
/// Trusted: the call returns `true` exactly when the pattern matches a
/// sub-slice of `hay`, which on characters is [`contains_seq`].
#[verifier::external_body]
pub(crate) fn str_contains(hay: &str, needle: &str) -> (found: bool)
    ensures
        found == contains_seq(hay@, needle@),
{
    hay.contains(needle)
}

/// Appends an optional fragment and the space that follows it.
pub(crate) fn push_opt(out: &mut String, part: Option<&String>)
    ensures
        final(out)@ == old(out)@ + opt_tokens(opt_ref_text(part)),
{
    match part {
        Some(text) => {
            out.append(text.as_str());
            out.append(" ");
        },
        None => {},
    }
}

/// Appends the strings of `parts`, with `sep` between each two neighbours.
pub(crate) fn push_joined(out: &mut String, parts: &Vec<String>, sep: &str)
    ensures
        final(out)@ == old(out)@ + join(strings_view(parts@), sep@),
{
    let ghost all = strings_view(parts@);
    let mut i: usize = 0;
    while i < parts.len()
        invariant
            i <= parts.len(),
            all == strings_view(parts@),
            out@ == old(out)@ + join(all.take(i as int), sep@),
        decreases parts.len() - i,
    {
        if i > 0 {
            out.append(sep);
        }
        out.append(parts[i].as_str());
        proof {
            assert(all.take(i + 1).drop_last() == all.take(i as int));
        }
        i += 1;
    }
    proof {
        assert(all.take(i as int) == all);
    }
}

} // verus!
