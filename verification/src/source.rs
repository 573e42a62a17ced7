//! Where a source lies: on this machine, or behind a URL.

use vstd::prelude::*;
use vstd::string::StrSliceExecFns;

verus! {

/// Where a source is fetched from.
#[derive(Debug, PartialEq, Eq)]
pub enum Location<'a> {
    /// A file, by its path.
    Local(&'a str),
    /// A resource on the network, by its URL.
    Remote(&'a str),
}

pub enum LocationView {
    Local(Seq<char>),
    Remote(Seq<char>),
}

impl<'a> View for Location<'a> {
    type V = LocationView;

    open spec fn view(&self) -> LocationView {
        match self {
            Location::Local(path) => LocationView::Local(path@),
            Location::Remote(url) => LocationView::Remote(url@),
        }
    }
}

pub open spec fn is_letter(c: char) -> bool {
    ('a' <= c && c <= 'z') || ('A' <= c && c <= 'Z')
}

/// A character of a scheme's name: a letter, a digit, `+`, `-` or `.`.
pub open spec fn scheme_char(c: char) -> bool {
    is_letter(c) || ('0' <= c && c <= '9') || c == '+' || c == '-' || c == '.'
}

/// How many scheme characters `text` begins with.
pub open spec fn scheme_len(text: Seq<char>) -> nat
    decreases text.len(),
{
    if text.len() > 0 && scheme_char(text[0]) {
        1 + scheme_len(text.drop_first())
    } else {
        0
    }
}

/// The scheme that `text` begins with: a letter and scheme characters,
/// up to `://`.
pub open spec fn scheme_of(text: Seq<char>) -> Option<Seq<char>> {
    let n = scheme_len(text) as int;
    if n >= 1 && is_letter(text[0]) && text.len() >= n + 3 && text[n] == ':' && text[n + 1] == '/'
        && text[n + 2] == '/' {
        Some(text.take(n))
    } else {
        None
    }
}

/// Where `source` lies: a text without a scheme is a path, after `file://`
/// stands a path, and a text with any other scheme is a URL.
pub open spec fn located(source: Seq<char>) -> LocationView {
    match scheme_of(source) {
        None => LocationView::Local(source),
        Some(scheme) => if scheme == seq!['f', 'i', 'l', 'e'] {
            LocationView::Local(source.skip(scheme.len() as int + 3))
        } else {
            LocationView::Remote(source)
        },
    }
}

/// `text` begins with `i` scheme characters: its scheme length is `i` plus
/// that of the rest.
pub proof fn scheme_len_after_prefix(text: Seq<char>, i: int)
    requires
        0 <= i <= text.len(),
        forall|j: int| 0 <= j < i ==> scheme_char(#[trigger] text[j]),
    ensures
        scheme_len(text) == i + scheme_len(text.skip(i)),
    decreases i,
{
    if i == 0 {
        assert(text.skip(0) =~= text);
    } else {
        scheme_len_after_prefix(text.drop_first(), i - 1);
        assert(text.drop_first().skip(i - 1) =~= text.skip(i));
    }
}

/// Tells a path from a URL.
pub fn locate<'a>(source: &'a str) -> (r: Location<'a>)
    ensures
        r@ == located(source@),
{
    let len: usize = source.unicode_len();
    let mut n: usize = 0;
    let mut ended = false;
    while n < len && !ended
        invariant
            n <= len,
            len == source@.len(),
            forall|j: int| 0 <= j < n ==> scheme_char(#[trigger] source@[j]),
            ended ==> n < len && !scheme_char(source@[n as int]),
        decreases len - n + if ended { 0int } else { 1int },
    {
        let c: char = source.get_char(n);
        let in_scheme = ('a' <= c && c <= 'z') || ('A' <= c && c <= 'Z') || ('0' <= c && c <= '9')
            || c == '+' || c == '-' || c == '.';
        if in_scheme {
            n += 1;
        } else {
            ended = true;
        }
    }
    proof {
        scheme_len_after_prefix(source@, n as int);
        if n < len {
            assert(source@.skip(n as int)[0] == source@[n as int]);
        }
    }
    if n == 0 || len - n < 3 {
        return Location::Local(source);
    }
    let first: char = source.get_char(0);
    if !(('a' <= first && first <= 'z') || ('A' <= first && first <= 'Z')) {
        return Location::Local(source);
    }
    if source.get_char(n) != ':' || source.get_char(n + 1) != '/' || source.get_char(n + 2) != '/' {
        return Location::Local(source);
    }
    let is_file = n == 4 && source.get_char(0) == 'f' && source.get_char(1) == 'i'
        && source.get_char(2) == 'l' && source.get_char(3) == 'e';
    proof {
        let scheme = source@.take(n as int);
        if is_file {
            assert(scheme =~= seq!['f', 'i', 'l', 'e']);
        } else if n == 4 {
            assert(scheme[0] == source@[0] && scheme[1] == source@[1] && scheme[2] == source@[2]
                && scheme[3] == source@[3]);
        } else {
            assert(scheme.len() != 4);
        }
    }
    if is_file {
        let path = source.substring_char(n + 3, len);
        assert(source@.subrange(n + 3, len as int) =~= source@.skip(n + 3));
        Location::Local(path)
    } else {
        Location::Remote(source)
    }
}

} // verus!
