//! What is taken on trust of the standard library: the conversions by which a
//! text, in each form in which the standard library can turn it into a
//! `String`, becomes the `String` of a reason.

use vstd::prelude::*;

verus! {

/// `String::from` on a `&str`: the new string owns the same text.
pub assume_specification<'a>[ <String as From<&'a str>>::from ](s: &str) -> (text: String)
    ensures
        text@ == s@,
;

/// `String::from` on a `&mut str`: the new string owns the text that the slice
/// holds at the call, and the slice is only read.
pub assume_specification<'a>[ <String as From<&'a mut str>>::from ](s: &mut str) -> (text: String)
    ensures
        text@ == old(s)@,
        final(s)@ == old(s)@,
;

/// `String::from` on a `&String`: the new string is a clone, with the same
/// text.
pub assume_specification<'a>[ <String as From<&'a String>>::from ](s: &String) -> (text: String)
    ensures
        text@ == s@,
;

/// `String::from` on a `Box<str>`: the new string owns the same text.
pub assume_specification[ <String as From<Box<str>>>::from ](s: Box<str>) -> (text: String)
    ensures
        text@ == s@,
;

/// `String::from` on a `Cow<str>`: the new string owns the same text, whether
/// it was borrowed or owned.
pub assume_specification<'a>[ <String as From<std::borrow::Cow<'a, str>>>::from ](
    s: std::borrow::Cow<'a, str>,
) -> (text: String)
    ensures
        text@ == s@,
;

/// `String::from` on a `char`: the new string holds that one character.
pub assume_specification[ <String as From<char>>::from ](c: char) -> (text: String)
    ensures
        text@ == seq![c],
;

/// `From::from` on a value of the target type itself, as when a `String` is
/// converted into a `String`: the argument is returned unchanged.
pub assume_specification<T>[ <T as From<T>>::from ](t: T) -> (same: T)
    ensures
        same == t,
;

} // verus!
