use vstd::prelude::*;

verus! {

/// `String::push` appends the character to the end of the string and leaves
/// the characters before it as they were.
pub assume_specification[ String::push ](s: &mut String, ch: char)
    ensures
        final(s)@ == old(s)@.push(ch),
;

/// `String::pop` removes the last character and returns it; on an empty
/// string it returns nothing and the string stays empty.
pub assume_specification[ String::pop ](s: &mut String) -> (removed: Option<char>)
    ensures
        old(s)@.len() == 0 ==> removed == None::<char> && final(s)@ == old(s)@,
        old(s)@.len() > 0 ==> removed == Some(old(s)@.last()) && final(s)@ == old(s)@.drop_last(),
;

/// `String::clear` removes every character of the string.
pub assume_specification[ String::clear ](s: &mut String)
    ensures
        final(s)@ == Seq::<char>::empty(),
;

} // verus!
