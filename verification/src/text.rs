//! Small verified string helpers: ownership hand-over, borrowing several
//! string slices at once, and picking the longer of two slices.

use vstd::prelude::*;
use vstd::string::StringSliceAdditionalSpecFns;

verus! {

/// Take ownership of `s` and hand back the same text with ` Modified`
/// appended.
pub fn modify_and_return(s: String) -> (r: String)
    ensures
        r@ =~= s@ + " Modified"@,
{
    s.concat(" Modified")
}

/// Join three borrowed string slices with single spaces, leaving all three
/// borrows intact.
pub fn combine_strings<'a, 'b, 'c>(s1: &'a str, s2: &'b str, s3: &'c str) -> (r: String)
    ensures
        r@ =~= s1@ + " "@ + s2@ + " "@ + s3@,
{
    let mut r = s1.to_owned();
    r.append(" ");
    r.append(s2);
    r.append(" ");
    r.append(s3);
    r
}

/// Return whichever of the two slices is longer in bytes; ties go to the
/// second, as the comparison is strict.
pub fn longest<'a>(x: &'a str, y: &'a str) -> (r: &'a str)
    ensures
        x.spec_bytes().len() > y.spec_bytes().len() ==> r@ == x@ && r.spec_bytes()
            == x.spec_bytes(),
        x.spec_bytes().len() <= y.spec_bytes().len() ==> r@ == y@ && r.spec_bytes()
            == y.spec_bytes(),
{
    if x.as_bytes().len() > y.as_bytes().len() {
        x
    } else {
        y
    }
}

} // verus!
