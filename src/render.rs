//! The text forms of sizes.
//!
//! A size is shown as its magnitude in points followed by `pt`; a vector as
//! its two components in brackets; a box as its four sides in brackets, each
//! named. The magnitude itself is written by the caller, in the shortest
//! decimal form of its number; these functions frame it.

use vstd::prelude::*;
use vstd::string::*;

verus! {

/// The text of a size whose magnitude in points is written `magnitude`.
pub open spec fn size_form(magnitude: Seq<char>) -> Seq<char> {
    magnitude + "pt"@
}

/// The text of a vector whose components are shown as `x` and `y`.
pub open spec fn vector_form(x: Seq<char>, y: Seq<char>) -> Seq<char> {
    "["@ + x + ", "@ + y + "]"@
}

/// The text of a box whose sides are shown as `left`, `top`, `right` and
/// `bottom`.
pub open spec fn box_form(
    left: Seq<char>,
    top: Seq<char>,
    right: Seq<char>,
    bottom: Seq<char>,
) -> Seq<char> {
    "[left: "@ + left + ", top: "@ + top + ", right: "@ + right + ", bottom: "@ + bottom + "]"@
}

/// Shows a size from its magnitude in points, written in decimal.
pub fn size_text(magnitude: &str) -> (r: String)
    ensures
        r@ == size_form(magnitude@),
{
    let mut r = magnitude.to_owned();
    r.append("pt");
    r
}

/// Shows a vector from the texts of its two components.
pub fn vector_text(x: &str, y: &str) -> (r: String)
    ensures
        r@ == vector_form(x@, y@),
{
    let mut r = String::from_str("[");
    r.append(x);
    r.append(", ");
    r.append(y);
    r.append("]");
    r
}

/// Shows a box from the texts of its four sides.
pub fn box_text(left: &str, top: &str, right: &str, bottom: &str) -> (r: String)
    ensures
        r@ == box_form(left@, top@, right@, bottom@),
{
    let mut r = String::from_str("[left: ");
    r.append(left);
    r.append(", top: ");
    r.append(top);
    r.append(", right: ");
    r.append(right);
    r.append(", bottom: ");
    r.append(bottom);
    r.append("]");
    r
}

} // verus!
