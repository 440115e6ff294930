use vstd::prelude::*;

verus! {

/// What `format_money::format_money` makes of a number written as text:
/// `$ ` followed by the integer part grouped in thousands and two decimals.
pub uninterp spec fn formato_dinero(num: Seq<char>) -> Seq<char>;

/// Calls `format_money::format_money`. Trusted: its result is a function of
/// the text alone (the crate parses and cuts the text; it keeps no state).
#[verifier::external_body]
pub fn dinero(num: &str) -> (r: String)
    ensures
        r@ == formato_dinero(num@),
{
    format_money::format_money(num)
}

} // verus!
