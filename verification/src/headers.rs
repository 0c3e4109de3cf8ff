//! How a list of headers is shown when debugging.

use vstd::prelude::*;

use crate::cors::pair_views;

verus! {

/// The lines showing each header, `name = value`, in order.
pub open spec fn header_lines(entries: Seq<(Seq<char>, Seq<char>)>) -> Seq<char>
    decreases entries.len(),
{
    if entries.len() == 0 {
        Seq::empty()
    } else {
        header_lines(entries.drop_last()) + entries.last().0 + " = "@ + entries.last().1 + "\n"@
    }
}

/// The debug rendering of headers: `Headers {`, a line `name = value` for each
/// header in order, and a closing `}`, each line ending in a newline.
pub open spec fn headers_text(entries: Seq<(Seq<char>, Seq<char>)>) -> Seq<char> {
    "Headers {\n"@ + header_lines(entries) + "}\n"@
}

/// Renders the headers' entries for debugging.
pub fn render_headers(entries: &Vec<(String, String)>) -> (s: String)
    ensures
        s@ == headers_text(pair_views(entries@)),
{
    let mut s = "Headers {\n".to_owned();
    let mut i: usize = 0;
    while i < entries.len()
        invariant
            i <= entries.len(),
            s@ == "Headers {\n"@ + header_lines(pair_views(entries@).take(i as int)),
        decreases entries.len() - i,
    {
        let ghost all = pair_views(entries@);
        let ghost before = s@;
        s.append(entries[i].0.as_str());
        s.append(" = ");
        s.append(entries[i].1.as_str());
        s.append("\n");
        proof {
            assert(all.take(i + 1).drop_last() =~= all.take(i as int));
            assert(all.take(i + 1).last() == all[i as int]);
            assert(s@ =~= "Headers {\n"@ + header_lines(all.take(i + 1)));
        }
        i = i + 1;
    }
    assert(pair_views(entries@).take(entries.len() as int) =~= pair_views(entries@));
    s.append("}\n");
    s
}

} // verus!
