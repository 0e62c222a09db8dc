//! Small helpers shared by the handlers.

use vstd::prelude::*;
use crate::text::{decimal, push_decimal, strings_view};

verus! {

/// The lines of a numbered list: for each item its number, counted from
/// one, then `separator`, the item and a line break.
pub open spec fn numbered(items: Seq<Seq<char>>, separator: Seq<char>) -> Seq<char>
    decreases items.len(),
{
    if items.len() == 0 {
        Seq::empty()
    } else {
        numbered(items.drop_last(), separator) + decimal(items.len()) + separator + items.last()
            + "\n"@
    }
}

/// The menu that [`list_options`] renders.
pub open spec fn options_menu(options: Seq<Seq<char>>) -> Seq<char> {
    "------------------------\nAvailable options:\n"@ + numbered(options, " - "@)
        + "------------------------"@
}

/// Appends the numbered lines of `items` to `out`.
pub fn push_numbered(out: &mut String, items: &Vec<String>, separator: &str)
    ensures
        final(out)@ == old(out)@ + numbered(strings_view(items@), separator@),
{
    let ghost start = out@;
    let mut index: usize = 0;
    proof {
        assert(strings_view(items@).take(0) =~= Seq::<Seq<char>>::empty());
        assert(start + numbered(Seq::<Seq<char>>::empty(), separator@) =~= start);
    }
    while index < items.len()
        invariant
            index <= items.len(),
            out@ == start + numbered(strings_view(items@).take(index as int), separator@),
        decreases items.len() - index,
    {
        let ghost before = strings_view(items@).take(index as int);
        let ghost after = strings_view(items@).take(index + 1);
        push_decimal(out, (index as u64) + 1);
        out.append(separator);
        out.append(items[index].as_str());
        out.append("\n");
        proof {
            assert(after.drop_last() =~= before);
            assert(after.last() == items@[index as int]@);
            assert(out@ =~= start + numbered(after, separator@));
        }
        index += 1;
    }
    proof {
        assert(strings_view(items@).take(items.len() as int) =~= strings_view(items@));
    }
}

/// Renders `opts` as a numbered menu between two rules.
pub fn list_options(opts: Vec<String>) -> (output: String)
    ensures
        output@ == options_menu(strings_view(opts@)),
{
    let mut output = String::new();
    output.append("------------------------\n");
    output.append("Available options:\n");
    proof {
        reveal_strlit("------------------------\n");
        reveal_strlit("Available options:\n");
        reveal_strlit("------------------------\nAvailable options:\n");
        assert(output@ =~= "------------------------\nAvailable options:\n"@);
    }
    push_numbered(&mut output, &opts, " - ");
    output.append("------------------------");
    output
}

} // verus!
