//! Renders a page as the HTML document served for it: the metadata lines
//! joined into the head, the body text in the body.

use vstd::prelude::*;
use vstd::string::StringExecFns;
use crate::schema::Page;
use crate::schema::PageModel;

verus! {

/// The lines joined with a newline between each adjacent pair.
pub open spec fn joined_lines(lines: Seq<Seq<char>>) -> Seq<char>
    decreases lines.len(),
{
    if lines.len() == 0 {
        Seq::empty()
    } else if lines.len() == 1 {
        lines[0]
    } else {
        joined_lines(lines.drop_last()) + "\n"@ + lines.last()
    }
}

/// The HTML document for a page: its joined metadata lines in the head,
/// its body text in the body.
pub open spec fn page_html(p: PageModel) -> Seq<char> {
    "\n    <!DOCTYPE html>\n    <html>\n        <head>\n            "@ + joined_lines(p.metadata)
        + "\n        </head>\n        <body>\n            "@ + p.body
        + "\n        </body>\n    </html>\n    "@
}

/// Joins the lines with a newline between each adjacent pair.
pub fn join_lines(lines: &Vec<String>) -> (r: String)
    ensures
        r@ == joined_lines(lines.deep_view()),
{
    let mut r = String::new();
    let mut i: usize = 0;
    while i < lines.len()
        invariant
            i <= lines.len(),
            r@ == joined_lines(lines.deep_view().take(i as int)),
        decreases lines.len() - i,
    {
        let ghost prefix = lines.deep_view().take(i as int);
        if i > 0 {
            r.append("\n");
        }
        r.append(lines[i].as_str());
        proof {
            let next = lines.deep_view().take(i as int + 1);
            assert(next.drop_last() =~= prefix);
            assert(next.last() == lines.deep_view()[i as int]);
            if i == 0 {
                assert(r@ =~= joined_lines(next));
            } else {
                assert(r@ =~= joined_lines(next));
            }
        }
        i += 1;
    }
    proof {
        assert(lines.deep_view().take(lines.len() as int) =~= lines.deep_view());
    }
    r
}

/// Builds the HTML document for the page.
pub fn render_page(page: &Page) -> (r: String)
    ensures
        r@ == page_html(page@),
{
    let mut r = String::new();
    r.append("\n    <!DOCTYPE html>\n    <html>\n        <head>\n            ");
    let head = join_lines(&page.metadata);
    r.append(head.as_str());
    r.append("\n        </head>\n        <body>\n            ");
    r.append(page.body.as_str());
    r.append("\n        </body>\n    </html>\n    ");
    r
}

} // verus!
