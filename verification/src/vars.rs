//! Rendering of variable bindings, in plain text and in structured markup.
//!
//! Both renderings enumerate the same pairs in the same order.  The markup
//! rendering escapes `<` and `>` in names and types — and nothing else — so
//! injected characters cannot corrupt the table.

use vstd::prelude::*;
use vstd::string::{StrSliceExecFns, StringExecFns};

verus! {

/// How one character renders inside markup.
pub open spec fn escaped_char(c: char) -> Seq<char> {
    if c == '<' {
        "&lt;"@
    } else if c == '>' {
        "&gt;"@
    } else {
        seq![c]
    }
}

/// `s` with `<` and `>` escaped and every other character kept.
pub open spec fn html_escaped(s: Seq<char>) -> Seq<char>
    decreases s.len(),
{
    if s.len() == 0 {
        Seq::empty()
    } else {
        html_escaped(s.drop_last()) + escaped_char(s.last())
    }
}

/// The plain-text line for one binding.
pub open spec fn text_line(name: Seq<char>, ty: Seq<char>) -> Seq<char> {
    name + ": "@ + ty + "\n"@
}

/// The markup row for one binding.
pub open spec fn html_row(name: Seq<char>, ty: Seq<char>) -> Seq<char> {
    "<tr><td>"@ + html_escaped(name) + "</td><td>"@ + html_escaped(ty) + "</td></tr>"@
}

/// The plain-text rendering: one line per binding, in order.
pub open spec fn vars_text(vars: Seq<(Seq<char>, Seq<char>)>) -> Seq<char>
    decreases vars.len(),
{
    if vars.len() == 0 {
        Seq::empty()
    } else {
        vars_text(vars.drop_last()) + text_line(vars.last().0, vars.last().1)
    }
}

/// The markup table body: one row per binding, in order.
pub open spec fn vars_rows(vars: Seq<(Seq<char>, Seq<char>)>) -> Seq<char>
    decreases vars.len(),
{
    if vars.len() == 0 {
        Seq::empty()
    } else {
        vars_rows(vars.drop_last()) + html_row(vars.last().0, vars.last().1)
    }
}

/// The whole markup rendering: header row, then one row per binding.
pub open spec fn vars_html(vars: Seq<(Seq<char>, Seq<char>)>) -> Seq<char> {
    "<table><tr><th>Variable</th><th>Type</th></tr>"@ + vars_rows(vars) + "</table>"@
}

/// Appends `input` to `out` with `<` and `>` escaped.
#[verifier::loop_isolation(false)]
pub fn html_escape(input: &str, out: &mut String)
    ensures
        final(out)@ == old(out)@ + html_escaped(input@),
{
    let len = input.unicode_len();
    let mut i: usize = 0;
    while i < len
        invariant
            i <= len,
            out@ == old(out)@ + html_escaped(input@.take(i as int)),
        decreases len - i,
    {
        let c = input.get_char(i);
        if c == '<' {
            out.append("&lt;");
        } else if c == '>' {
            out.append("&gt;");
        } else {
            let piece = input.substring_char(i, i + 1);
            proof {
                assert(piece@ =~= seq![input@[i as int]]);
            }
            out.append(piece);
        }
        proof {
            assert(input@.take(i + 1).drop_last() =~= input@.take(i as int));
            assert(input@.take(i + 1).last() == input@[i as int]);
            assert(out@ =~= old(out)@ + html_escaped(input@.take(i + 1)));
        }
        i = i + 1;
    }
    proof {
        assert(input@.take(len as int) =~= input@);
    }
}

/// Renders bindings as plain text, one `name: type` line per binding.
#[verifier::loop_isolation(false)]
pub fn render_vars_text(vars: &Vec<(String, String)>) -> (r: String)
    ensures
        r@ == vars_text(vars.deep_view()),
{
    let ghost dv = vars.deep_view();
    let mut out = String::new();
    let mut i: usize = 0;
    while i < vars.len()
        invariant
            i <= vars.len(),
            out@ == vars_text(dv.take(i as int)),
        decreases vars.len() - i,
    {
        out.append(vars[i].0.as_str());
        out.append(": ");
        out.append(vars[i].1.as_str());
        out.append("\n");
        proof {
            assert(dv.take(i + 1).drop_last() =~= dv.take(i as int));
            assert(dv.take(i + 1).last() == dv[i as int]);
            assert(out@ =~= vars_text(dv.take(i + 1)));
        }
        i = i + 1;
    }
    proof {
        assert(dv.take(vars.len() as int) =~= dv);
    }
    out
}

/// Renders bindings as a markup table with a header row and one row per
/// binding, `<` and `>` escaped in names and types.
#[verifier::loop_isolation(false)]
pub fn render_vars_html(vars: &Vec<(String, String)>) -> (r: String)
    ensures
        r@ == vars_html(vars.deep_view()),
{
    let ghost dv = vars.deep_view();
    let mut out = String::from_str("<table><tr><th>Variable</th><th>Type</th></tr>");
    let mut i: usize = 0;
    while i < vars.len()
        invariant
            i <= vars.len(),
            out@ == "<table><tr><th>Variable</th><th>Type</th></tr>"@ + vars_rows(
                dv.take(i as int),
            ),
        decreases vars.len() - i,
    {
        out.append("<tr><td>");
        html_escape(vars[i].0.as_str(), &mut out);
        out.append("</td><td>");
        html_escape(vars[i].1.as_str(), &mut out);
        out.append("</td></tr>");
        proof {
            assert(dv.take(i + 1).drop_last() =~= dv.take(i as int));
            assert(dv.take(i + 1).last() == dv[i as int]);
            assert(out@ =~= "<table><tr><th>Variable</th><th>Type</th></tr>"@ + vars_rows(
                dv.take(i + 1),
            ));
        }
        i = i + 1;
    }
    out.append("</table>");
    proof {
        assert(dv.take(vars.len() as int) =~= dv);
        assert(out@ =~= vars_html(dv));
    }
    out
}

} // verus!
