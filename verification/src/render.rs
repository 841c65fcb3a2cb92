//! Source materialization: rendering the ordered buffer of accepted code
//! lines into one complete, buildable program text.
//!
//! Rendering is purely functional: the output is fully determined by the
//! ordered sequence of lines, with no side effects. The lines are joined by
//! a statement separator and wrapped in an entry-point function whose block
//! evaluates to the value of the final expression and prints its debug
//! representation. An empty buffer renders a program whose block evaluates
//! to the unit value.

use vstd::prelude::*;
use vstd::string::StringExecFns;

verus! {

/// The lines of `lines`, in order, with `sep` between consecutive lines.
pub open spec fn join_with(lines: Seq<Seq<char>>, sep: Seq<char>) -> Seq<char>
    decreases lines.len(),
{
    if lines.len() == 0 {
        Seq::empty()
    } else if lines.len() == 1 {
        lines[0]
    } else {
        join_with(lines.drop_last(), sep) + sep + lines.last()
    }
}

/// The separator placed between two accepted statement lines.
pub open spec fn statement_separator() -> Seq<char> {
    ";\n"@
}

/// Text placed before the joined statement lines: the opening of an
/// entry-point function that prints the debug representation of its block.
pub open spec fn program_prefix() -> Seq<char> {
    "\n#![allow(warnings)]\nfn main() {\n    print!(\"{:?}\", {\n        "@
}

/// Text placed after the joined statement lines, closing the block, the
/// print call and the entry-point function.
pub open spec fn program_suffix() -> Seq<char> {
    "\n    });\n}\n"@
}

/// The complete program text materialized from an ordered buffer.
pub open spec fn render_spec(lines: Seq<Seq<char>>) -> Seq<char> {
    program_prefix() + join_with(lines, statement_separator()) + program_suffix()
}

/// Extending the joined prefix of a sequence of lines by one more line
/// appends one separator and that line (or is the line itself at the start).
proof fn lemma_join_with_take_step(lines: Seq<Seq<char>>, sep: Seq<char>, i: int)
    requires
        0 <= i < lines.len(),
    ensures
        join_with(lines.take(i + 1), sep) == if i == 0 {
            lines[0]
        } else {
            join_with(lines.take(i), sep) + sep + lines[i]
        },
{
    let t = lines.take(i + 1);
    if i == 0 {
        assert(t[0] == lines[0]);
    } else {
        assert(t.drop_last() =~= lines.take(i));
        assert(t.last() == lines[i]);
    }
}

/// Joins the lines of `lines`, in order, with `sep` between consecutive
/// lines.
pub fn join_lines(lines: &Vec<String>, sep: &str) -> (r: String)
    ensures
        r@ == join_with(lines.deep_view(), sep@),
{
    let ghost dv = lines.deep_view();
    let mut r = String::new();
    let mut i: usize = 0;
    while i < lines.len()
        invariant
            i <= lines.len(),
            dv == lines.deep_view(),
            dv.len() == lines@.len(),
            r@ == join_with(dv.take(i as int), sep@),
        decreases lines.len() - i,
    {
        proof {
            assert(dv[i as int] == lines@[i as int]@);
            lemma_join_with_take_step(dv, sep@, i as int);
        }
        if i > 0 {
            r.append(sep);
        }
        r.append(lines[i].as_str());
        i = i + 1;
    }
    proof {
        assert(dv.take(dv.len() as int) =~= dv);
    }
    r
}

/// Materializes the ordered buffer into the complete program text. The
/// result depends on nothing but the lines themselves.
pub fn render(lines: &Vec<String>) -> (r: String)
    ensures
        r@ == render_spec(lines.deep_view()),
{
    let mut r = String::from_str("\n#![allow(warnings)]\nfn main() {\n    print!(\"{:?}\", {\n        ");
    let body = join_lines(lines, ";\n");
    r.append(body.as_str());
    r.append("\n    });\n}\n");
    r
}

/// Materialization is deterministic: equal buffers render to equal program
/// texts, so rendering the same ordered buffer twice yields identical
/// output.
pub proof fn lemma_render_deterministic(a: Seq<Seq<char>>, b: Seq<Seq<char>>)
    requires
        a == b,
    ensures
        render_spec(a) == render_spec(b),
{
}

} // verus!
