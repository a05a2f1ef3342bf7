//! Building the texts that are handed to the host: lists joined by a
//! separator, style declarations, and class names.

use vstd::prelude::*;
use vstd::string::*;

verus! {

/// The characters of each text of a list.
pub open spec fn texts(parts: Seq<&str>) -> Seq<Seq<char>> {
    parts.map_values(|s: &str| s@)
}

/// The texts of `parts` in a row, with `sep` between each two neighbours.
pub open spec fn joined(parts: Seq<Seq<char>>, sep: Seq<char>) -> Seq<char>
    decreases parts.len(),
{
    if parts.len() == 0 {
        Seq::empty()
    } else if parts.len() == 1 {
        parts[0]
    } else {
        joined(parts.drop_last(), sep) + sep + parts.last()
    }
}

/// One style declaration: the property, a colon and a blank, the value, a
/// semicolon.
pub open spec fn declaration(property: Seq<char>, value: Seq<char>) -> Seq<char> {
    property + ": "@ + value + ";"@
}

/// The declarations for a list of property and value pairs.
pub open spec fn declarations(css: Seq<(&str, &str)>) -> Seq<Seq<char>> {
    css.map_values(|d: (&str, &str)| declaration(d.0@, d.1@))
}

/// Joins texts with a separator.
pub fn join(parts: &[&str], sep: &str) -> (out: String)
    ensures
        out@ == joined(texts(parts@), sep@),
{
    let mut out = String::new();
    let mut i: usize = 0;
    while i < parts.len()
        invariant
            i <= parts.len(),
            out@ == joined(texts(parts@).take(i as int), sep@),
        decreases parts.len() - i,
    {
        proof {
            let all = texts(parts@);
            assert(all.take(i as int + 1).drop_last() == all.take(i as int));
            assert(all.take(i as int + 1).last() == parts@[i as int]@);
        }
        if i > 0 {
            out.append(sep);
        }
        out.append(parts[i]);
        i += 1;
    }
    proof {
        assert(texts(parts@).take(parts.len() as int) == texts(parts@));
    }
    out
}

/// Writes a list of property and value pairs as the text of a style
/// attribute: one declaration each, a blank between them.
pub fn style_text(css: &[(&str, &str)]) -> (out: String)
    ensures
        out@ == joined(declarations(css@), " "@),
{
    let mut out = String::new();
    let mut i: usize = 0;
    while i < css.len()
        invariant
            i <= css.len(),
            out@ == joined(declarations(css@).take(i as int), " "@),
        decreases css.len() - i,
    {
        proof {
            let all = declarations(css@);
            assert(all.take(i as int + 1).drop_last() == all.take(i as int));
            assert(all.take(i as int + 1).last() == declaration(css@[i as int].0@, css@[i as int].1@));
        }
        if i > 0 {
            out.append(" ");
        }
        let ghost before = out@;
        let (property, value) = css[i];
        out.append(property);
        out.append(": ");
        out.append(value);
        out.append(";");
        assert(out@ == before + declaration(property@, value@));
        i += 1;
    }
    proof {
        assert(declarations(css@).take(css.len() as int) == declarations(css@));
    }
    out
}

} // verus!
