use vstd::prelude::*;
use vstd::string::*;
use crate::point::Point;

verus! {

/// The character for the digit `d`.
pub open spec fn digit_char(d: int) -> char {
    if d == 0 {
        '0'
    } else if d == 1 {
        '1'
    } else if d == 2 {
        '2'
    } else if d == 3 {
        '3'
    } else if d == 4 {
        '4'
    } else if d == 5 {
        '5'
    } else if d == 6 {
        '6'
    } else if d == 7 {
        '7'
    } else if d == 8 {
        '8'
    } else {
        '9'
    }
}

/// The decimal digits of `n`, without leading zeros.
pub open spec fn decimal_digits(n: nat) -> Seq<char>
    decreases n,
{
    if n < 10 {
        seq![digit_char(n as int)]
    } else {
        decimal_digits(n / 10).push(digit_char((n % 10) as int))
    }
}

/// `i` in decimal, with a minus sign before a negative number.
pub open spec fn decimal(i: int) -> Seq<char> {
    if i < 0 {
        seq!['-'] + decimal_digits((-i) as nat)
    } else {
        decimal_digits(i as nat)
    }
}

/// The `points` attribute of the polygon through `vertices`: for each
/// vertex in order its `x`, a comma, its `y` and a space.
pub open spec fn points_attribute(vertices: Seq<Point>) -> Seq<char>
    decreases vertices.len(),
{
    if vertices.len() == 0 {
        Seq::<char>::empty()
    } else {
        points_attribute(vertices.drop_last()) + decimal(vertices.last().x() as int) + seq![',']
            + decimal(vertices.last().y() as int) + seq![' ']
    }
}

/// The SVG document of the polygon through `vertices` on a canvas
/// `width` wide and `height` high.
pub open spec fn document(width: int, height: int, vertices: Seq<Point>) -> Seq<char> {
    "<svg viewBox=\"0 0 "@ + decimal(width) + " "@ + decimal(height)
        + "\" xmlns=\"http://www.w3.org/2000/svg\">"@ + "<polygon points=\""@ + points_attribute(
        vertices,
    ) + "\" fill=\"none\" stroke=\"black\" />"@ + "</svg>"@
}

fn digit_str(d: u32) -> (s: &'static str)
    requires
        d < 10,
    ensures
        s@ == seq![digit_char(d as int)],
{
    proof {
        reveal_strlit("0");
        reveal_strlit("1");
        reveal_strlit("2");
        reveal_strlit("3");
        reveal_strlit("4");
        reveal_strlit("5");
        reveal_strlit("6");
        reveal_strlit("7");
        reveal_strlit("8");
        reveal_strlit("9");
    }
    let s = if d == 0 {
        "0"
    } else if d == 1 {
        "1"
    } else if d == 2 {
        "2"
    } else if d == 3 {
        "3"
    } else if d == 4 {
        "4"
    } else if d == 5 {
        "5"
    } else if d == 6 {
        "6"
    } else if d == 7 {
        "7"
    } else if d == 8 {
        "8"
    } else {
        "9"
    };
    assert(s@ =~= seq![digit_char(d as int)]);
    s
}

fn append_digits(out: &mut String, n: u32)
    ensures
        final(out)@ == old(out)@ + decimal_digits(n as nat),
    decreases n,
{
    if n >= 10 {
        append_digits(out, n / 10);
    }
    out.append(digit_str(n % 10));
    proof {
        assert(out@ =~= old(out)@ + decimal_digits(n as nat));
    }
}

/// Appends `i` in decimal to `out`.
pub fn append_decimal(out: &mut String, i: i32)
    ensures
        final(out)@ == old(out)@ + decimal(i as int),
{
    if i < 0 {
        proof {
            reveal_strlit("-");
        }
        out.append("-");
        let n: u32 = (-(i as i64)) as u32;
        append_digits(out, n);
        proof {
            assert(out@ =~= old(out)@ + decimal(i as int));
        }
    } else {
        append_digits(out, i as u32);
    }
}

/// The `points` attribute of the polygon through `vertices`.
pub fn points_string(vertices: &Vec<Point>) -> (s: String)
    ensures
        s@ == points_attribute(vertices@),
{
    let mut points = String::new();
    let mut i: usize = 0;
    while i < vertices.len()
        invariant
            i <= vertices.len(),
            points@ == points_attribute(vertices@.take(i as int)),
        decreases vertices.len() - i,
    {
        let ghost before = points@;
        let vertex = vertices[i];
        append_decimal(&mut points, vertex.x());
        proof {
            reveal_strlit(",");
            reveal_strlit(" ");
        }
        points.append(",");
        append_decimal(&mut points, vertex.y());
        points.append(" ");
        proof {
            let next = vertices@.take(i + 1);
            assert(next.drop_last() =~= vertices@.take(i as int));
            assert(next.last() == vertex);
            assert(points@ =~= before + decimal(vertex.x() as int) + seq![','] + decimal(
                vertex.y() as int,
            ) + seq![' ']);
        }
        i = i + 1;
    }
    proof {
        assert(vertices@.take(vertices.len() as int) =~= vertices@);
    }
    points
}

/// The SVG document of the polygon through `vertices` on a canvas
/// `width` wide and `height` high.
pub fn document_string(width: i32, height: i32, vertices: &Vec<Point>) -> (s: String)
    ensures
        s@ == document(width as int, height as int, vertices@),
{
    let mut svg = String::new();
    svg.append("<svg viewBox=\"0 0 ");
    append_decimal(&mut svg, width);
    svg.append(" ");
    append_decimal(&mut svg, height);
    svg.append("\" xmlns=\"http://www.w3.org/2000/svg\">");
    svg.append("<polygon points=\"");
    let points = points_string(vertices);
    svg.append(points.as_str());
    svg.append("\" fill=\"none\" stroke=\"black\" />");
    svg.append("</svg>");
    proof {
        assert(svg@ =~= document(width as int, height as int, vertices@));
    }
    svg
}

} // verus!
