//! Assembly of SVG animation text from already rendered pieces.
//!
//! The animation document is plain text built from computed values: a
//! `d` attribute path per frame, the `;`-separated frame lists that feed
//! SVG `animate` attributes, and the surrounding document markup.  The
//! functions here perform that assembly and state the exact character
//! sequence produced; rendering the numeric values themselves to text is
//! the caller's business.

use vstd::prelude::*;
use vstd::string::StringExecFns;

verus! {

/// The views of a sequence of strings.
pub open spec fn views_of(frames: Seq<String>) -> Seq<Seq<char>> {
    frames.map_values(|f: String| f@)
}

/// The views of a sequence of coordinate pairs rendered as strings.
pub open spec fn coord_views(points: Seq<(String, String)>) -> Seq<(Seq<char>, Seq<char>)> {
    points.map_values(|p: (String, String)| (p.0@, p.1@))
}

/// The frame list as an SVG `values` attribute: the frames in order,
/// separated by `;`, nothing else.
pub open spec fn spec_frames(frames: Seq<Seq<char>>) -> Seq<char>
    decreases frames.len(),
{
    if frames.len() == 0 {
        Seq::empty()
    } else if frames.len() == 1 {
        frames[0]
    } else {
        spec_frames(frames.drop_last()) + seq![';'] + frames.last()
    }
}

/// A polyline as an SVG path `d` attribute: a move to the first point,
/// then a line to each further point; the fixed text `M 0.0 0.0` when
/// there is no point at all.
pub open spec fn spec_path_data(points: Seq<(Seq<char>, Seq<char>)>) -> Seq<char>
    decreases points.len(),
{
    if points.len() == 0 {
        "M 0.0 0.0"@
    } else if points.len() == 1 {
        "M "@ + points[0].0 + " "@ + points[0].1
    } else {
        spec_path_data(points.drop_last()) + "L "@ + points.last().0 + " "@ + points.last().1
    }
}

/// The complete animated SVG document: the drawn path so far (animated
/// over `paths`, resting on `last_path`) and the rotating arm chain
/// (animated over `arms`), both keyed by `times` over a duration of `dur`
/// seconds, on a `back`-filled canvas of the given width and height.
pub open spec fn spec_svg_document(
    width: Seq<char>,
    height: Seq<char>,
    back: Seq<char>,
    dur: Seq<char>,
    sw: Seq<char>,
    times: Seq<char>,
    last_path: Seq<char>,
    paths: Seq<char>,
    arms: Seq<char>,
) -> Seq<char> {
    "<svg xmlns=\"http://www.w3.org/2000/svg\" width=\""@ + width + "\" height=\""@ + height
        + "\"><g><rect width=\"100%\" height=\"100%\" fill=\""@ + back + "\"/><path d=\""@
        + last_path + "\" stroke-width=\""@ + sw
        + "\" stroke=\"#0022e4\" fill=\"none\"><animate attributeName=\"d\" values=\""@ + paths
        + "\" keyTimes=\""@ + times + "\" dur=\""@ + dur
        + "s\" begin=\"0s\" repeatCount=\"1\"/></path><path d=\"\" stroke-width=\""@ + sw
        + "\" stroke=\"#000\" fill=\"none\"><animate attributeName=\"d\" values=\""@ + arms
        + "\" keyTimes=\""@ + times + "\" dur=\""@ + dur
        + "s\" begin=\"0s\" repeatCount=\"indefinite\"/></path></g></svg>"@
}

/// Builds the animated SVG document around the given rendered pieces.
pub fn svg_document(
    width: &str,
    height: &str,
    back: &str,
    dur: &str,
    sw: &str,
    times: &str,
    last_path: &str,
    paths: &str,
    arms: &str,
) -> (r: String)
    ensures
        r@ == spec_svg_document(width@, height@, back@, dur@, sw@, times@, last_path@, paths@, arms@),
{
    let mut r = String::from_str("<svg xmlns=\"http://www.w3.org/2000/svg\" width=\"");
    r.append(width);
    r.append("\" height=\"");
    r.append(height);
    r.append("\"><g><rect width=\"100%\" height=\"100%\" fill=\"");
    r.append(back);
    r.append("\"/><path d=\"");
    r.append(last_path);
    r.append("\" stroke-width=\"");
    r.append(sw);
    r.append("\" stroke=\"#0022e4\" fill=\"none\"><animate attributeName=\"d\" values=\"");
    r.append(paths);
    r.append("\" keyTimes=\"");
    r.append(times);
    r.append("\" dur=\"");
    r.append(dur);
    r.append("s\" begin=\"0s\" repeatCount=\"1\"/></path><path d=\"\" stroke-width=\"");
    r.append(sw);
    r.append("\" stroke=\"#000\" fill=\"none\"><animate attributeName=\"d\" values=\"");
    r.append(arms);
    r.append("\" keyTimes=\"");
    r.append(times);
    r.append("\" dur=\"");
    r.append(dur);
    r.append("s\" begin=\"0s\" repeatCount=\"indefinite\"/></path></g></svg>");
    proof {
        assert(r@ =~= spec_svg_document(
            width@,
            height@,
            back@,
            dur@,
            sw@,
            times@,
            last_path@,
            paths@,
            arms@,
        ));
    }
    r
}

/// The message reported when a command-line value cannot be read as the
/// type `t` expected for the argument `arg`.
pub fn parse_fail(t: &str, arg: &str) -> (r: String)
    ensures
        r@ == "Failed to parse "@ + t@ + " from "@ + arg@,
{
    let mut r = String::from_str("Failed to parse ");
    r.append(t);
    r.append(" from ");
    r.append(arg);
    proof {
        assert(r@ =~= "Failed to parse "@ + t@ + " from "@ + arg@);
    }
    r
}

/// Joins the given frames with `;` into one SVG attribute value.
pub fn construct_frames(frames: &Vec<String>) -> (r: String)
    ensures
        r@ == spec_frames(views_of(frames@)),
{
    let ghost views = views_of(frames@);
    let mut r = String::new();
    let mut i: usize = 0;
    while i < frames.len()
        invariant
            i <= frames.len(),
            views == views_of(frames@),
            views.len() == frames@.len(),
            r@ == spec_frames(views.take(i as int)),
        decreases frames.len() - i,
    {
        if i > 0 {
            r.append(";");
        }
        r.append(frames[i].as_str());
        proof {
            reveal_strlit(";");
            let pre = views.take(i as int);
            let post = views.take(i as int + 1);
            assert(post.drop_last() =~= pre);
            assert(post.last() == views[i as int]);
            assert(r@ =~= spec_frames(post));
        }
        i = i + 1;
    }
    proof {
        assert(views.take(frames@.len() as int) =~= views);
    }
    r
}

/// Builds the path `d` attribute that draws the given points in order.
pub fn construct_path(points: &Vec<(String, String)>) -> (r: String)
    ensures
        r@ == spec_path_data(coord_views(points@)),
{
    let ghost views = coord_views(points@);
    if points.len() == 0 {
        return String::from_str("M 0.0 0.0");
    }
    let mut r = String::from_str("M ");
    r.append(points[0].0.as_str());
    r.append(" ");
    r.append(points[0].1.as_str());
    proof {
        assert(views.take(1).len() == 1);
        assert(r@ =~= spec_path_data(views.take(1)));
    }
    let mut i: usize = 1;
    while i < points.len()
        invariant
            1 <= i <= points.len(),
            views == coord_views(points@),
            views.len() == points@.len(),
            r@ == spec_path_data(views.take(i as int)),
        decreases points.len() - i,
    {
        r.append("L ");
        r.append(points[i].0.as_str());
        r.append(" ");
        r.append(points[i].1.as_str());
        proof {
            let pre = views.take(i as int);
            let post = views.take(i as int + 1);
            assert(post.drop_last() =~= pre);
            assert(post.last() == views[i as int]);
            assert(r@ =~= spec_path_data(post));
        }
        i = i + 1;
    }
    proof {
        assert(views.take(points@.len() as int) =~= views);
    }
    r
}

} // verus!
