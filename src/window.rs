use vstd::prelude::*;

use crate::error::PipelineError;
use crate::text::{contains_text, has_substring, line_views, lower_of, lowercase};

verus! {

/// What is known of one open window.
#[derive(Debug)]
pub struct WindowInfo {
    pub title: String,
    pub app_name: String,
    pub dimensions: (u32, u32),
    pub position: (i32, i32),
    pub is_minimized: bool,
    pub is_maximized: bool,
}

/// Window `w` is not minimized and its title holds candidate `c`.
pub open spec fn usable_match(
    candidates: Seq<Seq<char>>,
    titles: Seq<Seq<char>>,
    minimized: Seq<bool>,
    c: int,
    w: int,
) -> bool {
    !minimized[w] && has_substring(titles[w], candidates[c])
}

/// Some window, minimized or not, has a title that holds some candidate.
pub open spec fn any_title_match(candidates: Seq<Seq<char>>, titles: Seq<Seq<char>>) -> bool {
    exists|c: int, w: int|
        0 <= c < candidates.len() && 0 <= w < titles.len() && has_substring(
            #[trigger] titles[w],
            #[trigger] candidates[c],
        )
}

/// Candidate `c` matches some usable window.
pub open spec fn candidate_hits(
    candidates: Seq<Seq<char>>,
    titles: Seq<Seq<char>>,
    minimized: Seq<bool>,
    c: int,
) -> bool {
    exists|w: int| 0 <= w < titles.len() && #[trigger] usable_match(candidates, titles, minimized, c, w)
}

/// Window `w` is usable and matches candidate `c`, no earlier candidate
/// matches a usable window, and no earlier usable window matches `c`.
pub open spec fn picked(
    candidates: Seq<Seq<char>>,
    titles: Seq<Seq<char>>,
    minimized: Seq<bool>,
    c: int,
    w: int,
) -> bool {
    &&& 0 <= c < candidates.len()
    &&& 0 <= w < titles.len()
    &&& usable_match(candidates, titles, minimized, c, w)
    &&& forall|c2: int| 0 <= c2 < c ==> !#[trigger] candidate_hits(candidates, titles, minimized, c2)
    &&& forall|w2: int| 0 <= w2 < w ==> !#[trigger] usable_match(candidates, titles, minimized, c, w2)
}

/// `r` is the window that the priority rule picks: the first usable window
/// matching the first candidate that matches any usable window. With no such
/// window, `WindowMinimized` when a minimized window matched, else
/// `NoMatchingWindow`.
pub open spec fn located(
    candidates: Seq<Seq<char>>,
    titles: Seq<Seq<char>>,
    minimized: Seq<bool>,
    r: Result<usize, PipelineError>,
) -> bool {
    &&& r is Ok ==> exists|c: int| #[trigger] picked(candidates, titles, minimized, c, r->Ok_0 as int)
    &&& r is Err ==> forall|c: int| 0 <= c < candidates.len() ==> !#[trigger] candidate_hits(candidates, titles, minimized, c)
    &&& r is Err ==> r->Err_0 == (if any_title_match(candidates, titles) {
        PipelineError::WindowMinimized
    } else {
        PipelineError::NoMatchingWindow
    })
}

pub open spec fn titles_of(windows: Seq<WindowInfo>) -> Seq<Seq<char>> {
    windows.map_values(|w: WindowInfo| w.title@)
}

pub open spec fn minimized_flags(windows: Seq<WindowInfo>) -> Seq<bool> {
    windows.map_values(|w: WindowInfo| w.is_minimized)
}

/// Picks a window by priority: for each candidate in order, the first window
/// that is not minimized and whose title holds it. Matching is exact; see
/// `find_window` for the case-insensitive form.
pub fn select_window(candidates: &Vec<String>, windows: &Vec<WindowInfo>) -> (r: Result<usize, PipelineError>)
    ensures
        located(line_views(candidates@), titles_of(windows@), minimized_flags(windows@), r),
{
    let ghost cs = line_views(candidates@);
    let ghost ts = titles_of(windows@);
    let ghost ms = minimized_flags(windows@);
    let mut seen_minimized = false;
    let mut c: usize = 0;
    while c < candidates.len()
        invariant
            c <= candidates@.len(),
            cs == line_views(candidates@),
            ts == titles_of(windows@),
            ms == minimized_flags(windows@),
            forall|c2: int| 0 <= c2 < c ==> !#[trigger] candidate_hits(cs, ts, ms, c2),
            seen_minimized <==> exists|c2: int, w: int|
                0 <= c2 < c && 0 <= w < ts.len() && has_substring(#[trigger] ts[w], #[trigger] cs[c2]),
        decreases candidates@.len() - c,
    {
        let mut w: usize = 0;
        let ghost seen_before = seen_minimized;
        while w < windows.len()
            invariant
                c < candidates@.len(),
                w <= windows@.len(),
                cs == line_views(candidates@),
                ts == titles_of(windows@),
                ms == minimized_flags(windows@),
                forall|w2: int| 0 <= w2 < w ==> !#[trigger] usable_match(cs, ts, ms, c as int, w2),
                forall|c2: int| 0 <= c2 < c ==> !#[trigger] candidate_hits(cs, ts, ms, c2),
                seen_before <==> exists|c2: int, w2: int|
                    0 <= c2 < c && 0 <= w2 < ts.len() && has_substring(#[trigger] ts[w2], #[trigger] cs[c2]),
                seen_minimized <==> (seen_before || exists|w2: int|
                    0 <= w2 < w && has_substring(#[trigger] ts[w2], cs[c as int])),
            decreases windows@.len() - w,
        {
            proof {
                assert(ts[w as int] == windows@[w as int].title@);
                assert(ms[w as int] == windows@[w as int].is_minimized);
                assert(cs[c as int] == candidates@[c as int]@);
            }
            if contains_text(windows[w].title.as_str(), candidates[c].as_str()) {
                if !windows[w].is_minimized {
                    let r: Result<usize, PipelineError> = Ok(w);
                    assert(r->Ok_0 == w);
                    assert(picked(cs, ts, ms, c as int, r->Ok_0 as int));
                    return r;
                }
                seen_minimized = true;
            }
            w = w + 1;
        }
        c = c + 1;
    }
    if seen_minimized {
        Err(PipelineError::WindowMinimized)
    } else {
        Err(PipelineError::NoMatchingWindow)
    }
}

fn lower_all(v: &Vec<String>) -> (r: Vec<String>)
    ensures
        line_views(r@) == line_views(v@).map_values(|t: Seq<char>| lower_of(t)),
{
    let mut out: Vec<String> = Vec::new();
    let mut k: usize = 0;
    while k < v.len()
        invariant
            k <= v@.len(),
            out@.len() == k,
            forall|t: int| 0 <= t < k ==> #[trigger] out@[t]@ == lower_of(v@[t]@),
        decreases v@.len() - k,
    {
        out.push(lowercase(v[k].as_str()));
        k = k + 1;
    }
    assert(line_views(out@) =~= line_views(v@).map_values(|t: Seq<char>| lower_of(t)));
    out
}

pub open spec fn lowered_titles(windows: Seq<WindowInfo>) -> Seq<Seq<char>> {
    windows.map_values(|w: WindowInfo| lower_of(w.title@))
}

/// Finds the window to capture among `windows`, by the case-insensitive
/// candidate substrings `window_titles` in priority order: the first
/// candidate that any usable window matches wins, not the best match.
/// Minimized windows are never picked.
pub fn find_window(window_titles: &Vec<String>, windows: &Vec<WindowInfo>) -> (r: Result<usize, PipelineError>)
    ensures
        located(
            line_views(window_titles@).map_values(|t: Seq<char>| lower_of(t)),
            lowered_titles(windows@),
            minimized_flags(windows@),
            r,
        ),
{
    let candidates = lower_all(window_titles);
    let mut lowered: Vec<WindowInfo> = Vec::new();
    let mut k: usize = 0;
    while k < windows.len()
        invariant
            k <= windows@.len(),
            lowered@.len() == k,
            forall|t: int| 0 <= t < k ==> (#[trigger] lowered@[t]).title@ == lower_of(windows@[t].title@),
            forall|t: int| 0 <= t < k ==> (#[trigger] lowered@[t]).is_minimized == windows@[t].is_minimized,
        decreases windows@.len() - k,
    {
        let w = &windows[k];
        lowered.push(
            WindowInfo {
                title: lowercase(w.title.as_str()),
                app_name: w.app_name.clone(),
                dimensions: w.dimensions,
                position: w.position,
                is_minimized: w.is_minimized,
                is_maximized: w.is_maximized,
            },
        );
        k = k + 1;
    }
    assert(titles_of(lowered@) =~= lowered_titles(windows@));
    assert(minimized_flags(lowered@) =~= minimized_flags(windows@));
    select_window(&candidates, &lowered)
}

/// The title substrings of the windows that may show the game, in priority
/// order.
pub fn capture_candidates() -> (r: Vec<String>)
    ensures
        line_views(r@) == seq![".jpg"@, "notepad"@, "hunt"@, "Hunt: Showdown"@],
{
    let r = vec![
        String::from_str(".jpg"),
        String::from_str("notepad"),
        String::from_str("hunt"),
        String::from_str("Hunt: Showdown"),
    ];
    assert(line_views(r@) =~= seq![".jpg"@, "notepad"@, "hunt"@, "Hunt: Showdown"@]);
    r
}

} // verus!
