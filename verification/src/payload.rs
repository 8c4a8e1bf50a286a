//! The lyrics record and its annotated text runs.

use vstd::prelude::*;

verus! {

/// Mathematical value of an optional text: the characters, when present.
pub open spec fn text_view(text: Option<String>) -> Option<Seq<char>> {
    match text {
        Some(s) => Some(s@),
        None => None,
    }
}

/// Mathematical value of one annotated text run.
pub struct SegmentView {
    pub original: Option<Seq<char>>,
    pub annotation: Option<Seq<char>>,
    pub segment_type: Option<Seq<char>>,
}

/// One run of text with an optional reading written above it.
///
/// `segment_type` is a free label chosen by whoever aligned the lyrics; it is
/// stored and handed on, never interpreted.
#[derive(Debug)]
pub struct FuriganaSegment {
    pub original: Option<String>,
    pub annotation: Option<String>,
    pub segment_type: Option<String>,
}

impl View for FuriganaSegment {
    type V = SegmentView;

    open spec fn view(&self) -> SegmentView {
        SegmentView {
            original: text_view(self.original),
            annotation: text_view(self.annotation),
            segment_type: text_view(self.segment_type),
        }
    }
}

/// Mathematical value of an optional run list: the runs' values, in order.
pub open spec fn segments_view(runs: Option<Vec<FuriganaSegment>>) -> Option<Seq<SegmentView>> {
    match runs {
        Some(v) => Some(v@.map_values(|s: FuriganaSegment| s@)),
        None => None,
    }
}

/// Copies an optional text.
pub fn copy_text(text: &Option<String>) -> (res: Option<String>)
    ensures
        text_view(res) == text_view(*text),
{
    match text {
        Some(s) => Some(s.clone()),
        None => None,
    }
}

/// Tells whether two optional texts are both absent or hold the same characters.
pub fn same_text(a: &Option<String>, b: &Option<String>) -> (res: bool)
    ensures
        res == (text_view(*a) == text_view(*b)),
{
    match (a, b) {
        (Some(x), Some(y)) => *x == *y,
        (None, None) => true,
        _ => false,
    }
}

impl Clone for FuriganaSegment {
    fn clone(&self) -> (res: Self)
        ensures
            res@ == self@,
    {
        FuriganaSegment {
            original: copy_text(&self.original),
            annotation: copy_text(&self.annotation),
            segment_type: copy_text(&self.segment_type),
        }
    }
}

impl Default for FuriganaSegment {
    fn default() -> (res: Self)
        ensures
            res@ == (SegmentView { original: None, annotation: None, segment_type: None }),
    {
        FuriganaSegment { original: None, annotation: None, segment_type: None }
    }
}

impl PartialEq for FuriganaSegment {
    fn eq(&self, other: &Self) -> (res: bool) {
        same_text(&self.original, &other.original) && same_text(
            &self.annotation,
            &other.annotation,
        ) && same_text(&self.segment_type, &other.segment_type)
    }
}

impl vstd::std_specs::cmp::PartialEqSpecImpl for FuriganaSegment {
    open spec fn obeys_eq_spec() -> bool {
        true
    }

    open spec fn eq_spec(&self, other: &Self) -> bool {
        self@ == other@
    }
}

/// Copies a run list, run by run.
pub fn copy_segments(runs: &Option<Vec<FuriganaSegment>>) -> (res: Option<Vec<FuriganaSegment>>)
    ensures
        segments_view(res) == segments_view(*runs),
{
    match runs {
        None => None,
        Some(v) => {
            let mut out: Vec<FuriganaSegment> = Vec::new();
            let mut i: usize = 0;
            while i < v.len()
                invariant
                    i <= v.len(),
                    out.len() == i,
                    forall|k: int| 0 <= k < i ==> (#[trigger] out[k])@ == v[k]@,
                decreases v.len() - i,
            {
                out.push(v[i].clone());
                i = i + 1;
            }
            assert(out@.map_values(|s: FuriganaSegment| s@) =~= v@.map_values(
                |s: FuriganaSegment| s@,
            ));
            Some(out)
        },
    }
}

/// Tells whether two run lists are both absent, or as long as each other with
/// equal runs at every place.
pub fn same_segments(a: &Option<Vec<FuriganaSegment>>, b: &Option<Vec<FuriganaSegment>>) -> (res:
    bool)
    ensures
        res == (segments_view(*a) == segments_view(*b)),
{
    match (a, b) {
        (None, None) => true,
        (Some(x), Some(y)) => {
            let ghost xs = x@.map_values(|s: FuriganaSegment| s@);
            let ghost ys = y@.map_values(|s: FuriganaSegment| s@);
            if x.len() != y.len() {
                assert(xs.len() != ys.len());
                return false;
            }
            let mut i: usize = 0;
            while i < x.len()
                invariant
                    i <= x.len(),
                    x.len() == y.len(),
                    xs == x@.map_values(|s: FuriganaSegment| s@),
                    ys == y@.map_values(|s: FuriganaSegment| s@),
                    segments_view(*a) == Some(xs),
                    segments_view(*b) == Some(ys),
                    forall|k: int| 0 <= k < i ==> (#[trigger] x[k])@ == y[k]@,
                decreases x.len() - i,
            {
                if !(x[i] == y[i]) {
                    assert(xs[i as int] != ys[i as int]);
                    return false;
                }
                i = i + 1;
            }
            assert(xs =~= ys);
            true
        },
        _ => false,
    }
}

/// Mathematical value of the lyrics record: every field as plain data.
pub struct PayloadView {
    pub track_id: Option<Seq<char>>,
    pub title: Option<Seq<char>>,
    pub artist: Option<Seq<char>>,
    pub active_line: Option<Seq<char>>,
    pub next_line: Option<Seq<char>>,
    pub position_ms: Option<u64>,
    pub is_playing: Option<bool>,
    pub active_segments: Option<Seq<SegmentView>>,
    pub next_segments: Option<Seq<SegmentView>>,
    pub active_translation: Option<Seq<char>>,
    pub next_translation: Option<Seq<char>>,
    pub show_translation: Option<bool>,
}

impl PayloadView {
    /// The record with every field absent, as it stands before the first write.
    pub open spec fn empty() -> PayloadView {
        PayloadView {
            track_id: None,
            title: None,
            artist: None,
            active_line: None,
            next_line: None,
            position_ms: None,
            is_playing: None,
            active_segments: None,
            next_segments: None,
            active_translation: None,
            next_translation: None,
            show_translation: None,
        }
    }
}

/// What should be on display right now: the track, the line being sung and
/// the one after it, their annotated forms and translations, and the playback
/// position.
///
/// Each field may be absent on its own. An absent field is left to whoever
/// renders the record; it never means "keep what was there before".
#[derive(Debug)]
pub struct LyricsPayload {
    pub track_id: Option<String>,
    pub title: Option<String>,
    pub artist: Option<String>,
    pub active_line: Option<String>,
    pub next_line: Option<String>,
    pub position_ms: Option<u64>,
    pub is_playing: Option<bool>,
    pub active_segments: Option<Vec<FuriganaSegment>>,
    pub next_segments: Option<Vec<FuriganaSegment>>,
    pub active_translation: Option<String>,
    pub next_translation: Option<String>,
    pub show_translation: Option<bool>,
}

impl View for LyricsPayload {
    type V = PayloadView;

    open spec fn view(&self) -> PayloadView {
        PayloadView {
            track_id: text_view(self.track_id),
            title: text_view(self.title),
            artist: text_view(self.artist),
            active_line: text_view(self.active_line),
            next_line: text_view(self.next_line),
            position_ms: self.position_ms,
            is_playing: self.is_playing,
            active_segments: segments_view(self.active_segments),
            next_segments: segments_view(self.next_segments),
            active_translation: text_view(self.active_translation),
            next_translation: text_view(self.next_translation),
            show_translation: self.show_translation,
        }
    }
}

impl Clone for LyricsPayload {
    fn clone(&self) -> (res: Self)
        ensures
            res@ == self@,
    {
        LyricsPayload {
            track_id: copy_text(&self.track_id),
            title: copy_text(&self.title),
            artist: copy_text(&self.artist),
            active_line: copy_text(&self.active_line),
            next_line: copy_text(&self.next_line),
            position_ms: self.position_ms,
            is_playing: self.is_playing,
            active_segments: copy_segments(&self.active_segments),
            next_segments: copy_segments(&self.next_segments),
            active_translation: copy_text(&self.active_translation),
            next_translation: copy_text(&self.next_translation),
            show_translation: self.show_translation,
        }
    }
}

impl Default for LyricsPayload {
    fn default() -> (res: Self)
        ensures
            res@ == PayloadView::empty(),
    {
        LyricsPayload {
            track_id: None,
            title: None,
            artist: None,
            active_line: None,
            next_line: None,
            position_ms: None,
            is_playing: None,
            active_segments: None,
            next_segments: None,
            active_translation: None,
            next_translation: None,
            show_translation: None,
        }
    }
}

impl PartialEq for LyricsPayload {
    fn eq(&self, other: &Self) -> (res: bool) {
        same_text(&self.track_id, &other.track_id) && same_text(&self.title, &other.title)
            && same_text(&self.artist, &other.artist) && same_text(
            &self.active_line,
            &other.active_line,
        ) && same_text(&self.next_line, &other.next_line) && self.position_ms == other.position_ms
            && self.is_playing == other.is_playing && same_segments(
            &self.active_segments,
            &other.active_segments,
        ) && same_segments(&self.next_segments, &other.next_segments) && same_text(
            &self.active_translation,
            &other.active_translation,
        ) && same_text(&self.next_translation, &other.next_translation) && self.show_translation
            == other.show_translation
    }
}

impl vstd::std_specs::cmp::PartialEqSpecImpl for LyricsPayload {
    open spec fn obeys_eq_spec() -> bool {
        true
    }

    open spec fn eq_spec(&self, other: &Self) -> bool {
        self@ == other@
    }
}

} // verus!
