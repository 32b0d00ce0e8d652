//! Incremental segmentation of stable partial transcripts.
use vstd::prelude::*;

use crate::text::{
    chars_of, has_prefix, lemma_trim_empty_iff_blank, lemma_trim_start_head, lemma_trim_start_skip, skip_ws_forward,
    string_of, string_of_range, trim, trim_bounds, trim_start,
};

verus! {

/// What one call of `next_segment` does: the text remembered afterwards, and
/// the segment handed out, if any.
pub open spec fn segment_step(last: Seq<char>, stable: Seq<char>) -> (Seq<char>, Option<Seq<char>>) {
    if !last.is_prefix_of(stable) {
        // A new utterance: remember it whole and hand out all of it, trimmed.
        (stable, if trim(stable).len() == 0 { None } else { Some(trim(stable)) })
    } else if stable.len() <= last.len() {
        (last, None)
    } else {
        let delta = trim_start(stable.skip(last.len() as int));
        if delta.len() == 0 {
            (last, None)
        } else {
            (stable, Some(delta))
        }
    }
}

/// Holds the last-translated stable text and computes the incremental delta
/// when a new stable partial arrives.
pub struct TextSegmenter {
    last_translated: String,
}

impl View for TextSegmenter {
    type V = Seq<char>;

    /// The text already handed out for translation.
    closed spec fn view(&self) -> Seq<char> {
        self.last_translated@
    }
}

impl TextSegmenter {
    /// A segmenter that has handed out nothing yet.
    pub fn new() -> (s: Self)
        ensures
            s@ == Seq::<char>::empty(),
    {
        TextSegmenter { last_translated: String::new() }
    }

    /// Returns the text segment that should be translated now as the delta
    /// between `stable_text` and the last text already processed.
    /// Returns `None` when nothing new needs translation.
    pub fn next_segment(&mut self, stable_text: &str) -> (r: Option<String>)
        ensures
            final(self)@ == segment_step(old(self)@, stable_text@).0,
            r matches Some(t) ==> segment_step(old(self)@, stable_text@).1 == Some(t@),
            r is None ==> segment_step(old(self)@, stable_text@).1 is None,
    {
        let stable = chars_of(stable_text);
        let last = chars_of(self.last_translated.as_str());
        if !has_prefix(&stable, &last) {
            // New utterance detected — reset and return the full text.
            self.last_translated = string_of(&stable);
            let (i, j) = trim_bounds(&stable, 0, stable.len());
            assert(stable@.subrange(0, stable@.len() as int) == stable@);
            if i == j {
                return None;
            }
            return Some(string_of_range(&stable, i, j));
        }
        if stable.len() <= last.len() {
            return None;
        }
        let i = skip_ws_forward(&stable, last.len(), stable.len());
        proof {
            let d = stable@.skip(last@.len() as int);
            lemma_trim_start_skip(d, i - last@.len());
            assert(d.skip(i - last@.len()) == stable@.subrange(i as int, stable@.len() as int));
            let t = stable@.subrange(i as int, stable@.len() as int);
            if i < stable.len() {
                assert(t[0] == stable@[i as int]);
            }
            assert(trim_start(t) == t);
            assert(forall|k: int| last@.len() <= k < i ==> crate::text::is_ws(#[trigger] stable@[k]));
            assert forall|k: int| 0 <= k < i - last@.len() implies crate::text::is_ws(#[trigger] d[k]) by {
                assert(d[k] == stable@[k + last@.len()]);
            }
        }
        if i == stable.len() {
            return None;
        }
        self.last_translated = string_of(&stable);
        Some(string_of_range(&stable, i, stable.len()))
    }

    /// Reset state for a new utterance (e.g. when a final transcript resets the pipeline).
    pub fn reset(&mut self)
        ensures
            final(self)@ == Seq::<char>::empty(),
    {
        self.last_translated = String::new();
    }
}

} // verus!

verus! {

/// `trim_start` of a sequence is one of its suffixes.
pub proof fn lemma_trim_start_suffix(s: Seq<char>)
    ensures
        trim_start(s).is_suffix_of(s),
    decreases s.len(),
{
    if s.len() > 0 && crate::text::is_ws(s[0]) {
        lemma_trim_start_suffix(s.drop_first());
        assert(trim_start(s) =~= s.subrange(s.len() - trim_start(s).len(), s.len() as int));
    } else {
        assert(s =~= s.subrange(0, s.len() as int));
    }
}

/// Handing the same stable text over twice yields nothing the second time,
/// and leaves the remembered text as the first call left it.
pub proof fn law_repeat_is_silent(last: Seq<char>, stable: Seq<char>)
    ensures
        segment_step(segment_step(last, stable).0, stable) == (segment_step(last, stable).0, None::<Seq<char>>),
{
    assert(stable.is_prefix_of(stable)) by {
        assert(stable =~= stable.subrange(0, stable.len() as int));
    }
}

/// On a fresh (or reset) segmenter the first segment is the text without its
/// leading whitespace, and nothing at all when the text is blank.
pub proof fn law_fresh_start(stable: Seq<char>)
    ensures
        segment_step(Seq::<char>::empty(), stable) == (if trim_start(stable).len() == 0 {
            (Seq::<char>::empty(), None::<Seq<char>>)
        } else {
            (stable, Some(trim_start(stable)))
        }),
{
    assert(Seq::<char>::empty().is_prefix_of(stable)) by {
        assert(Seq::<char>::empty() =~= stable.subrange(0, 0));
    }
    assert(stable.skip(0) =~= stable);
    if stable.len() == 0 {
        assert(trim_start(stable) == stable);
    }
}

/// A segment handed out is never empty and the segmenter then remembers the
/// stable text; for a new utterance it is the whole text trimmed, and when the
/// text extends what was remembered it is a suffix of the new part, so no
/// character already handed out is handed out again.
pub proof fn law_segment_is_new_text(last: Seq<char>, stable: Seq<char>)
    requires
        segment_step(last, stable).1 is Some,
    ensures
        segment_step(last, stable).0 == stable,
        segment_step(last, stable).1->0.len() > 0,
        !last.is_prefix_of(stable) ==> segment_step(last, stable).1->0 == trim(stable),
        last.is_prefix_of(stable) ==> segment_step(last, stable).1->0.is_suffix_of(
            stable.skip(last.len() as int),
        ),
{
    if last.is_prefix_of(stable) {
        lemma_trim_start_suffix(stable.skip(last.len() as int));
    }
}

/// Whether `d` occurs in `s` as a contiguous piece.
pub open spec fn occurs_in(d: Seq<char>, s: Seq<char>) -> bool {
    exists|i: int| 0 <= i && i + d.len() <= s.len() && #[trigger] s.subrange(i, i + d.len()) == d
}

proof fn lemma_trim_end_prefix(s: Seq<char>)
    ensures
        crate::text::trim_end(s).is_prefix_of(s),
    decreases s.len(),
{
    if s.len() > 0 && crate::text::is_ws(s.last()) {
        lemma_trim_end_prefix(s.drop_last());
        assert(crate::text::trim_end(s) =~= s.subrange(0, crate::text::trim_end(s).len() as int));
    } else {
        assert(s =~= s.subrange(0, s.len() as int));
    }
}

/// A segment handed out is never blank, never starts with whitespace, and
/// occurs in the text it was taken from.
pub proof fn law_segment_is_clean(last: Seq<char>, stable: Seq<char>)
    requires
        segment_step(last, stable).1 is Some,
    ensures
        trim(segment_step(last, stable).1->0).len() > 0,
        !crate::text::is_ws(segment_step(last, stable).1->0[0]),
        occurs_in(segment_step(last, stable).1->0, stable),
{
    let d = segment_step(last, stable).1->0;
    if !last.is_prefix_of(stable) {
        let a = trim_start(stable);
        lemma_trim_start_suffix(stable);
        lemma_trim_end_prefix(a);
        lemma_trim_start_head(stable);
        assert(d == crate::text::trim_end(a));
        assert(d[0] == a[0]);
        let i = stable.len() - a.len();
        assert(stable.subrange(i, i + d.len()) =~= d) by {
            assert(a =~= stable.subrange(i, stable.len() as int));
        }
    } else {
        let x = stable.skip(last.len() as int);
        lemma_trim_start_suffix(x);
        lemma_trim_start_head(x);
        let i = stable.len() - d.len();
        assert(stable.subrange(i, i + d.len()) =~= d) by {
            assert(d =~= x.subrange(x.len() - d.len(), x.len() as int));
        }
    }
    assert(!crate::text::is_blank(d)) by {
        assert(!crate::text::is_ws(d[0]));
    }
    lemma_trim_empty_iff_blank(d);
}

} // verus!
