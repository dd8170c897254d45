//! The player's decisions: its pipeline, which decoder pads to link, and which
//! stream events to pass on to the window.
use vstd::prelude::*;

use crate::text::{has_prefix, same_text, starts_with};

verus! {

/// The playback pipeline: decode the stream, convert it, then split it between
/// the volume-controlled audio output and a spectrum analyser.
pub const PIPELINE_DESCRIPTION: &'static str = "uridecodebin name=uridecodebin ! audioconvert name=audioconvert ! tee name=t ! queue ! volume name=volume ! autoaudiosink t. ! queue ! spectrum bands=128 threshold=-60 interval=80000000 ! fakesink";

/// Media type prefix of decoded raw audio.
pub const RAW_AUDIO_CAPS: &'static str = "audio/x-raw";

/// Name of the messages the spectrum analyser posts.
pub const SPECTRUM_MESSAGE: &'static str = "spectrum";

/// Event sent to the window when the stream title changes.
pub const TITLE_EVENT: &'static str = "title_event";

/// Event sent to the window with the spectrum magnitudes.
pub const SPECTRUM_EVENT: &'static str = "spectrum_event";

/// Whether a new decoder pad whose caps are named `pad_type` carries raw audio,
/// and so is linked to the converter's free sink.
pub fn is_raw_audio(pad_type: &str) -> (r: bool)
    ensures
        r == has_prefix(pad_type@, RAW_AUDIO_CAPS@),
{
    starts_with(pad_type, RAW_AUDIO_CAPS)
}

/// Whether a new decoder pad is linked to the converter's sink: only while the
/// sink is free, and only for raw audio. `pad_type` is the name of the pad's
/// caps, looked at only when the sink is free (`None` when it was not read).
pub fn should_link_pad(sink_linked: bool, pad_type: Option<&str>) -> (r: bool)
    ensures
        r == (!sink_linked && (pad_type matches Some(t) && has_prefix(t@, RAW_AUDIO_CAPS@))),
{
    if sink_linked {
        return false;
    }
    match pad_type {
        Some(t) => is_raw_audio(t),
        None => false,
    }
}

/// Whether an element message named `name` comes from the spectrum analyser.
pub fn is_spectrum_message(name: &str) -> (r: bool)
    ensures
        r == (name@ == SPECTRUM_MESSAGE@),
{
    same_text(name, SPECTRUM_MESSAGE)
}

/// Remembers the last stream title passed on, so that only changes are sent.
#[derive(Debug)]
pub struct TitleTracker {
    current_title: String,
}

/// The titles passed on when `titles` arrive one by one and `current` was the
/// last one passed on: each title that differs from the one before it.
pub open spec fn spec_emitted(current: Seq<char>, titles: Seq<Seq<char>>) -> Seq<Seq<char>>
    decreases titles.len(),
{
    if titles.len() == 0 {
        Seq::empty()
    } else if titles[0] != current {
        seq![titles[0]] + spec_emitted(titles[0], titles.drop_first())
    } else {
        spec_emitted(current, titles.drop_first())
    }
}

impl TitleTracker {
    /// The last title passed on.
    pub closed spec fn current(&self) -> Seq<char> {
        self.current_title@
    }

    /// A tracker that has passed nothing on: the current title is empty.
    pub fn new() -> (r: TitleTracker)
        ensures
            r.current() == Seq::<char>::empty(),
    {
        TitleTracker { current_title: String::new() }
    }

    /// The title to pass on when the stream reports `title`: the title itself
    /// when it differs from the last one passed on, which it then becomes.
    /// Over a run, what is passed on now followed by what the tracker passes on
    /// for any later titles is `spec_emitted` of the whole run.
    pub fn on_title(&mut self, title: String) -> (r: Option<String>)
        ensures
            title@ != old(self).current() ==> r == Some(title) && final(self).current() == title@,
            title@ == old(self).current() ==> r is None && final(self).current() == old(self).current(),
            forall|rest: Seq<Seq<char>>|
                #[trigger] spec_emitted(old(self).current(), seq![title@] + rest) == passed_view(r)
                    + spec_emitted(final(self).current(), rest),
    {
        proof {
            assert forall|rest: Seq<Seq<char>>|
                #[trigger] spec_emitted(self.current(), seq![title@] + rest) == (if title@
                    != self.current() {
                    seq![title@] + spec_emitted(title@, rest)
                } else {
                    spec_emitted(self.current(), rest)
                }) by {
                let all = seq![title@] + rest;
                assert(all[0] == title@);
                assert(all.drop_first() =~= rest);
            }
        }
        if same_text(title.as_str(), self.current_title.as_str()) {
            proof {
                assert forall|rest: Seq<Seq<char>>|
                    #[trigger] spec_emitted(self.current(), seq![title@] + rest) == passed_view(
                        None,
                    ) + spec_emitted(self.current(), rest) by {
                    assert(passed_view(None) + spec_emitted(self.current(), rest) =~= spec_emitted(
                        self.current(),
                        rest,
                    ));
                }
            }
            None
        } else {
            self.current_title = title.clone();
            Some(title)
        }
    }

    /// The titles passed on when the stream reports `titles` one after the
    /// other: exactly `spec_emitted` of the run, from the last title passed on.
    pub fn on_titles(&mut self, titles: &Vec<String>) -> (r: Vec<String>)
        ensures
            texts_view(r@) == spec_emitted(old(self).current(), texts_view(titles@)),
    {
        let ghost tv = texts_view(titles@);
        let ghost start = self.current();
        let mut out: Vec<String> = Vec::new();
        let n = titles.len();
        proof {
            assert(tv.skip(0) =~= tv);
            assert(texts_view(out@) =~= Seq::<Seq<char>>::empty());
        }
        for i in 0..n
            invariant
                n == titles@.len(),
                tv == texts_view(titles@),
                texts_view(out@) + spec_emitted(self.current(), tv.skip(i as int)) == spec_emitted(
                    start,
                    tv,
                ),
        {
            let ghost before = self.current();
            let ghost prev = out@;
            let t = titles[i].clone();
            proof {
                assert(seq![tv[i as int]] + tv.skip(i + 1) =~= tv.skip(i as int));
                assert(t@ == tv[i as int]);
            }
            let passed = self.on_title(t);
            assert(spec_emitted(before, seq![tv[i as int]] + tv.skip(i + 1)) == passed_view(passed)
                + spec_emitted(self.current(), tv.skip(i + 1)));
            match passed {
                Some(p) => {
                    out.push(p);
                    proof {
                        assert(texts_view(out@) =~= texts_view(prev) + passed_view(Some(p)));
                    }
                },
                None => {
                    proof {
                        assert(texts_view(out@) =~= texts_view(prev) + passed_view(None));
                    }
                },
            }
            proof {
                assert(texts_view(out@) + spec_emitted(self.current(), tv.skip(i + 1)) =~= texts_view(
                    prev,
                ) + spec_emitted(before, tv.skip(i as int)));
            }
        }
        proof {
            assert(tv.skip(n as int) =~= Seq::<Seq<char>>::empty());
            assert(texts_view(out@) + Seq::<Seq<char>>::empty() =~= texts_view(out@));
        }
        out
    }
}

/// What a call of `on_title` passes on, as a run of at most one title.
pub open spec fn passed_view(r: Option<String>) -> Seq<Seq<char>> {
    match r {
        Some(t) => seq![t@],
        None => Seq::empty(),
    }
}

/// The texts of a list of strings.
pub open spec fn texts_view(v: Seq<String>) -> Seq<Seq<char>> {
    v.map_values(|s: String| s@)
}

/// Only reported titles are passed on, at most one per report; a first title
/// that differs from the last one passed on is passed on first; a run of the
/// last title passed on passes nothing on.
pub proof fn law_emitted_from_reports(current: Seq<char>, titles: Seq<Seq<char>>)
    ensures
        spec_emitted(current, titles).len() <= titles.len(),
        forall|i: int|
            0 <= i < spec_emitted(current, titles).len() ==> titles.contains(
                #[trigger] spec_emitted(current, titles)[i],
            ),
        titles.len() > 0 && titles[0] != current ==> spec_emitted(current, titles).len() > 0
            && spec_emitted(current, titles)[0] == titles[0],
        (forall|i: int| 0 <= i < titles.len() ==> #[trigger] titles[i] == current) ==> spec_emitted(
            current,
            titles,
        ).len() == 0,
    decreases titles.len(),
{
    if titles.len() > 0 {
        let rest = titles.drop_first();
        let next = if titles[0] != current { titles[0] } else { current };
        law_emitted_from_reports(next, rest);
        let tail = spec_emitted(next, rest);
        let all = spec_emitted(current, titles);
        assert forall|i: int| 0 <= i < all.len() implies titles.contains(#[trigger] all[i]) by {
            if titles[0] != current {
                if i == 0 {
                    assert(titles[0] == all[0]);
                } else {
                    assert(all[i] == tail[i - 1]);
                    assert(rest.contains(tail[i - 1]));
                    let j = choose|j: int| 0 <= j < rest.len() && rest[j] == tail[i - 1];
                    assert(titles[j + 1] == all[i]);
                }
            } else {
                assert(all[i] == tail[i]);
                let j = choose|j: int| 0 <= j < rest.len() && rest[j] == tail[i];
                assert(titles[j + 1] == all[i]);
            }
        }
        if forall|i: int| 0 <= i < titles.len() ==> #[trigger] titles[i] == current {
            assert(titles[0] == current);
            assert forall|i: int| 0 <= i < rest.len() implies #[trigger] rest[i] == current by {
                assert(rest[i] == titles[i + 1]);
            }
        }
    }
}

/// A title reported twice in a row is passed on at most once.
pub proof fn law_repeated_title_passed_once(current: Seq<char>, title: Seq<char>)
    ensures
        spec_emitted(current, seq![title, title]).len() <= 1,
{
    let ts = seq![title, title];
    assert(ts.drop_first() =~= seq![title]);
    assert(seq![title].drop_first() =~= Seq::<Seq<char>>::empty());
    reveal_with_fuel(spec_emitted, 3);
}

/// Two titles passed on one after the other always differ, and the first
/// differs from the title passed on before.
pub proof fn law_passed_titles_change(current: Seq<char>, titles: Seq<Seq<char>>)
    ensures
        spec_emitted(current, titles).len() > 0 ==> spec_emitted(current, titles)[0] != current,
        forall|i: int|
            0 <= i < spec_emitted(current, titles).len() - 1 ==> #[trigger] spec_emitted(
                current,
                titles,
            )[i] != spec_emitted(current, titles)[i + 1],
    decreases titles.len(),
{
    if titles.len() > 0 {
        let rest = titles.drop_first();
        if titles[0] != current {
            law_passed_titles_change(titles[0], rest);
            let tail = spec_emitted(titles[0], rest);
            let all = spec_emitted(current, titles);
            assert(all == seq![titles[0]] + tail);
            assert forall|i: int| 0 <= i < all.len() - 1 implies #[trigger] all[i] != all[i + 1] by {
                if i == 0 {
                    assert(all[1] == tail[0]);
                } else {
                    assert(all[i] == tail[i - 1]);
                    assert(all[i + 1] == tail[i]);
                }
            }
        } else {
            law_passed_titles_change(current, rest);
        }
    }
}

} // verus!
