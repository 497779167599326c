//! The event parser: a raw line of device-debug text is split into
//! non-empty tokens on whitespace, '/' and '(', then classified into one of
//! three families — gesture, two-finger scroll, or noise — and decoded into
//! a [`Record`].

use vstd::prelude::*;
use crate::numbers::{fingers_of, milli_of, parse_fingers, parse_milli};
use crate::text::{contains_lit, contains_seq, token_eq};

verus! {

/// Token separators: ASCII whitespace, '/' and '('.
pub open spec fn is_sep(c: char) -> bool {
    c == ' ' || c == '\t' || c == '\n' || c == '\r' || c == '\u{b}' || c == '\u{c}' || c == '/'
        || c == '('
}

/// The non-empty tokens of `s`, in order, split at separators.
pub open spec fn tokens_of(s: Seq<char>) -> Seq<Seq<char>>
    decreases s.len(),
{
    if s.len() == 0 {
        Seq::empty()
    } else {
        let c = s.last();
        let pre = tokens_of(s.drop_last());
        if is_sep(c) {
            pre
        } else if s.len() >= 2 && !is_sep(s[s.len() - 2]) {
            pre.update(pre.len() - 1, pre.last().push(c))
        } else {
            pre.push(seq![c])
        }
    }
}

/// One decoded gesture event. Swipe events carry the finger count that the
/// line reported; hold events are accepted whatever the finger count, so
/// they carry none.
#[derive(Clone, Copy, PartialEq, Eq, Structural, Debug)]
pub enum GestureAction {
    SwipeBegin { finger_count: i32 },
    SwipeUpdate { finger_count: i32, dx_milli: i32, dy_milli: i32 },
    SwipeEnd { finger_count: i32, cancelled: bool },
    HoldBegin,
    HoldEnd { cancelled: bool },
    OtherGesture,
}

/// One two-finger scroll frame, in milli-units.
#[derive(Clone, Copy, PartialEq, Eq, Structural, Debug)]
pub struct ScrollSample {
    pub vertical_milli: i32,
    pub horizontal_milli: i32,
}

/// A classified line. A scroll line too short to carry both magnitudes
/// yields no sample; a gesture line too short for its minimal decode is
/// treated as noise.
#[derive(Clone, Copy, PartialEq, Eq, Debug)]
pub enum Record {
    Gesture { action: GestureAction },
    Scroll { sample: Option<ScrollSample> },
    Noise,
}

/// The line belongs to the gesture family.
pub open spec fn is_gesture_line(s: Seq<char>) -> bool {
    contains_seq(s, "GESTURE_"@)
}

/// The line belongs to the scroll family (gesture wins when both markers
/// occur).
pub open spec fn is_scroll_line(s: Seq<char>) -> bool {
    !is_gesture_line(s) && contains_seq(s, "POINTER_SCROLL_FINGER"@)
}

/// A gesture line can be decoded: the event type and finger count are
/// present, and a swipe update also carries its two deltas.
pub open spec fn gesture_decodable(toks: Seq<Seq<char>>) -> bool {
    toks.len() >= 4 && (toks[1] == "GESTURE_SWIPE_UPDATE"@ ==> toks.len() >= 6)
}

/// Decode a gesture line from its tokens: token 1 is the event type, token
/// 3 the finger count; an optional token "cancelled" follows for end
/// events; a swipe update carries dx and dy in tokens 4 and 5.
pub open spec fn gesture_action_of(toks: Seq<Seq<char>>) -> GestureAction {
    let sub = toks[1];
    let fc = fingers_of(toks[3]) as i32;
    let cancelled = toks.len() > 4 && toks[4] == "cancelled"@;
    if sub == "GESTURE_SWIPE_BEGIN"@ {
        GestureAction::SwipeBegin { finger_count: fc }
    } else if sub == "GESTURE_SWIPE_UPDATE"@ {
        GestureAction::SwipeUpdate {
            finger_count: fc,
            dx_milli: milli_of(toks[4]) as i32,
            dy_milli: milli_of(toks[5]) as i32,
        }
    } else if sub == "GESTURE_SWIPE_END"@ {
        GestureAction::SwipeEnd { finger_count: fc, cancelled }
    } else if sub == "GESTURE_HOLD_BEGIN"@ {
        GestureAction::HoldBegin
    } else if sub == "GESTURE_HOLD_END"@ {
        GestureAction::HoldEnd { cancelled }
    } else {
        GestureAction::OtherGesture
    }
}

/// Decode a scroll line from its tokens: the vertical magnitude is token 4,
/// the horizontal magnitude token 7; shorter lines carry no sample.
pub open spec fn scroll_sample_of(toks: Seq<Seq<char>>) -> Option<ScrollSample> {
    if toks.len() >= 8 {
        Some(
            ScrollSample {
                vertical_milli: milli_of(toks[4]) as i32,
                horizontal_milli: milli_of(toks[7]) as i32,
            },
        )
    } else {
        None
    }
}

/// Classification and decoding of one raw line.
pub open spec fn record_of(line: Seq<char>) -> Record {
    if is_gesture_line(line) {
        let toks = tokens_of(line);
        if gesture_decodable(toks) {
            Record::Gesture { action: gesture_action_of(toks) }
        } else {
            Record::Noise
        }
    } else if contains_seq(line, "POINTER_SCROLL_FINGER"@) {
        Record::Scroll { sample: scroll_sample_of(tokens_of(line)) }
    } else {
        Record::Noise
    }
}

/// Splitting discards empty tokens: every token of a line is non-empty.
pub proof fn lemma_tokens_nonempty(s: Seq<char>)
    ensures
        forall|k: int| 0 <= k < tokens_of(s).len() ==> (#[trigger] tokens_of(s)[k]).len() > 0,
        s.len() > 0 && !is_sep(s.last()) ==> tokens_of(s).len() > 0,
    decreases s.len(),
{
    if s.len() == 0 {
    } else {
        lemma_tokens_nonempty(s.drop_last());
        let c = s.last();
        let pre = tokens_of(s.drop_last());
        if is_sep(c) {
        } else if s.len() >= 2 && !is_sep(s[s.len() - 2]) {
            assert(s.drop_last().last() == s[s.len() - 2]);
            assert(pre.len() > 0);
            assert(forall|k: int|
                0 <= k < tokens_of(s).len() ==> (#[trigger] tokens_of(s)[k]).len() > 0);
        } else {
            assert(tokens_of(s).last().len() == 1);
        }
    }
}

fn is_sep_exec(c: char) -> (b: bool)
    ensures
        b == is_sep(c),
{
    c == ' ' || c == '\t' || c == '\n' || c == '\r' || c == '\u{b}' || c == '\u{c}' || c == '/'
        || c == '('
}

/// Split `s` into its non-empty tokens.
pub fn tokenize(s: &Vec<char>) -> (toks: Vec<Vec<char>>)
    ensures
        toks@.map_values(|t: Vec<char>| t@) == tokens_of(s@),
{
    let mut toks: Vec<Vec<char>> = Vec::new();
    let mut cur: Vec<char> = Vec::new();
    let n = s.len();
    let mut i: usize = 0;
    while i < n
        invariant
            n == s@.len(),
            i <= n,
            cur@.len() == 0 ==> toks@.map_values(|t: Vec<char>| t@) == tokens_of(
                s@.take(i as int),
            ) && (i == 0 || is_sep(s@[i - 1])),
            cur@.len() > 0 ==> toks@.map_values(|t: Vec<char>| t@).push(cur@) == tokens_of(
                s@.take(i as int),
            ) && i > 0 && !is_sep(s@[i - 1]),
        decreases n - i,
    {
        let ghost pre = tokens_of(s@.take(i as int));
        let ghost toksm = toks@.map_values(|t: Vec<char>| t@);
        let ghost curv = cur@;
        let c = s[i];
        proof {
            assert(s@.take(i + 1 as int).drop_last() =~= s@.take(i as int));
            assert(s@.take(i + 1 as int).last() == s@[i as int]);
            if i >= 1 {
                assert(s@.take(i + 1 as int)[i - 1] == s@[i - 1]);
            }
        }
        if is_sep_exec(c) {
            proof {
                assert(tokens_of(s@.take(i + 1 as int)) == pre);
            }
            if cur.len() > 0 {
                toks.push(cur);
                cur = Vec::new();
                proof {
                    assert(toks@.map_values(|t: Vec<char>| t@) =~= toksm.push(curv));
                }
            }
        } else {
            if cur.len() == 0 {
                proof {
                    assert(tokens_of(s@.take(i + 1 as int)) == pre.push(seq![s@[i as int]]));
                }
                cur.push(c);
                proof {
                    assert(cur@ =~= seq![s@[i as int]]);
                }
            } else {
                proof {
                    assert(pre == toksm.push(curv));
                    assert(pre.len() >= 1 && pre.last() == curv);
                    assert(tokens_of(s@.take(i + 1 as int)) == pre.update(
                        pre.len() - 1,
                        curv.push(s@[i as int]),
                    ));
                    assert(pre.update(pre.len() - 1, curv.push(s@[i as int])) =~= toksm.push(
                        curv.push(s@[i as int]),
                    ));
                }
                cur.push(c);
            }
        }
        i = i + 1;
    }
    if cur.len() > 0 {
        let ghost toksm = toks@.map_values(|t: Vec<char>| t@);
        let ghost curv = cur@;
        toks.push(cur);
        proof {
            assert(toks@.map_values(|t: Vec<char>| t@) =~= toksm.push(curv));
        }
    }
    proof {
        assert(s@.take(n as int) =~= s@);
    }
    toks
}

/// Decode the tokens of a gesture-family line.
fn decode_gesture(toks: &Vec<Vec<char>>) -> (r: Record)
    ensures
        r == (if gesture_decodable(toks@.map_values(|t: Vec<char>| t@)) {
            Record::Gesture {
                action: gesture_action_of(toks@.map_values(|t: Vec<char>| t@)),
            }
        } else {
            Record::Noise
        }),
{
    let ghost toksm = toks@.map_values(|t: Vec<char>| t@);
    proof {
        assert(forall|k: int| 0 <= k < toks@.len() ==> toksm[k] == #[trigger] toks@[k]@);
        // The two literals must be known distinct so that a decoded swipe
        // begin is also seen not to be a swipe update.
        reveal_strlit("GESTURE_SWIPE_BEGIN");
        reveal_strlit("GESTURE_SWIPE_UPDATE");
    }
    {
        if toks.len() < 4 {
            return Record::Noise;
        }
        let fc = parse_fingers(&toks[3]);
        proof {
            assert(fc == fingers_of(toksm[3]) as i32);
        }
        let cancelled = toks.len() > 4 && token_eq(&toks[4], "cancelled");
        if token_eq(&toks[1], "GESTURE_SWIPE_BEGIN") {
            Record::Gesture { action: GestureAction::SwipeBegin { finger_count: fc } }
        } else if token_eq(&toks[1], "GESTURE_SWIPE_UPDATE") {
            if toks.len() < 6 {
                return Record::Noise;
            }
            let dx = parse_milli(&toks[4]);
            let dy = parse_milli(&toks[5]);
            proof {
                assert(dx == milli_of(toksm[4]) as i32);
                assert(dy == milli_of(toksm[5]) as i32);
            }
            Record::Gesture {
                action: GestureAction::SwipeUpdate {
                    finger_count: fc,
                    dx_milli: dx,
                    dy_milli: dy,
                },
            }
        } else if token_eq(&toks[1], "GESTURE_SWIPE_END") {
            Record::Gesture { action: GestureAction::SwipeEnd { finger_count: fc, cancelled } }
        } else if token_eq(&toks[1], "GESTURE_HOLD_BEGIN") {
            Record::Gesture { action: GestureAction::HoldBegin }
        } else if token_eq(&toks[1], "GESTURE_HOLD_END") {
            Record::Gesture { action: GestureAction::HoldEnd { cancelled } }
        } else {
            Record::Gesture { action: GestureAction::OtherGesture }
        }
    }
}

/// Classify and decode one raw line of event text.
pub fn parse_record(line: &Vec<char>) -> (r: Record)
    ensures
        r == record_of(line@),
{
    if contains_lit(line, "GESTURE_") {
        let toks = tokenize(line);
        decode_gesture(&toks)
    } else if contains_lit(line, "POINTER_SCROLL_FINGER") {
        let toks = tokenize(line);
        let ghost toksm = toks@.map_values(|t: Vec<char>| t@);
        proof {
            assert(forall|k: int|
                0 <= k < toks@.len() ==> toksm[k] == #[trigger] toks@[k]@);
        }
        if toks.len() >= 8 {
            let v = parse_milli(&toks[4]);
            let h = parse_milli(&toks[7]);
            proof {
                assert(v == milli_of(toksm[4]) as i32);
                assert(h == milli_of(toksm[7]) as i32);
            }
            Record::Scroll {
                sample: Some(ScrollSample { vertical_milli: v, horizontal_milli: h }),
            }
        } else {
            Record::Scroll { sample: None }
        }
    } else {
        Record::Noise
    }
}

} // verus!
